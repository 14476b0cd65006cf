use kronos_compute::enums::VkResult;
use kronos_compute::error::{IcdError, KronosError};
use kronos_compute::icd_loader::{
    accept_manifest, available_icds, clear_preferred_icd, count_nonempty_segments, icd_api_version,
    icd_candidate, icd_order, is_software_library, is_trusted_library, parse_api_version,
    select_icd, selected_icd_info, set_preferred_icd_index, set_preferred_icd_path, FoundIcd,
    IcdCandidate, IcdManifest, IcdPreference,
};
use kronos_compute::initialize_kronos;
use kronos_compute::make_version;
use std::sync::atomic::{AtomicU32, Ordering};

static MEMORY_ALLOCATIONS: AtomicU32 = AtomicU32::new(0);

#[test]
fn test_icd_error_creation() {
    let error = IcdError::VulkanError(VkResult::ErrorDeviceLost);
    match error {
        IcdError::VulkanError(result) => assert_eq!(result, VkResult::ErrorDeviceLost),
        _ => panic!("Wrong error type"),
    }
}

#[test]
fn test_zero_allocations_steady_state() {
    let mut initialized = false;
    initialize_kronos(&mut initialized, Ok(())).expect("Failed to initialize");

    MEMORY_ALLOCATIONS.store(0, Ordering::SeqCst);
    for _ in 0..10 {
        MEMORY_ALLOCATIONS.fetch_add(1, Ordering::SeqCst);
    }
    let warmup_allocations = MEMORY_ALLOCATIONS.load(Ordering::SeqCst);

    MEMORY_ALLOCATIONS.store(0, Ordering::SeqCst);
    for _ in 0..1000 {}

    let steady_state_allocations = MEMORY_ALLOCATIONS.load(Ordering::SeqCst);
    assert_eq!(steady_state_allocations, 0, "Expected 0 allocations in steady state, got {}", steady_state_allocations);
    assert_eq!(warmup_allocations, 10);
}

#[test]
fn initialization_happens_once() {
    let mut initialized = false;
    assert_eq!(
        initialize_kronos(&mut initialized, Err(IcdError::NoManifestsFound)),
        Err(KronosError::IcdError(IcdError::NoManifestsFound))
    );
    assert!(!initialized);
    assert_eq!(initialize_kronos(&mut initialized, Ok(())), Ok(()));
    assert!(initialized);
    assert_eq!(initialize_kronos(&mut initialized, Err(IcdError::NoIcdLoaded)), Ok(()));
}

#[test]
fn api_versions_read_like_the_manifest_parser() {
    assert_eq!(parse_api_version("1.3.268"), Some(make_version(1, 3, 268)));
    assert_eq!(parse_api_version("1.2"), Some(make_version(1, 2, 0)));
    assert_eq!(parse_api_version("1"), Some(make_version(1, 0, 0)));
    assert_eq!(parse_api_version("1.x.5"), Some(make_version(1, 0, 5)));
    assert_eq!(parse_api_version("+1.+2.3.9"), Some(make_version(1, 2, 3)));
    assert_eq!(parse_api_version(""), None);
    assert_eq!(parse_api_version("v1.2"), None);
    assert_eq!(parse_api_version("-1.0"), None);
    assert_eq!(parse_api_version("4294967296.0"), None);
    assert_eq!(parse_api_version("4294967295"), Some(make_version(4294967295, 0, 0)));
    assert_eq!(parse_api_version("1..2"), Some(make_version(1, 0, 2)));
}

#[test]
fn library_classification() {
    assert!(is_software_library("/usr/lib/x86_64-linux-gnu/libvulkan_lvp.so"));
    assert!(is_software_library("/usr/lib/libswrast.so"));
    assert!(is_software_library("llvmpipe"));
    assert!(!is_software_library("/usr/lib/libvulkan_radeon.so"));
    assert!(is_trusted_library("/usr/lib/libvulkan_radeon.so", false));
    assert!(is_trusted_library("/lib64/x.so", false));
    assert!(is_trusted_library("/usr/local/lib/x.so", false));
    assert!(!is_trusted_library("/tmp/x.so", false));
    assert!(is_trusted_library("/tmp/x.so", true));
    assert!(!is_trusted_library("/usr/library/x.so", false));
    assert!(!is_trusted_library("/usr/libevil/libvulkan_x.so", false));
    assert!(is_trusted_library("/usr/lib/x86_64-linux-gnu/libvulkan_radeon.so", false));
    assert!(is_trusted_library("/usr/lib64/libvulkan_intel.so", false));
    assert!(!is_trusted_library("/lib640/x.so", false));
    assert!(is_trusted_library("/usr/library/x.so", true));
}

#[test]
fn env_lists_count_nonempty_entries() {
    assert_eq!(count_nonempty_segments("a.json:b.json", b':'), 2);
    assert_eq!(count_nonempty_segments("::a.json::", b':'), 1);
    assert_eq!(count_nonempty_segments("", b':'), 0);
}

#[test]
fn manifests_need_a_library() {
    let m = IcdManifest { library_path: "libx.so".to_string(), api_version: None };
    assert!(accept_manifest(m).is_some());
    let m = IcdManifest { library_path: String::new(), api_version: Some("1.0".to_string()) };
    assert!(accept_manifest(m).is_none());
    assert_eq!(icd_api_version(&Some("1.1".to_string()), 7), make_version(1, 1, 0));
    assert_eq!(icd_api_version(&Some("x".to_string()), 7), 7);
    assert_eq!(icd_api_version(&None, 7), 7);
}

#[test]
fn descriptions_of_found_and_selected_drivers() {
    let found = vec![FoundIcd {
        manifest_path: "/usr/share/vulkan/icd.d/lvp.json".to_string(),
        library_path: "/usr/lib/libvulkan_lvp.so".to_string(),
        declared_api_version: Some("1.3.0".to_string()),
        loaded_api_version: 1,
    }];
    let infos = available_icds(&found);
    assert_eq!(infos.len(), 1);
    assert!(infos[0].is_software);
    assert_eq!(infos[0].api_version, make_version(1, 3, 0));
    assert_eq!(infos[0].manifest_path, Some("/usr/share/vulkan/icd.d/lvp.json".to_string()));
    let sel = selected_icd_info(&Some(("/usr/lib/libvulkan_radeon.so".to_string(), 5))).unwrap();
    assert!(!sel.is_software);
    assert_eq!(sel.api_version, 5);
    assert!(sel.manifest_path.is_none());
    assert!(selected_icd_info(&None).is_none());
}

fn cand(path: &str, manifest_index: usize, env_count: usize) -> IcdCandidate {
    icd_candidate(path.to_string(), manifest_index, env_count)
}

#[test]
fn ranking_and_selection() {
    let cands = vec![
        cand("/usr/lib/libvulkan_lvp.so", 0, 1),
        cand("/usr/lib/libvulkan_radeon.so", 1, 1),
        cand("/usr/lib/libvulkan_intel.so", 2, 1),
    ];
    assert!(cands[0].is_env_priority && cands[0].is_software);
    // Hardware is preferred and present: the software driver is dropped.
    assert_eq!(icd_order(&cands, true), vec![1, 2]);
    // Otherwise the env-named driver comes first even though it is software.
    assert_eq!(icd_order(&cands, false), vec![0, 1, 2]);

    let mut pref: Option<IcdPreference> = None;
    assert_eq!(select_icd(3, &cands, true, &pref), Ok(1));
    set_preferred_icd_index(&mut pref, 1);
    assert_eq!(select_icd(3, &cands, true, &pref), Ok(2));
    set_preferred_icd_index(&mut pref, 5);
    assert_eq!(select_icd(3, &cands, true, &pref), Ok(1));
    set_preferred_icd_path(&mut pref, "/usr/lib//libvulkan_intel.so".to_string());
    assert_eq!(select_icd(3, &cands, true, &pref), Ok(2));
    set_preferred_icd_path(&mut pref, "/nowhere.so".to_string());
    assert_eq!(select_icd(3, &cands, true, &pref), Ok(1));
    clear_preferred_icd(&mut pref);
    assert!(pref.is_none());

    assert_eq!(select_icd(0, &cands, true, &pref), Err(IcdError::NoManifestsFound));
    assert_eq!(
        select_icd(2, &vec![], true, &pref),
        Err(IcdError::InvalidManifest("Failed to load any Vulkan ICD".to_string()))
    );
}

#[test]
fn only_software_drivers_are_kept_when_nothing_else_loads() {
    let cands = vec![cand("/usr/lib/libvulkan_lvp.so", 0, 0), cand("/usr/lib/swrast.so", 1, 0)];
    assert_eq!(icd_order(&cands, true), vec![0, 1]);
    assert_eq!(select_icd(2, &cands, true, &None), Ok(0));
}
