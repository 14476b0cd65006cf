//! Choosing a Vulkan driver (ICD).
//!
//! Discovering manifests, reading them and loading the driver libraries are
//! done by the caller; this module holds what is decided on the way: how an
//! API version string reads, which libraries are software renderers or come
//! from trusted locations, in what order the loaded drivers are ranked, and
//! which one is selected.

use crate::error::IcdError;
use crate::sys::spec_make_version;
use crate::sys::VK_MAKE_VERSION;
use vstd::prelude::*;
use vstd::string::StringSliceAdditionalSpecFns;
use vstd::utf8::encode_utf8;

verus! {

/// ASCII `.`.
pub const DOT: u8 = 0x2e;

/// ASCII `+`.
pub const PLUS: u8 = 0x2b;

/// An ASCII decimal digit.
pub open spec fn is_digit(b: u8) -> bool {
    0x30 <= b <= 0x39
}

/// The number a string of decimal digits spells.
pub open spec fn digits_value(s: Seq<u8>) -> nat
    decreases s.len(),
{
    if s.len() == 0 {
        0
    } else {
        digits_value(s.drop_last()) * 10 + (s.last() - 0x30) as nat
    }
}

/// The digits of an unsigned number: after an optional leading `+`.
pub open spec fn unsigned_digits(s: Seq<u8>) -> Seq<u8> {
    if s.len() > 0 && s[0] == PLUS {
        s.skip(1)
    } else {
        s
    }
}

/// How a `u32` reads from `s`, as `u32::from_str` reads it: an optional `+`, then one
/// or more decimal digits whose value fits in 32 bits; `None` otherwise.
pub open spec fn spec_parse_u32(s: Seq<u8>) -> Option<u32> {
    let d = unsigned_digits(s);
    if d.len() > 0 && (forall|i: int| 0 <= i < d.len() ==> is_digit(#[trigger] d[i])) && digits_value(d)
        <= u32::MAX {
        Some(digits_value(d) as u32)
    } else {
        None
    }
}

/// Index of the first `.` at or after `i` (the length when there is none).
pub open spec fn dot_from(s: Seq<u8>, i: int) -> int
    decreases s.len() - i,
{
    if i >= s.len() {
        s.len() as int
    } else if s[i] == DOT {
        i
    } else {
        dot_from(s, i + 1)
    }
}

/// The `.`-separated field of `s` that starts at `i`.
pub open spec fn field_at(s: Seq<u8>, i: int) -> Seq<u8> {
    s.subrange(i, dot_from(s, i))
}

/// Where the field after the one at `i` starts, if there is one.
pub open spec fn next_field(s: Seq<u8>, i: int) -> Option<int> {
    if dot_from(s, i) < s.len() {
        Some(dot_from(s, i) + 1)
    } else {
        None
    }
}

/// The number in the field at `i`, or 0 when it does not read as one.
pub open spec fn field_or_zero(s: Seq<u8>, i: int) -> u32 {
    match spec_parse_u32(field_at(s, i)) {
        Some(v) => v,
        None => 0,
    }
}

/// The version a string like `1.3.268` gives: its first three `.`-separated fields
/// as major, minor and patch, packed as `VK_MAKE_VERSION` packs them. The major number
/// must read as a `u32`; a missing or unreadable minor or patch number counts as 0;
/// further fields are ignored.
pub open spec fn spec_parse_api_version(s: Seq<u8>) -> Option<u32> {
    match spec_parse_u32(field_at(s, 0)) {
        None => None,
        Some(major) => {
            let minor = match next_field(s, 0) {
                None => 0u32,
                Some(i1) => field_or_zero(s, i1),
            };
            let patch = match next_field(s, 0) {
                None => 0u32,
                Some(i1) => match next_field(s, i1) {
                    None => 0u32,
                    Some(i2) => field_or_zero(s, i2),
                },
            };
            Some(spec_make_version(major, minor, patch))
        },
    }
}

proof fn lemma_dot_from_bound(s: Seq<u8>, i: int)
    requires
        0 <= i <= s.len(),
    ensures
        i <= dot_from(s, i) <= s.len(),
        dot_from(s, i) < s.len() ==> s[dot_from(s, i)] == DOT,
    decreases s.len() - i,
{
    if i < s.len() && s[i] != DOT {
        lemma_dot_from_bound(s, i + 1);
    }
}

proof fn lemma_digits_value_push(s: Seq<u8>, b: u8)
    ensures
        digits_value(s.push(b)) == digits_value(s) * 10 + (b - 0x30) as nat,
{
    assert(s.push(b).drop_last() =~= s);
}

/// Appending digits never makes the value smaller.
proof fn lemma_digits_value_prefix(s: Seq<u8>, k: int)
    requires
        0 <= k <= s.len(),
        forall|i: int| 0 <= i < s.len() ==> is_digit(#[trigger] s[i]),
    ensures
        digits_value(s.take(k)) <= digits_value(s),
    decreases s.len() - k,
{
    if k < s.len() {
        lemma_digits_value_prefix(s, k + 1);
        assert(s.take(k + 1).drop_last() =~= s.take(k));
        let v = digits_value(s.take(k));
        let d = (s[k] - 0x30) as nat;
        assert(v <= v * 10 + d) by (nonlinear_arith);
    } else {
        assert(s.take(k) =~= s);
    }
}

/// Reads a `u32` from bytes `start..end` of `b` as `u32::from_str` does.
pub fn parse_u32_bytes(b: &[u8], start: usize, end: usize) -> (r: Option<u32>)
    requires
        start <= end <= b@.len(),
    ensures
        r == spec_parse_u32(b@.subrange(start as int, end as int)),
{
    let ghost s = b@.subrange(start as int, end as int);
    let mut i = start;
    if i < end && b[i] == PLUS {
        i = i + 1;
    }
    let ghost d = unsigned_digits(s);
    proof {
        assert(d =~= b@.subrange(i as int, end as int));
    }
    if i == end {
        return None;
    }
    let first = i;
    let mut acc: u64 = 0;
    while i < end
        invariant
            start <= first <= i <= end <= b@.len(),
            first < end,
            d =~= b@.subrange(first as int, end as int),
            s == b@.subrange(start as int, end as int),
            d == unsigned_digits(s),
            acc <= u32::MAX,
            acc == digits_value(d.take(i - first)),
            forall|k: int| 0 <= k < i - first ==> is_digit(#[trigger] d[k]),
        decreases end - i,
    {
        let c = b[i];
        if c < 0x30 || c > 0x39 {
            proof {
                assert(!is_digit(d[i - first]));
            }
            return None;
        }
        let digit = (c - 0x30) as u64;
        proof {
            assert(d.take(i - first + 1) =~= d.take(i - first).push(c));
            lemma_digits_value_push(d.take(i - first), c);
        }
        if acc > 429496729 || (acc == 429496729 && digit > 5) {
            proof {
                let v = digits_value(d.take(i - first + 1));
                assert(v == acc * 10 + digit);
                assert(v > u32::MAX) by (nonlinear_arith)
                    requires
                        v == acc * 10 + digit,
                        acc > 429496729 || (acc == 429496729 && digit > 5),
                ;
                if forall|k: int| 0 <= k < d.len() ==> is_digit(#[trigger] d[k]) {
                    lemma_digits_value_prefix(d, i - first + 1);
                }
            }
            return None;
        }
        acc = acc * 10 + digit;
        i = i + 1;
    }
    proof {
        assert(d.take(d.len() as int) =~= d);
    }
    Some(acc as u32)
}

/// Index of the first `.` in `b` at or after `from` (the length when there is none).
fn find_dot(b: &[u8], from: usize) -> (r: usize)
    requires
        from <= b@.len(),
    ensures
        r == dot_from(b@, from as int),
{
    let mut i = from;
    while i < b.len()
        invariant
            from <= i <= b@.len(),
            dot_from(b@, from as int) == dot_from(b@, i as int),
        decreases b@.len() - i,
    {
        if b[i] == DOT {
            return i;
        }
        i = i + 1;
    }
    i
}

/// Parses an API version such as `1.3.268` into a packed version number (see
/// `spec_parse_api_version`).
pub fn parse_api_version(version: &str) -> (r: Option<u32>)
    ensures
        r == spec_parse_api_version(version.spec_bytes()),
{
    let b = version.as_bytes();
    let ghost s = b@;
    let n = b.len();
    let d0 = find_dot(b, 0);
    proof {
        lemma_dot_from_bound(s, 0);
    }
    let major = match parse_u32_bytes(b, 0, d0) {
        Some(v) => v,
        None => return None,
    };
    let mut minor: u32 = 0;
    let mut patch: u32 = 0;
    if d0 < n {
        let i1 = d0 + 1;
        let d1 = find_dot(b, i1);
        proof {
            lemma_dot_from_bound(s, i1 as int);
        }
        minor = match parse_u32_bytes(b, i1, d1) {
            Some(v) => v,
            None => 0,
        };
        if d1 < n {
            let i2 = d1 + 1;
            let d2 = find_dot(b, i2);
            proof {
                lemma_dot_from_bound(s, i2 as int);
            }
            patch = match parse_u32_bytes(b, i2, d2) {
                Some(v) => v,
                None => 0,
            };
        }
    }
    Some(VK_MAKE_VERSION(major, minor, patch))
}

/// Whether `needle` occurs in `hay` at index `i`.
pub open spec fn occurs_at(hay: Seq<u8>, needle: Seq<u8>, i: int) -> bool {
    0 <= i && i + needle.len() <= hay.len() && hay.subrange(i, i + needle.len()) == needle
}

/// Whether `needle` occurs anywhere in `hay`.
pub open spec fn contains_bytes(hay: Seq<u8>, needle: Seq<u8>) -> bool {
    exists|i: int| occurs_at(hay, needle, i)
}

/// Whether `hay` begins with `prefix`.
pub open spec fn starts_with(hay: Seq<u8>, prefix: Seq<u8>) -> bool {
    occurs_at(hay, prefix, 0)
}

/// Whether `needle` occurs in `hay` at index `i`.
fn occurs_at_exec(hay: &[u8], needle: &[u8], i: usize) -> (r: bool)
    ensures
        r == occurs_at(hay@, needle@, i as int),
{
    if i > hay.len() || needle.len() > hay.len() - i {
        return false;
    }
    let hl = hay.len();
    let mut k: usize = 0;
    while k < needle.len()
        invariant
            hl == hay@.len(),
            i + needle@.len() <= hay@.len(),
            0 <= k <= needle@.len(),
            forall|j: int| 0 <= j < k ==> hay@[i + j] == needle@[j],
        decreases needle@.len() - k,
    {
        if hay[i + k] != needle[k] {
            proof {
                assert(hay@.subrange(i as int, i + needle@.len())[k as int] != needle@[k as int]);
            }
            return false;
        }
        k = k + 1;
    }
    proof {
        assert(hay@.subrange(i as int, i + needle@.len()) =~= needle@);
    }
    true
}

/// Whether `needle` occurs anywhere in `hay`.
pub fn contains_exec(hay: &[u8], needle: &[u8]) -> (r: bool)
    ensures
        r == contains_bytes(hay@, needle@),
{
    if needle.len() > hay.len() {
        return false;
    }
    if needle.len() == 0 {
        proof {
            assert(hay@.subrange(0, 0) =~= needle@);
            assert(occurs_at(hay@, needle@, 0));
        }
        return true;
    }
    let count = hay.len() - needle.len() + 1;
    let mut i: usize = 0;
    while i < count
        invariant
            count == hay@.len() - needle@.len() + 1,
            0 <= i <= count,
            forall|j: int| 0 <= j < i ==> !occurs_at(hay@, needle@, j),
        decreases count - i,
    {
        if occurs_at_exec(hay, needle, i) {
            return true;
        }
        i = i + 1;
    }
    proof {
        assert forall|j: int| !occurs_at(hay@, needle@, j) by {
            if 0 <= j && j + needle@.len() <= hay@.len() {
                assert(j < count);
            }
        }
    }
    false
}

/// Whether `hay` begins with `prefix`.
pub fn starts_with_exec(hay: &[u8], prefix: &[u8]) -> (r: bool)
    ensures
        r == starts_with(hay@, prefix@),
{
    occurs_at_exec(hay, prefix, 0)
}

/// `lvp`, the lavapipe software renderer.
pub open spec fn lvp() -> Seq<u8> {
    seq![0x6c, 0x76, 0x70]
}

/// `swrast`, the Mesa software rasteriser.
pub open spec fn swrast() -> Seq<u8> {
    seq![0x73, 0x77, 0x72, 0x61, 0x73, 0x74]
}

/// `llvmpipe`, the Mesa LLVM software renderer.
pub open spec fn llvmpipe() -> Seq<u8> {
    seq![0x6c, 0x6c, 0x76, 0x6d, 0x70, 0x69, 0x70, 0x65]
}

/// Whether a library path names a software renderer.
pub open spec fn spec_is_software(path: Seq<u8>) -> bool {
    contains_bytes(path, lvp()) || contains_bytes(path, swrast()) || contains_bytes(path, llvmpipe())
}

/// Whether the driver library at `path` is a software renderer: its path mentions
/// `lvp`, `swrast` or `llvmpipe`.
pub fn is_software_library(path: &str) -> (r: bool)
    ensures
        r == spec_is_software(path.spec_bytes()),
{
    let b = path.as_bytes();
    let lvp_name: [u8; 3] = [0x6c, 0x76, 0x70];
    let swrast_name: [u8; 6] = [0x73, 0x77, 0x72, 0x61, 0x73, 0x74];
    let llvmpipe_name: [u8; 8] = [0x6c, 0x6c, 0x76, 0x6d, 0x70, 0x69, 0x70, 0x65];
    proof {
        assert(lvp_name@ =~= lvp());
        assert(swrast_name@ =~= swrast());
        assert(llvmpipe_name@ =~= llvmpipe());
    }
    contains_exec(b, lvp_name.as_slice()) || contains_exec(b, swrast_name.as_slice()) || contains_exec(
        b,
        llvmpipe_name.as_slice(),
    )
}

/// The directories whose libraries are trusted: `/usr/lib`, `/usr/lib64`,
/// `/usr/local/lib`, `/lib`, `/lib64` and `/usr/lib/x86_64-linux-gnu`, as path prefixes.
pub open spec fn trusted_prefixes() -> Seq<Seq<u8>> {
    seq![
        seq![0x2f, 0x75, 0x73, 0x72, 0x2f, 0x6c, 0x69, 0x62],
        seq![0x2f, 0x75, 0x73, 0x72, 0x2f, 0x6c, 0x69, 0x62, 0x36, 0x34],
        seq![0x2f, 0x75, 0x73, 0x72, 0x2f, 0x6c, 0x6f, 0x63, 0x61, 0x6c, 0x2f, 0x6c, 0x69, 0x62],
        seq![0x2f, 0x6c, 0x69, 0x62],
        seq![0x2f, 0x6c, 0x69, 0x62, 0x36, 0x34],
        seq![
            0x2f, 0x75, 0x73, 0x72, 0x2f, 0x6c, 0x69, 0x62, 0x2f, 0x78, 0x38, 0x36, 0x5f, 0x36,
            0x34, 0x2d, 0x6c, 0x69, 0x6e, 0x75, 0x78, 0x2d, 0x67, 0x6e, 0x75
        ],
    ]
}

/// Whether `path` lies in the directory `dir`: `dir` is a prefix of it made of whole
/// path components, so that `path` is `dir` itself or continues with `/` after it
/// (`/usr/lib/x.so` lies in `/usr/lib`, `/usr/library/x.so` does not).
pub open spec fn lies_in(path: Seq<u8>, dir: Seq<u8>) -> bool {
    starts_with(path, dir) && (path.len() == dir.len() || path[dir.len() as int] == 0x2f)
}

/// Whether a library may be loaded: always when untrusted libraries are allowed,
/// otherwise when its path lies in one of the `trusted_prefixes` directories.
pub open spec fn spec_is_trusted(path: Seq<u8>, allow_untrusted: bool) -> bool {
    allow_untrusted || exists|k: int| 0 <= k < trusted_prefixes().len() && lies_in(path, #[trigger] trusted_prefixes()[k])
}

/// Whether `path` lies in the directory `dir` (see `lies_in`).
fn lies_in_exec(path: &[u8], dir: &[u8]) -> (r: bool)
    ensures
        r == lies_in(path@, dir@),
{
    if !starts_with_exec(path, dir) {
        return false;
    }
    path.len() == dir.len() || path[dir.len()] == 0x2f
}

/// Whether the library at `path` may be loaded (see `spec_is_trusted`).
pub fn is_trusted_library(path: &str, allow_untrusted: bool) -> (r: bool)
    ensures
        r == spec_is_trusted(path.spec_bytes(), allow_untrusted),
{
    if allow_untrusted {
        return true;
    }
    let b = path.as_bytes();
    let usr_lib: [u8; 8] = [0x2f, 0x75, 0x73, 0x72, 0x2f, 0x6c, 0x69, 0x62];
    let usr_lib64: [u8; 10] = [0x2f, 0x75, 0x73, 0x72, 0x2f, 0x6c, 0x69, 0x62, 0x36, 0x34];
    let usr_local_lib: [u8; 14] = [
        0x2f, 0x75, 0x73, 0x72, 0x2f, 0x6c, 0x6f, 0x63, 0x61, 0x6c, 0x2f, 0x6c, 0x69, 0x62,
    ];
    let lib: [u8; 4] = [0x2f, 0x6c, 0x69, 0x62];
    let lib64: [u8; 6] = [0x2f, 0x6c, 0x69, 0x62, 0x36, 0x34];
    let multiarch: [u8; 25] = [
        0x2f, 0x75, 0x73, 0x72, 0x2f, 0x6c, 0x69, 0x62, 0x2f, 0x78, 0x38, 0x36, 0x5f, 0x36, 0x34,
        0x2d, 0x6c, 0x69, 0x6e, 0x75, 0x78, 0x2d, 0x67, 0x6e, 0x75,
    ];
    let ghost prefixes = trusted_prefixes();
    proof {
        assert(usr_lib@ =~= prefixes[0]);
        assert(usr_lib64@ =~= prefixes[1]);
        assert(usr_local_lib@ =~= prefixes[2]);
        assert(lib@ =~= prefixes[3]);
        assert(lib64@ =~= prefixes[4]);
        assert(multiarch@ =~= prefixes[5]);
    }
    let r = lies_in_exec(b, usr_lib.as_slice()) || lies_in_exec(b, usr_lib64.as_slice())
        || lies_in_exec(b, usr_local_lib.as_slice()) || lies_in_exec(b, lib.as_slice())
        || lies_in_exec(b, lib64.as_slice()) || lies_in_exec(b, multiarch.as_slice());
    proof {
        if !r {
            assert forall|k: int| 0 <= k < prefixes.len() implies !lies_in(
                b@,
                #[trigger] prefixes[k],
            ) by {
                if k == 0 {
                } else if k == 1 {
                } else if k == 2 {
                } else if k == 3 {
                } else if k == 4 {
                } else {
                }
            }
        }
    }
    r
}

/// Number of non-empty fields among the first `n` bytes' fields: the positions below
/// `n` that start a field with a byte other than the separator.
pub open spec fn nonempty_fields(s: Seq<u8>, sep: u8, n: int) -> nat
    decreases n,
{
    if n <= 0 {
        0
    } else {
        nonempty_fields(s, sep, n - 1) + if s[n - 1] != sep && (n - 1 == 0 || s[n - 2] == sep) {
            1nat
        } else {
            0
        }
    }
}

/// How many non-empty entries a `sep`-separated list holds (as in the count of ICD
/// files named in `VK_ICD_FILENAMES`).
pub fn count_nonempty_segments(list: &str, sep: u8) -> (n: usize)
    ensures
        n == nonempty_fields(list.spec_bytes(), sep, list.spec_bytes().len() as int),
{
    let b = list.as_bytes();
    let mut count: usize = 0;
    let mut i: usize = 0;
    while i < b.len()
        invariant
            0 <= i <= b@.len(),
            count == nonempty_fields(b@, sep, i as int),
            count <= i,
        decreases b@.len() - i,
    {
        if b[i] != sep && (i == 0 || b[i - 1] == sep) {
            count = count + 1;
        }
        i = i + 1;
    }
    count
}

/// What is known of a driver that can be loaded.
#[derive(Debug, Clone)]
pub struct IcdInfo {
    pub library_path: String,
    pub manifest_path: Option<String>,
    pub api_version: u32,
    pub is_software: bool,
}

/// The driver entry of a manifest: the library and the API version it declares.
#[derive(Debug, Clone)]
pub struct IcdManifest {
    pub library_path: String,
    pub api_version: Option<String>,
}

/// A manifest is usable when it names a library.
pub fn accept_manifest(manifest: IcdManifest) -> (r: Option<IcdManifest>)
    ensures
        manifest.library_path@.len() > 0 ==> r == Some(manifest),
        manifest.library_path@.len() == 0 ==> r is None,
{
    if manifest.library_path.as_str().is_empty() {
        None
    } else {
        Some(manifest)
    }
}

/// The API version of a driver: the one its manifest declares, when that reads as a
/// version, else the one the loaded library reports.
pub open spec fn spec_icd_api_version(declared: Option<Seq<u8>>, loaded: u32) -> u32 {
    match declared {
        Some(d) => match spec_parse_api_version(d) {
            Some(v) => v,
            None => loaded,
        },
        None => loaded,
    }
}

/// The API version of a driver (see `spec_icd_api_version`).
pub fn icd_api_version(declared: &Option<String>, loaded: u32) -> (v: u32)
    ensures
        v == spec_icd_api_version(
            match declared {
                Some(d) => Some(encode_utf8(d@)),
                None => None,
            },
            loaded,
        ),
{
    match declared {
        Some(d) => match parse_api_version(d.as_str()) {
            Some(v) => v,
            None => loaded,
        },
        None => loaded,
    }
}

/// A driver whose library was loaded from the manifest at `manifest_path`: the
/// library's path, the version the manifest declares and the version the library reports.
#[derive(Debug, Clone)]
pub struct FoundIcd {
    pub manifest_path: String,
    pub library_path: String,
    pub declared_api_version: Option<String>,
    pub loaded_api_version: u32,
}

/// Whether `info` describes `found`.
pub open spec fn describes(info: IcdInfo, found: FoundIcd) -> bool {
    &&& info.library_path == found.library_path
    &&& info.manifest_path == Some(found.manifest_path)
    &&& info.api_version == spec_icd_api_version(
        match found.declared_api_version {
            Some(d) => Some(encode_utf8(d@)),
            None => None,
        },
        found.loaded_api_version,
    )
    &&& info.is_software == spec_is_software(encode_utf8(found.library_path@))
}

/// One description per loaded driver, in the order given.
pub fn available_icds(found: &Vec<FoundIcd>) -> (r: Vec<IcdInfo>)
    ensures
        r@.len() == found@.len(),
        forall|i: int| 0 <= i < found@.len() ==> describes(#[trigger] r@[i], found@[i]),
{
    let mut out: Vec<IcdInfo> = Vec::new();
    let mut i: usize = 0;
    while i < found.len()
        invariant
            0 <= i <= found@.len(),
            out@.len() == i,
            forall|k: int| 0 <= k < i ==> describes(#[trigger] out@[k], found@[k]),
        decreases found@.len() - i,
    {
        let f = &found[i];
        let info = IcdInfo {
            library_path: f.library_path.clone(),
            manifest_path: Some(f.manifest_path.clone()),
            api_version: icd_api_version(&f.declared_api_version, f.loaded_api_version),
            is_software: is_software_library(f.library_path.as_str()),
        };
        out.push(info);
        i = i + 1;
    }
    out
}

/// The description of the driver in use, from its library path and API version.
pub fn selected_icd_info(loaded: &Option<(String, u32)>) -> (r: Option<IcdInfo>)
    ensures
        match loaded {
            None => r is None,
            Some((path, version)) => r matches Some(info) && {
                &&& info.library_path == path
                &&& info.manifest_path is None
                &&& info.api_version == version
                &&& info.is_software == spec_is_software(encode_utf8(path@))
            },
        },
{
    match loaded {
        None => None,
        Some((path, version)) => Some(
            IcdInfo {
                library_path: path.clone(),
                manifest_path: None,
                api_version: *version,
                is_software: is_software_library(path.as_str()),
            },
        ),
    }
}

/// A preferred driver: by library path, or by position in the ranking.
#[derive(Debug, Clone)]
pub enum IcdPreference {
    Path(String),
    Index(usize),
}

/// Prefers the driver whose library is at `path`.
pub fn set_preferred_icd_path(preference: &mut Option<IcdPreference>, path: String)
    ensures
        *final(preference) == Some(IcdPreference::Path(path)),
{
    *preference = Some(IcdPreference::Path(path));
}

/// Prefers the driver at position `index` of the ranking.
pub fn set_preferred_icd_index(preference: &mut Option<IcdPreference>, index: usize)
    ensures
        *final(preference) == Some(IcdPreference::Index(index)),
{
    *preference = Some(IcdPreference::Index(index));
}

/// Drops any preference.
pub fn clear_preferred_icd(preference: &mut Option<IcdPreference>)
    ensures
        *final(preference) is None,
{
    *preference = None;
}

/// A loaded driver, as the ranking sees it.
#[derive(Debug, Clone)]
pub struct IcdCandidate {
    pub library_path: String,
    pub is_software: bool,
    pub is_env_priority: bool,
}

/// The driver loaded from the manifest at position `manifest_index` of the discovered
/// list, whose first `env_icd_count` entries came from `VK_ICD_FILENAMES`.
pub fn icd_candidate(library_path: String, manifest_index: usize, env_icd_count: usize) -> (c: IcdCandidate)
    ensures
        c.library_path == library_path,
        c.is_software == spec_is_software(encode_utf8(library_path@)),
        c.is_env_priority == (manifest_index < env_icd_count),
{
    let is_software = is_software_library(library_path.as_str());
    IcdCandidate { library_path, is_software, is_env_priority: manifest_index < env_icd_count }
}

/// Rank group of a candidate: drivers named in `VK_ICD_FILENAMES` before the others,
/// and within each, hardware before software.
pub open spec fn rank_group(c: IcdCandidate) -> int {
    (if c.is_env_priority { 0int } else { 2int }) + (if c.is_software { 1int } else { 0int })
}

/// Whether some candidate is a hardware driver.
pub open spec fn any_hardware(cands: Seq<IcdCandidate>) -> bool {
    exists|i: int| 0 <= i < cands.len() && !(#[trigger] cands[i]).is_software
}

/// Whether software drivers are left out of the ranking: hardware is preferred and
/// there is some.
pub open spec fn drops_software(cands: Seq<IcdCandidate>, prefer_hardware: bool) -> bool {
    prefer_hardware && any_hardware(cands)
}

/// Positions among the first `n` candidates that are in rank group `g` and kept,
/// in order.
pub open spec fn group_positions(cands: Seq<IcdCandidate>, g: int, drop_software: bool, n: int) -> Seq<usize>
    decreases n,
{
    if n <= 0 {
        Seq::empty()
    } else {
        let c = cands[n - 1];
        group_positions(cands, g, drop_software, n - 1) + if rank_group(c) == g && !(drop_software
            && c.is_software) {
            seq![(n - 1) as usize]
        } else {
            Seq::empty()
        }
    }
}

/// The positions of the ranked candidates, best first: groups in order (a stable sort by
/// group), with software drivers left out when `drops_software`.
pub open spec fn spec_icd_order(cands: Seq<IcdCandidate>, prefer_hardware: bool) -> Seq<usize> {
    let d = drops_software(cands, prefer_hardware);
    let n = cands.len() as int;
    group_positions(cands, 0, d, n) + group_positions(cands, 1, d, n) + group_positions(cands, 2, d, n)
        + group_positions(cands, 3, d, n)
}

/// Positions of candidates of rank group `g` (software left out when `drop_software`).
fn collect_group(cands: &Vec<IcdCandidate>, g: u8, drop_software: bool, order: &mut Vec<usize>)
    requires
        g < 4,
    ensures
        final(order)@ == old(order)@ + group_positions(cands@, g as int, drop_software, cands@.len() as int),
{
    let mut i: usize = 0;
    while i < cands.len()
        invariant
            g < 4,
            0 <= i <= cands@.len(),
            order@ == old(order)@ + group_positions(cands@, g as int, drop_software, i as int),
        decreases cands@.len() - i,
    {
        let c = &cands[i];
        let group: u8 = (if c.is_env_priority { 0u8 } else { 2u8 }) + (if c.is_software { 1u8 } else { 0u8 });
        let ghost before = order@;
        if group == g && !(drop_software && c.is_software) {
            order.push(i);
        }
        proof {
            let gp = group_positions(cands@, g as int, drop_software, i as int + 1);
            assert(cands@[i as int] == *c);
            if group == g && !(drop_software && c.is_software) {
                assert(gp =~= group_positions(cands@, g as int, drop_software, i as int) + seq![i]);
                assert(order@ =~= old(order)@ + gp);
            } else {
                assert(gp =~= group_positions(cands@, g as int, drop_software, i as int));
            }
        }
        i = i + 1;
    }
}

/// The ranking of the loaded drivers (see `spec_icd_order`).
pub fn icd_order(cands: &Vec<IcdCandidate>, prefer_hardware: bool) -> (order: Vec<usize>)
    ensures
        order@ == spec_icd_order(cands@, prefer_hardware),
{
    let mut any_hw = false;
    let mut i: usize = 0;
    while i < cands.len()
        invariant
            0 <= i <= cands@.len(),
            any_hw == exists|k: int| 0 <= k < i && !(#[trigger] cands@[k]).is_software,
        decreases cands@.len() - i,
    {
        if !cands[i].is_software {
            any_hw = true;
        }
        i = i + 1;
    }
    let drop_software = prefer_hardware && any_hw;
    let mut order: Vec<usize> = Vec::new();
    collect_group(cands, 0, drop_software, &mut order);
    collect_group(cands, 1, drop_software, &mut order);
    collect_group(cands, 2, drop_software, &mut order);
    collect_group(cands, 3, drop_software, &mut order);
    proof {
        assert(order@ =~= spec_icd_order(cands@, prefer_hardware));
    }
    order
}

/// What `Path::eq` answers for two paths, given as their text.
pub uninterp spec fn paths_equal(a: Seq<char>, b: Seq<char>) -> bool;

/// Compares two paths with `std::path::Path`'s `==`, which compares them component by
/// component. The contract is trusted: it only names the answer, `paths_equal` of the
/// two texts, and leaves unsaid how components are split and normalised.
#[verifier::external_body]
fn same_path(a: &str, b: &str) -> (r: bool)
    ensures
        r == paths_equal(a@, b@),
{
    std::path::Path::new(a) == std::path::Path::new(b)
}

/// The first position `j >= i` in `order` whose candidate's library path equals `want`.
pub open spec fn first_path_match(cands: Seq<IcdCandidate>, order: Seq<usize>, want: Seq<char>, i: int) -> Option<int>
    decreases order.len() - i,
{
    if i >= order.len() {
        None
    } else if paths_equal(cands[order[i] as int].library_path@, want) {
        Some(i)
    } else {
        first_path_match(cands, order, want, i + 1)
    }
}

/// The position in `order` of the first candidate whose library is at `want`.
pub fn preferred_path_position(cands: &Vec<IcdCandidate>, order: &Vec<usize>, want: &str) -> (r: Option<usize>)
    requires
        forall|j: int| 0 <= j < order@.len() ==> (#[trigger] order@[j]) < cands@.len(),
    ensures
        match first_path_match(cands@, order@, want@, 0) {
            Some(j) => r == Some(j as usize),
            None => r is None,
        },
{
    let mut j: usize = 0;
    while j < order.len()
        invariant
            0 <= j <= order@.len(),
            forall|k: int| 0 <= k < order@.len() ==> (#[trigger] order@[k]) < cands@.len(),
            first_path_match(cands@, order@, want@, 0) == first_path_match(cands@, order@, want@, j as int),
        decreases order@.len() - j,
    {
        let k = order[j];
        if same_path(cands[k].library_path.as_str(), want) {
            return Some(j);
        }
        j = j + 1;
    }
    None
}

/// The candidate picked from a non-empty ranking `order`: the preferred one when the
/// preference names one (by path, the first match `path_match`; by an index inside
/// the ranking), else the best ranked.
pub open spec fn spec_choice(order: Seq<usize>, preference: Option<IcdPreference>, path_match: Option<int>) -> usize {
    match preference {
        Some(IcdPreference::Path(_)) => match path_match {
            Some(j) => order[j],
            None => order[0],
        },
        Some(IcdPreference::Index(i)) => if i < order.len() {
            order[i as int]
        } else {
            order[0]
        },
        None => order[0],
    }
}

/// Picks a candidate from the ranking `order` (see `spec_choice`); an error when no
/// driver could be loaded at all.
pub fn choose_icd(order: &Vec<usize>, preference: &Option<IcdPreference>, path_match: Option<usize>) -> (r: Result<usize, IcdError>)
    requires
        path_match matches Some(j) ==> j < order@.len(),
    ensures
        order@.len() == 0 ==> (r matches Err(IcdError::InvalidManifest(m)) && m@ == "Failed to load any Vulkan ICD"@),
        order@.len() > 0 ==> r == Ok::<usize, IcdError>(
            spec_choice(
                order@,
                *preference,
                match path_match {
                    Some(j) => Some(j as int),
                    None => None,
                },
            ),
        ),
{
    if order.len() == 0 {
        return Err(IcdError::InvalidManifest("Failed to load any Vulkan ICD".to_owned()));
    }
    match preference {
        Some(IcdPreference::Path(_)) => match path_match {
            Some(j) => Ok(order[j]),
            None => Ok(order[0]),
        },
        Some(IcdPreference::Index(i)) => {
            if *i < order.len() {
                Ok(order[*i])
            } else {
                Ok(order[0])
            }
        },
        None => Ok(order[0]),
    }
}

/// The position, in `candidates`, of the driver to use. An error when no manifest was
/// found, or when no driver could be loaded. Otherwise the candidates are ranked by
/// `spec_icd_order` and one is chosen by `spec_choice`, a path preference matching the
/// first ranked candidate whose library path equals it.
pub fn select_icd(
    manifest_count: usize,
    candidates: &Vec<IcdCandidate>,
    prefer_hardware: bool,
    preference: &Option<IcdPreference>,
) -> (r: Result<usize, IcdError>)
    ensures
        manifest_count == 0 ==> r == Err::<usize, IcdError>(IcdError::NoManifestsFound),
        manifest_count > 0 && candidates@.len() == 0 ==> (r matches Err(IcdError::InvalidManifest(m))
            && m@ == "Failed to load any Vulkan ICD"@),
        manifest_count > 0 && candidates@.len() > 0 ==> {
            let order = spec_icd_order(candidates@, prefer_hardware);
            let path_match = match *preference {
                Some(IcdPreference::Path(want)) => first_path_match(candidates@, order, want@, 0),
                _ => None,
            };
            &&& r == Ok::<usize, IcdError>(spec_choice(order, *preference, path_match))
            &&& r matches Ok(k) && k < candidates@.len()
        },
{
    if manifest_count == 0 {
        return Err(IcdError::NoManifestsFound);
    }
    let order = icd_order(candidates, prefer_hardware);
    let candidate_count = candidates.len();
    proof {
        assert(candidate_count == candidates@.len());
        lemma_order_positions(candidates@, prefer_hardware);
        if candidates@.len() > 0 {
            lemma_order_nonempty(candidates@, prefer_hardware);
        }
    }
    let path_match = match preference {
        Some(IcdPreference::Path(want)) => preferred_path_position(candidates, &order, want.as_str()),
        _ => None,
    };
    proof {
        if let Some(IcdPreference::Path(want)) = preference {
            lemma_first_path_match_bound(candidates@, order@, want@, 0);
        }
    }
    choose_icd(&order, preference, path_match)
}

proof fn lemma_first_path_match_bound(cands: Seq<IcdCandidate>, order: Seq<usize>, want: Seq<char>, i: int)
    requires
        0 <= i,
    ensures
        first_path_match(cands, order, want, i) matches Some(j) ==> i <= j < order.len(),
    decreases order.len() - i,
{
    if i < order.len() && !paths_equal(cands[order[i] as int].library_path@, want) {
        lemma_first_path_match_bound(cands, order, want, i + 1);
    }
}

proof fn lemma_group_positions_bound(cands: Seq<IcdCandidate>, g: int, d: bool, n: int)
    requires
        0 <= n <= cands.len() <= usize::MAX,
    ensures
        forall|j: int| 0 <= j < group_positions(cands, g, d, n).len() ==> (#[trigger] group_positions(cands, g, d, n)[j]) < n,
    decreases n,
{
    if n > 0 {
        lemma_group_positions_bound(cands, g, d, n - 1);
        let prev = group_positions(cands, g, d, n - 1);
        let cur = group_positions(cands, g, d, n);
        assert forall|j: int| 0 <= j < cur.len() implies (#[trigger] cur[j]) < n by {
            if j < prev.len() {
                assert(cur[j] == prev[j]);
            }
        }
    }
}

/// Every position in the ranking is a candidate's.
proof fn lemma_order_positions(cands: Seq<IcdCandidate>, prefer_hardware: bool)
    requires
        cands.len() <= usize::MAX,
    ensures
        forall|j: int| 0 <= j < spec_icd_order(cands, prefer_hardware).len() ==> (#[trigger] spec_icd_order(
            cands,
            prefer_hardware,
        )[j]) < cands.len(),
{
    let d = drops_software(cands, prefer_hardware);
    let n = cands.len() as int;
    lemma_group_positions_bound(cands, 0, d, n);
    lemma_group_positions_bound(cands, 1, d, n);
    lemma_group_positions_bound(cands, 2, d, n);
    lemma_group_positions_bound(cands, 3, d, n);
}

/// A kept candidate appears in its group's positions.
proof fn lemma_group_positions_contains(cands: Seq<IcdCandidate>, g: int, d: bool, n: int, k: int)
    requires
        0 <= k < n <= cands.len(),
        rank_group(cands[k]) == g,
        !(d && cands[k].is_software),
    ensures
        group_positions(cands, g, d, n).len() > 0,
    decreases n,
{
    if k < n - 1 {
        lemma_group_positions_contains(cands, g, d, n - 1, k);
    }
}

/// With at least one candidate the ranking is not empty.
proof fn lemma_order_nonempty(cands: Seq<IcdCandidate>, prefer_hardware: bool)
    requires
        cands.len() > 0,
    ensures
        spec_icd_order(cands, prefer_hardware).len() > 0,
{
    let d = drops_software(cands, prefer_hardware);
    let n = cands.len() as int;
    let k = if d {
        choose|i: int| 0 <= i < cands.len() && !(#[trigger] cands[i]).is_software
    } else {
        0
    };
    let g = rank_group(cands[k]);
    lemma_group_positions_contains(cands, g, d, n, k);
}

proof fn lemma_group_positions_props(cands: Seq<IcdCandidate>, g: int, d: bool, n: int)
    requires
        0 <= n <= cands.len() <= usize::MAX,
    ensures
        forall|j: int|
            0 <= j < group_positions(cands, g, d, n).len() ==> {
                let k = #[trigger] group_positions(cands, g, d, n)[j];
                &&& k < n
                &&& rank_group(cands[k as int]) == g
                &&& !(d && cands[k as int].is_software)
            },
        forall|j1: int, j2: int|
            0 <= j1 < j2 < group_positions(cands, g, d, n).len() ==> #[trigger] group_positions(
                cands,
                g,
                d,
                n,
            )[j1] < #[trigger] group_positions(cands, g, d, n)[j2],
        forall|k: int|
            0 <= k < n && rank_group(#[trigger] cands[k]) == g && !(d && cands[k].is_software)
                ==> group_positions(cands, g, d, n).contains(k as usize),
    decreases n,
{
    if n > 0 {
        lemma_group_positions_props(cands, g, d, n - 1);
        let prev = group_positions(cands, g, d, n - 1);
        let cur = group_positions(cands, g, d, n);
        assert forall|j: int| 0 <= j < prev.len() implies cur[j] == prev[j] by {}
        assert forall|k: int|
            0 <= k < n && rank_group(#[trigger] cands[k]) == g && !(d && cands[k].is_software)
                implies cur.contains(k as usize) by {
            if k < n - 1 {
                let j = choose|j: int| 0 <= j < prev.len() && prev[j] == k as usize;
                assert(cur[j] == k as usize);
            } else {
                assert(cur[prev.len() as int] == k as usize);
            }
        }
    }
}

/// The ranking puts drivers named in `VK_ICD_FILENAMES` first and hardware before
/// software within each, and otherwise keeps the discovered order.
pub proof fn lemma_ranking_sorted(cands: Seq<IcdCandidate>, prefer_hardware: bool)
    requires
        cands.len() <= usize::MAX,
    ensures
        ({
            let order = spec_icd_order(cands, prefer_hardware);
            forall|j1: int, j2: int|
                0 <= j1 < j2 < order.len() ==> {
                    let a = #[trigger] order[j1];
                    let b = #[trigger] order[j2];
                    ||| rank_group(cands[a as int]) < rank_group(cands[b as int])
                    ||| (rank_group(cands[a as int]) == rank_group(cands[b as int]) && a < b)
                }
        }),
{
    let d = drops_software(cands, prefer_hardware);
    let n = cands.len() as int;
    let g0 = group_positions(cands, 0, d, n);
    let g1 = group_positions(cands, 1, d, n);
    let g2 = group_positions(cands, 2, d, n);
    let g3 = group_positions(cands, 3, d, n);
    lemma_group_positions_props(cands, 0, d, n);
    lemma_group_positions_props(cands, 1, d, n);
    lemma_group_positions_props(cands, 2, d, n);
    lemma_group_positions_props(cands, 3, d, n);
    let order = spec_icd_order(cands, prefer_hardware);
    let o1 = g0.len() as int;
    let o2 = o1 + g1.len();
    let o3 = o2 + g2.len();
    assert forall|j: int| 0 <= j < order.len() implies {
        &&& (j < o1 ==> order[j] == g0[j] && rank_group(cands[order[j] as int]) == 0)
        &&& (o1 <= j < o2 ==> order[j] == g1[j - o1] && rank_group(cands[order[j] as int]) == 1)
        &&& (o2 <= j < o3 ==> order[j] == g2[j - o2] && rank_group(cands[order[j] as int]) == 2)
        &&& (o3 <= j ==> order[j] == g3[j - o3] && rank_group(cands[order[j] as int]) == 3)
    } by {
        if j < o1 {
            assert(order[j] == g0[j]);
        } else if j < o2 {
            assert(order[j] == g1[j - o1]);
        } else if j < o3 {
            assert(order[j] == g2[j - o2]);
        } else {
            assert(order[j] == g3[j - o3]);
        }
    }
    assert forall|j1: int, j2: int| 0 <= j1 < j2 < order.len() implies {
        let a = #[trigger] order[j1];
        let b = #[trigger] order[j2];
        ||| rank_group(cands[a as int]) < rank_group(cands[b as int])
        ||| (rank_group(cands[a as int]) == rank_group(cands[b as int]) && a < b)
    } by {
        if j2 < o1 {
            assert(g0[j1] < g0[j2]);
        } else if o1 <= j1 && j2 < o2 {
            assert(g1[j1 - o1] < g1[j2 - o1]);
        } else if o2 <= j1 && j2 < o3 {
            assert(g2[j1 - o2] < g2[j2 - o2]);
        } else if o3 <= j1 {
            assert(g3[j1 - o3] < g3[j2 - o3]);
        }
    }
}

/// A loaded driver is in the ranking unless it is software and hardware is preferred
/// and some driver is hardware.
pub proof fn lemma_ranking_complete(cands: Seq<IcdCandidate>, prefer_hardware: bool, k: int)
    requires
        cands.len() <= usize::MAX,
        0 <= k < cands.len(),
    ensures
        spec_icd_order(cands, prefer_hardware).contains(k as usize) <==> !(drops_software(cands, prefer_hardware)
            && cands[k].is_software),
{
    let d = drops_software(cands, prefer_hardware);
    let n = cands.len() as int;
    let g0 = group_positions(cands, 0, d, n);
    let g1 = group_positions(cands, 1, d, n);
    let g2 = group_positions(cands, 2, d, n);
    let g3 = group_positions(cands, 3, d, n);
    lemma_group_positions_props(cands, 0, d, n);
    lemma_group_positions_props(cands, 1, d, n);
    lemma_group_positions_props(cands, 2, d, n);
    lemma_group_positions_props(cands, 3, d, n);
    let order = spec_icd_order(cands, prefer_hardware);
    let o1 = g0.len() as int;
    let o2 = o1 + g1.len();
    let o3 = o2 + g2.len();
    let g = rank_group(cands[k]);
    if !(d && cands[k].is_software) {
        let gp = group_positions(cands, g, d, n);
        assert(gp.contains(k as usize));
        let j = choose|j: int| 0 <= j < gp.len() && gp[j] == k as usize;
        if g == 0 {
            assert(order[j] == k as usize);
        } else if g == 1 {
            assert(order[o1 + j] == k as usize);
        } else if g == 2 {
            assert(order[o2 + j] == k as usize);
        } else {
            assert(order[o3 + j] == k as usize);
        }
    } else {
        if order.contains(k as usize) {
            let j = choose|j: int| 0 <= j < order.len() && order[j] == k as usize;
            if j < o1 {
                assert(order[j] == g0[j]);
            } else if j < o2 {
                assert(order[j] == g1[j - o1]);
            } else if j < o3 {
                assert(order[j] == g2[j - o2]);
            } else {
                assert(order[j] == g3[j - o3]);
            }
        }
    }
}

} // verus!
