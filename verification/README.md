# kronos_compute

Kronos is a compute-only subset of the Vulkan API. This crate is its verified
core, written in Verus: every function in `src/` carries a contract that Verus
proves.

## Layout

- `src/sys.rs`, `flags.rs`, `enums.rs`, `structs.rs`, `error.rs`: handles, flag
  sets (with their bit algebra), enumerations with their C numbers, plain
  structures and error types.
- `src/pool_allocator.rs`: the three-pool memory allocator (device-local,
  host-visible coherent, host-visible cached) with slabs of 256 MiB (settable), each request
  taking a power-of-two block first-fit; the driver memory a new slab needs is
  asked for and handed in.
- `src/timeline_batching.rs`: per-queue timeline semaphores and batched
  submissions; submitting yields a plan for the driver.
- `src/barrier_policy.rs`: vendor-tuned barrier stages and masks, and the
  barrier tracker that elides redundant barriers.
- `src/persistent_descriptors.rs`: the set-0 descriptor cache keyed by device
  and buffers, and the push constant ranges.
- `src/icd_loader.rs`: driver manifest checks, version parsing, the trust
  policy for driver libraries and the ranking and choice of drivers.
- `src/virtual_device.rs`: the registries of the virtual compute device that
  answers the API when no driver does.
- `src/api.rs`: the checks and plans behind the safe compute API.
- `app/`: the runtime around the library: C entry points, the dynamic loader,
  the process-wide state and the safe API types.
- `tests/`: tests of the library.
