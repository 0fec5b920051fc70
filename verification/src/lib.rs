//! A safe facade over a foreign, process-global GPU memory allocator.
//!
//! The native runtime hands out an opaque allocator handle and answers
//! queries with in-band sentinels: a null handle means "no backend
//! available", a negative size or identifier means "not tracked". This
//! library holds every decision made on those answers: translating
//! sentinels into typed optional results, owning a handle for exactly the
//! lifetime of one facade and admitting exactly one release of it, and
//! assembling and rendering a point-in-time statistics snapshot. The
//! foreign calls themselves, which only produce the raw values consumed
//! here, live outside the library.

pub mod facade;
pub mod lifecycle;
pub mod stats;

pub use facade::{empty_mps_cache, get_mps_allocator, is_mps_available, MPSAllocatorWrapper};
pub use lifecycle::{
    create_step, destroy_step, lemma_no_handle_never_released, lemma_release_exactly_once,
    releases_after, FacadeState,
};
pub use stats::{lemma_stats_mirror_create, mps_memory_stats, spec_memory_stats, MPSMemoryStats};
