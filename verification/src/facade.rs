use crate::lifecycle::{create_step, FacadeState};
use vstd::prelude::*;

verus! {

/// Owner of one foreign allocator handle for its whole lifetime.
///
/// A facade is only ever constructed around a non-null handle, never clones
/// it, and gives it up exactly once through [`MPSAllocatorWrapper::release`],
/// which consumes the facade; after that no operation on it can be written.
/// The buffer and watermark queries translate the native runtime's sentinel
/// answers (negative numbers, zero/non-zero flags) into typed results, so no
/// sentinel leaks past this layer.
pub struct MPSAllocatorWrapper {
    handle: usize,
}

impl MPSAllocatorWrapper {
    /// The raw handle value this facade owns.
    pub closed spec fn handle_id(self) -> usize {
        self.handle
    }

    /// A facade is well formed when its handle is non-null.
    pub open spec fn wf(self) -> bool {
        self.handle_id() != 0
    }

    /// Wraps the handle the native runtime answered a creation request with.
    /// A null handle means the backend is unavailable, a normal outcome that
    /// yields no facade; any other value yields a live facade owning it.
    pub fn new(raw_handle: usize) -> (r: Option<Self>)
        ensures
            r is Some <==> create_step(raw_handle) is Live,
            r matches Some(w) ==> w.wf() && (create_step(raw_handle) == (FacadeState::Live {
                handle: w.handle_id(),
            })),
    {
        if raw_handle == 0 {
            None
        } else {
            Some(MPSAllocatorWrapper { handle: raw_handle })
        }
    }

    /// The owned handle, for passing to a native query about this allocator.
    pub fn handle(&self) -> (h: usize)
        ensures
            h == self.handle_id(),
    {
        self.handle
    }

    /// Gives the handle up for its one native release. Consumes the facade,
    /// so no further operation, and in particular no second release, can be
    /// expressed on it.
    pub fn release(self) -> (h: usize)
        ensures
            h == self.handle_id(),
    {
        self.handle
    }

    /// Translates the native answer to an unaligned-buffer-size query:
    /// a negative size is the sentinel for an address this allocator does
    /// not track, and any non-negative size is returned as is.
    pub fn get_unaligned_buffer_size(&self, raw_size: isize) -> (r: Option<isize>)
        ensures
            raw_size < 0 ==> r is None,
            raw_size >= 0 ==> r == Some(raw_size),
    {
        if raw_size < 0 {
            None
        } else {
            Some(raw_size)
        }
    }

    /// Translates the native answer to a buffer-identifier query: a negative
    /// identifier is the sentinel for an untracked address, and any
    /// non-negative identifier is returned as is.
    pub fn get_buffer_id(&self, raw_id: i64) -> (r: Option<i64>)
        ensures
            raw_id < 0 ==> r is None,
            raw_id >= 0 ==> r == Some(raw_id),
    {
        if raw_id < 0 {
            None
        } else {
            Some(raw_id)
        }
    }

    /// Translates the native answer to the low-watermark-value query: a
    /// negative value is the sentinel for "not currently meaningful", and any
    /// non-negative value is returned as is.
    pub fn get_low_watermark_value(&self, raw_value: isize) -> (r: Option<isize>)
        ensures
            raw_value < 0 ==> r is None,
            raw_value >= 0 ==> r == Some(raw_value),
    {
        if raw_value < 0 {
            None
        } else {
            Some(raw_value)
        }
    }

    /// Translates the native boolean-as-integer answer to the shared-buffer
    /// query: exactly the non-zero answers mean the buffer lives in the
    /// shared host/device pool.
    pub fn is_shared_buffer(&self, raw_flag: i32) -> (r: bool)
        ensures
            r == (raw_flag != 0),
    {
        raw_flag != 0
    }

    /// Translates the native boolean-as-integer answer to the
    /// shared-storage-capability query: exactly the non-zero answers mean
    /// shared storage is supported.
    pub fn is_shared_storage_supported(&self, raw_flag: i32) -> (r: bool)
        ensures
            r == (raw_flag != 0),
    {
        raw_flag != 0
    }
}

/// Convenience form of [`MPSAllocatorWrapper::new`].
pub fn get_mps_allocator(raw_handle: usize) -> (r: Option<MPSAllocatorWrapper>)
    ensures
        r is Some <==> create_step(raw_handle) is Live,
        r matches Some(w) ==> w.wf() && w.handle_id() == raw_handle,
{
    MPSAllocatorWrapper::new(raw_handle)
}

/// Decides the convenience cache-empty entry point: the native cache release
/// is to be issued exactly when the creation request yielded a live facade,
/// and skipped entirely when it did not.
pub fn empty_mps_cache(raw_handle: usize) -> (r: bool)
    ensures
        r == (create_step(raw_handle) is Live),
{
    raw_handle != 0
}

/// Whether the backend is available: exactly the creation outcomes that
/// yield a live facade count as available.
pub fn is_mps_available(raw_handle: usize) -> (r: bool)
    ensures
        r == (create_step(raw_handle) is Live),
{
    raw_handle != 0
}

} // verus!
