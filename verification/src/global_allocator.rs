//! The bootstrap-time allocator's size arithmetic.
//!
//! The runtime needs an allocator that depends on no library, because
//! allocation may be wanted before runtime linking finishes: it serves
//! every request straight from anonymous mappings. The mapping syscalls
//! live outside the model; here is the arithmetic that turns a layout
//! request into the size handed to the kernel, and the once-set page-size
//! cell as an explicit value.

use vstd::prelude::*;
use crate::linux::page_size::{spec_is_power_of_two, spec_round_up};
use crate::static_pie::round_up_to_boundary;

verus! {

/// The largest alignment a request may ask for.
pub const MAX_SUPPORTED_ALIGN: u64 = 4096;

/// The allocator's state: the page size it was initialized with, zero
/// until then.
pub struct Allocator {
    /// The page size, or zero before initialization.
    pub page_size: u64,
    /// The per-thread cache.
    pub thread_cache: ThreadCache,
}

impl Allocator {
    /// An allocator that does not know the page size yet.
    pub fn new() -> (r: Allocator)
        ensures
            r.page_size == 0,
    {
        Allocator { page_size: 0, thread_cache: ThreadCache::new() }
    }

    /// Records the page size, once.
    pub fn initialize(&mut self, page_size: u64)
        requires
            old(self).page_size == 0,
        ensures
            final(self).page_size == page_size,
    {
        self.page_size = page_size;
    }

    /// The size an anonymous mapping must have to serve a layout of
    /// `size` bytes aligned to `align`: the size rounded up to the
    /// larger of the requested alignment and the page size.
    pub fn align_layout_to_page_size(&self, size: u64, align: u64) -> (r: u64)
        requires
            spec_is_power_of_two(align),
            spec_is_power_of_two(self.page_size),
            size + (if align > self.page_size {
                align
            } else {
                self.page_size
            }) - 1 <= u64::MAX,
        ensures
            r == spec_round_up(
                size as int,
                (if align > self.page_size {
                    align as int
                } else {
                    self.page_size as int
                }),
            ),
    {
        let boundary = if align > self.page_size {
            align
        } else {
            self.page_size
        };
        round_up_to_boundary(size, boundary)
    }
}

/// The allocator's per-thread cache. It holds nothing yet; it exists so
/// the allocator's layout does not change when caching arrives.
pub struct ThreadCache {}

impl ThreadCache {
    /// An empty cache.
    pub fn new() -> (r: ThreadCache) {
        ThreadCache {  }
    }
}

} // verus!
