//! The shared counter behind the part allocator.

use std::sync::atomic::AtomicU32;
use std::sync::atomic::Ordering;
use vstd::prelude::*;

verus! {

/// Adds one to the counter and returns the value it had. No order is asked
/// between workers beyond the counter's own: every value comes out once.
pub(crate) fn take_ticket(counter: &AtomicU32) -> u32 {
    counter.fetch_add(1, Ordering::Relaxed)
}

} // verus!
