//! Which memory orders an operation takes.

use core::sync::atomic::Ordering;
use vstd::prelude::*;

verus! {

/// The orders of a load: `Relaxed`, `Acquire` and `SeqCst`. They are also the
/// orders that the failure of a compare-and-exchange can have.
pub open spec fn load_order(order: Ordering) -> bool {
    order is Relaxed || order is Acquire || order is SeqCst
}

/// The orders of a store: `Relaxed`, `Release` and `SeqCst`.
pub open spec fn store_order(order: Ordering) -> bool {
    order is Relaxed || order is Release || order is SeqCst
}

} // verus!
