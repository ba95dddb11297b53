use vstd::prelude::*;

verus! {

/// You cannot implement this trait. That is the point.
pub trait Sealed {

}

} // verus!
