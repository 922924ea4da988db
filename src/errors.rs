use vstd::prelude::*;

verus! {

/// When a lower bound is not acceptable; it holds the rejected bound.
#[derive(Debug, Clone, Copy, PartialEq, Eq, PartialOrd, Ord, Hash)]
pub struct InvalidLowerBound<T>(pub T);

} // verus!
