//! A validated pair of interval endpoints.

use crate::order::lt_spec;
use core::cmp::Ordering;
use vstd::prelude::*;
use vstd::std_specs::cmp::PartialOrdSpec;

verus! {

/// A `BoundPair` represents valid left and right interval bounds.
///
/// For intervals with finite bounds, constructing a `BoundPair` through
/// [`BoundPair::new`] establishes well-formed left and right bounds
/// (`left < right`) before an `Interval` variant is built around them.
#[derive(Debug, Copy, Clone, PartialEq)]
pub struct BoundPair<T> {
    pub(crate) left: T,
    pub(crate) right: T,
}

impl<T: Copy + PartialOrd> BoundPair<T> {
    /// The left endpoint, as specifications see it.
    pub open(crate) spec fn spec_left(self) -> T {
        self.left
    }

    /// The right endpoint, as specifications see it.
    pub open(crate) spec fn spec_right(self) -> T {
        self.right
    }

    /// Well-formed: the left endpoint sorts strictly below the right one.
    pub open spec fn wf(self) -> bool {
        lt_spec(self.spec_left(), self.spec_right())
    }

    /// Create a new bound pair from a lower and an upper bound.
    ///
    /// Yields a value exactly when `left` sorts strictly below `right`;
    /// a non-increasing or incomparable pair yields `None`.  This is the
    /// only way to construct a `BoundPair`, so every value of the type
    /// that a well-behaved domain can observe satisfies [`BoundPair::wf`].
    pub fn new(left: T, right: T) -> (r: Option<BoundPair<T>>)
        ensures
            T::obeys_partial_cmp_spec() ==> ((r is Some) <==> lt_spec(left, right)),
            r matches Some(bp) ==> bp.spec_left() == left && bp.spec_right() == right,
            T::obeys_partial_cmp_spec() && r is Some ==> r.unwrap().wf(),
    {
        match left.partial_cmp(&right) {
            Some(Ordering::Less) => Some(BoundPair { left, right }),
            _ => None,
        }
    }

    /// Fetch an immutable reference to the left bound.
    pub fn left(&self) -> (r: &T)
        ensures
            *r == self.spec_left(),
    {
        &self.left
    }

    /// Fetch an immutable reference to the right bound.
    pub fn right(&self) -> (r: &T)
        ensures
            *r == self.spec_right(),
    {
        &self.right
    }
}

} // verus!
