//! The interval taxonomy and its algebra of set-like operations.

use crate::bound_pair::BoundPair;
use crate::order::ge_spec;
use crate::order::gt_spec;
use crate::order::le_spec;
use crate::order::lt_spec;
use core::cmp::Ordering;
use vstd::prelude::*;
use vstd::std_specs::cmp::PartialEqSpec;
use vstd::std_specs::cmp::PartialOrdSpec;
use vstd::std_specs::ops::SubSpec;

verus! {

/// Interval enum capable of general interval representation.
///
/// Where applicable, using lower bound `a` and upper bound `b`:
///
/// * `Closed` -> `[a, b]`
/// * `Open` -> `(a, b)`
/// * `LeftHalfOpen` -> `(a, b]`
/// * `RightHalfOpen` -> `[a, b)`
/// * `UnboundedClosedRight` -> `(-inf, a]`
/// * `UnboundedOpenRight` -> `(-inf, a)`
/// * `UnboundedClosedLeft` -> `[a, inf)`
/// * `UnboundedOpenLeft` -> `(a, inf)`
/// * `Singleton` -> `[a]`
/// * `Unbounded` -> `(-inf, inf)`
/// * `Empty`
#[derive(Debug, Copy, Clone, PartialEq)]
pub enum Interval<T> {
    Closed { bound_pair: BoundPair<T> },
    Open { bound_pair: BoundPair<T> },
    LeftHalfOpen { bound_pair: BoundPair<T> },
    RightHalfOpen { bound_pair: BoundPair<T> },
    UnboundedClosedRight { right: T },
    UnboundedOpenRight { right: T },
    UnboundedClosedLeft { left: T },
    UnboundedOpenLeft { left: T },
    Singleton { at: T },
    Unbounded,
    Empty,
}

/// The normalized classification of one side of an interval: absent (the
/// side of `Empty`), unbounded, or bounded with an open or closed endpoint.
/// It reduces the eleven interval shapes to four bound kinds per side, so
/// the operations need only reason about pairs of bound kinds.
#[derive(Debug, Copy, Clone, PartialEq)]
pub enum Bound<T> {
    Absent,
    Unbounded,
    Open(T),
    Closed(T),
}

/// One or two intervals, as produced by [`Interval::complement`]: the
/// complement of a two-sided interval is two unbounded-sided pieces, while
/// every other shape complements into a single interval.
#[derive(Debug, Copy, Clone, PartialEq)]
pub enum Complement<T> {
    One(Interval<T>),
    Two(Interval<T>, Interval<T>),
}

/// Is the bound finite, that is, an `Open` or `Closed` endpoint?
pub open spec fn bound_finite<T>(b: Bound<T>) -> bool {
    match b {
        Bound::Open(_) => true,
        Bound::Closed(_) => true,
        _ => false,
    }
}

/// Does a left bound `sb` admit every point that the left bound `ob`
/// admits?  `Bound::Absent` (the `Empty` side) admits nothing but is below
/// every other left bound; a closed bound extends at least as far left as
/// an equal open bound, so an open bound only dominates a closed one when
/// strictly less.
pub open spec fn left_bound_contains<T: PartialOrd>(sb: Bound<T>, ob: Bound<T>) -> bool {
    match (sb, ob) {
        (Bound::Absent, _) => false,
        (_, Bound::Absent) => true,
        (Bound::Unbounded, _) => true,
        (_, Bound::Unbounded) => false,
        (Bound::Closed(s), Bound::Closed(o)) => le_spec(s, o),
        (Bound::Closed(s), Bound::Open(o)) => le_spec(s, o),
        (Bound::Open(s), Bound::Open(o)) => le_spec(s, o),
        (Bound::Open(s), Bound::Closed(o)) => lt_spec(s, o),
    }
}

/// The right-side mirror of [`left_bound_contains`].  Unlike the left
/// table, a `Bound::Absent` on either side yields `false`, so no interval
/// contains `Empty` and `Empty` contains nothing.
pub open spec fn right_bound_contains<T: PartialOrd>(sb: Bound<T>, ob: Bound<T>) -> bool {
    match (sb, ob) {
        (Bound::Absent, _) => false,
        (_, Bound::Absent) => false,
        (Bound::Unbounded, _) => true,
        (_, Bound::Unbounded) => false,
        (Bound::Closed(s), Bound::Closed(o)) => ge_spec(s, o),
        (Bound::Closed(s), Bound::Open(o)) => ge_spec(s, o),
        (Bound::Open(s), Bound::Open(o)) => ge_spec(s, o),
        (Bound::Open(s), Bound::Closed(o)) => gt_spec(s, o),
    }
}

/// Three-way comparison of two left bounds.  `Bound::Absent` does not take
/// part in the bound algebra, so it compares to nothing; `Unbounded` sorts
/// below every finite left bound; a closed bound at a value sorts before
/// an open bound at the same value, since it reaches further left.
pub open spec fn left_bound_cmp<T: PartialOrd>(sb: Bound<T>, ob: Bound<T>) -> Option<Ordering> {
    match (sb, ob) {
        (Bound::Absent, _) => None,
        (_, Bound::Absent) => None,
        (Bound::Unbounded, Bound::Unbounded) => Some(Ordering::Equal),
        (Bound::Unbounded, _) => Some(Ordering::Less),
        (_, Bound::Unbounded) => Some(Ordering::Greater),
        (Bound::Closed(s), Bound::Closed(o)) => if lt_spec(s, o) {
            Some(Ordering::Less)
        } else if gt_spec(s, o) {
            Some(Ordering::Greater)
        } else {
            Some(Ordering::Equal)
        },
        (Bound::Closed(s), Bound::Open(o)) => if le_spec(s, o) {
            Some(Ordering::Less)
        } else {
            Some(Ordering::Greater)
        },
        (Bound::Open(s), Bound::Closed(o)) => if lt_spec(s, o) {
            Some(Ordering::Less)
        } else {
            Some(Ordering::Greater)
        },
        (Bound::Open(s), Bound::Open(o)) => if lt_spec(s, o) {
            Some(Ordering::Less)
        } else if gt_spec(s, o) {
            Some(Ordering::Greater)
        } else {
            Some(Ordering::Equal)
        },
    }
}

/// Three-way comparison of two right bounds: the mirror of
/// [`left_bound_cmp`], with `Unbounded` sorting above every finite right
/// bound and an open bound at a value sorting before a closed bound at the
/// same value, since it stops short of it.
pub open spec fn right_bound_cmp<T: PartialOrd>(sb: Bound<T>, ob: Bound<T>) -> Option<Ordering> {
    match (sb, ob) {
        (Bound::Absent, _) => None,
        (_, Bound::Absent) => None,
        (Bound::Unbounded, Bound::Unbounded) => Some(Ordering::Equal),
        (Bound::Unbounded, _) => Some(Ordering::Greater),
        (_, Bound::Unbounded) => Some(Ordering::Less),
        (Bound::Closed(s), Bound::Closed(o)) => if lt_spec(s, o) {
            Some(Ordering::Less)
        } else if gt_spec(s, o) {
            Some(Ordering::Greater)
        } else {
            Some(Ordering::Equal)
        },
        (Bound::Closed(s), Bound::Open(o)) => if lt_spec(s, o) {
            Some(Ordering::Less)
        } else {
            Some(Ordering::Greater)
        },
        (Bound::Open(s), Bound::Closed(o)) => if le_spec(s, o) {
            Some(Ordering::Less)
        } else {
            Some(Ordering::Greater)
        },
        (Bound::Open(s), Bound::Open(o)) => if lt_spec(s, o) {
            Some(Ordering::Less)
        } else if gt_spec(s, o) {
            Some(Ordering::Greater)
        } else {
            Some(Ordering::Equal)
        },
    }
}

/// Does the left bound `b` admit the point `x`?
pub open spec fn left_bound_admits<T: PartialOrd>(b: Bound<T>, x: T) -> bool {
    match b {
        Bound::Absent => false,
        Bound::Unbounded => true,
        Bound::Closed(a) => le_spec(a, x),
        Bound::Open(a) => lt_spec(a, x),
    }
}

/// Does the right bound `b` admit the point `x`?
pub open spec fn right_bound_admits<T: PartialOrd>(b: Bound<T>, x: T) -> bool {
    match b {
        Bound::Absent => false,
        Bound::Unbounded => true,
        Bound::Closed(a) => ge_spec(a, x),
        Bound::Open(a) => gt_spec(a, x),
    }
}

/// Reassemble a (left bound, right bound) pair into the interval variant
/// with exactly those bounds, normalizing away degenerate shapes: a closed
/// pair of equal endpoints collapses to `Singleton` rather than violating
/// the `BoundPair` invariant, and any pair that admits no points at all
/// becomes `Empty`.
pub open(crate) spec fn interval_of_bounds<T: Copy + PartialOrd>(
    lb: Bound<T>,
    rb: Bound<T>,
) -> Interval<T> {
    match (lb, rb) {
        (Bound::Absent, _) => Interval::Empty,
        (_, Bound::Absent) => Interval::Empty,
        (Bound::Closed(l), Bound::Closed(r)) => if gt_spec(l, r) {
            Interval::Empty
        } else if l.eq_spec(&r) {
            Interval::Singleton { at: l }
        } else {
            Interval::Closed { bound_pair: BoundPair { left: l, right: r } }
        },
        (Bound::Open(l), Bound::Open(r)) => if ge_spec(l, r) {
            Interval::Empty
        } else {
            Interval::Open { bound_pair: BoundPair { left: l, right: r } }
        },
        (Bound::Open(l), Bound::Closed(r)) => if ge_spec(l, r) {
            Interval::Empty
        } else {
            Interval::LeftHalfOpen { bound_pair: BoundPair { left: l, right: r } }
        },
        (Bound::Closed(l), Bound::Open(r)) => if ge_spec(l, r) {
            Interval::Empty
        } else {
            Interval::RightHalfOpen { bound_pair: BoundPair { left: l, right: r } }
        },
        (Bound::Unbounded, Bound::Closed(r)) => Interval::UnboundedClosedRight { right: r },
        (Bound::Unbounded, Bound::Open(r)) => Interval::UnboundedOpenRight { right: r },
        (Bound::Closed(l), Bound::Unbounded) => Interval::UnboundedClosedLeft { left: l },
        (Bound::Open(l), Bound::Unbounded) => Interval::UnboundedOpenLeft { left: l },
        (Bound::Unbounded, Bound::Unbounded) => Interval::Unbounded,
    }
}

impl<T: Copy + PartialOrd> Interval<T> {
    /// The normalized left bound of each shape, as specifications see it.
    pub open spec fn left_bound_spec(self) -> Bound<T> {
        match self {
            Interval::Empty => Bound::Absent,
            Interval::Singleton { at } => Bound::Closed(at),
            Interval::Unbounded => Bound::Unbounded,
            Interval::UnboundedClosedRight { .. } => Bound::Unbounded,
            Interval::UnboundedOpenRight { .. } => Bound::Unbounded,
            Interval::Closed { bound_pair } => Bound::Closed(bound_pair.spec_left()),
            Interval::RightHalfOpen { bound_pair } => Bound::Closed(bound_pair.spec_left()),
            Interval::UnboundedClosedLeft { left } => Bound::Closed(left),
            Interval::Open { bound_pair } => Bound::Open(bound_pair.spec_left()),
            Interval::LeftHalfOpen { bound_pair } => Bound::Open(bound_pair.spec_left()),
            Interval::UnboundedOpenLeft { left } => Bound::Open(left),
        }
    }

    /// The normalized right bound of each shape, as specifications see it.
    pub open spec fn right_bound_spec(self) -> Bound<T> {
        match self {
            Interval::Empty => Bound::Absent,
            Interval::Singleton { at } => Bound::Closed(at),
            Interval::Unbounded => Bound::Unbounded,
            Interval::UnboundedClosedLeft { .. } => Bound::Unbounded,
            Interval::UnboundedOpenLeft { .. } => Bound::Unbounded,
            Interval::Closed { bound_pair } => Bound::Closed(bound_pair.spec_right()),
            Interval::LeftHalfOpen { bound_pair } => Bound::Closed(bound_pair.spec_right()),
            Interval::UnboundedClosedRight { right } => Bound::Closed(right),
            Interval::Open { bound_pair } => Bound::Open(bound_pair.spec_right()),
            Interval::RightHalfOpen { bound_pair } => Bound::Open(bound_pair.spec_right()),
            Interval::UnboundedOpenRight { right } => Bound::Open(right),
        }
    }

    /// Well-formed: any finite two-sided shape wraps a well-formed
    /// `BoundPair`.  Every interval built from the public constructors
    /// satisfies this on a domain whose comparison obeys its
    /// specification, since `BoundPair::new` is the only way to obtain a
    /// pair.
    pub open spec fn wf(self) -> bool {
        match self {
            Interval::Closed { bound_pair } => bound_pair.wf(),
            Interval::Open { bound_pair } => bound_pair.wf(),
            Interval::LeftHalfOpen { bound_pair } => bound_pair.wf(),
            Interval::RightHalfOpen { bound_pair } => bound_pair.wf(),
            _ => true,
        }
    }

    /// What `contains` returns: the left bound reaches at least as far
    /// left as `other`'s and the right bound at least as far right, under
    /// the per-side tables above.
    pub open spec fn contains_spec(self, other: Interval<T>) -> bool {
        left_bound_contains(self.left_bound_spec(), other.left_bound_spec())
            && right_bound_contains(self.right_bound_spec(), other.right_bound_spec())
    }

    /// Does the interval admit the point `x`?  This is the set the
    /// interval stands for, one point at a time; the laws relate
    /// `contains`, `intersect` and `complement` to it.
    pub open spec fn contains_point(self, x: T) -> bool {
        left_bound_admits(self.left_bound_spec(), x) && right_bound_admits(
            self.right_bound_spec(),
            x,
        )
    }

    /// What `left_partial_cmp` returns.
    pub open spec fn left_cmp_spec(self, other: Interval<T>) -> Option<Ordering> {
        left_bound_cmp(self.left_bound_spec(), other.left_bound_spec())
    }

    /// What `right_partial_cmp` returns.
    pub open spec fn right_cmp_spec(self, other: Interval<T>) -> Option<Ordering> {
        right_bound_cmp(self.right_bound_spec(), other.right_bound_spec())
    }

    /// What `intersect` returns: `Empty` when either side fails to
    /// compare (in particular when either operand is `Empty`), else the
    /// more restrictive bound on each side, reassembled into a concrete
    /// variant by [`interval_of_bounds`].
    pub open spec fn intersect_spec(self, other: Interval<T>) -> Interval<T> {
        let lc = self.left_cmp_spec(other);
        let rc = self.right_cmp_spec(other);
        if lc is None || rc is None {
            Interval::Empty
        } else {
            let lb = match lc {
                Some(Ordering::Less) => other.left_bound_spec(),
                _ => self.left_bound_spec(),
            };
            let rb = match rc {
                Some(Ordering::Greater) => other.right_bound_spec(),
                _ => self.right_bound_spec(),
            };
            interval_of_bounds(lb, rb)
        }
    }

    /// What `complement` returns, per the fixed table of shapes.
    pub open spec fn complement_spec(self) -> Complement<T> {
        match self {
            Interval::Closed { bound_pair } => Complement::Two(
                Interval::UnboundedOpenRight { right: bound_pair.spec_left() },
                Interval::UnboundedOpenLeft { left: bound_pair.spec_right() },
            ),
            Interval::Open { bound_pair } => Complement::Two(
                Interval::UnboundedClosedRight { right: bound_pair.spec_left() },
                Interval::UnboundedClosedLeft { left: bound_pair.spec_right() },
            ),
            Interval::LeftHalfOpen { bound_pair } => Complement::Two(
                Interval::UnboundedClosedRight { right: bound_pair.spec_left() },
                Interval::UnboundedOpenLeft { left: bound_pair.spec_right() },
            ),
            Interval::RightHalfOpen { bound_pair } => Complement::Two(
                Interval::UnboundedOpenRight { right: bound_pair.spec_left() },
                Interval::UnboundedClosedLeft { left: bound_pair.spec_right() },
            ),
            Interval::UnboundedClosedRight { right } => Complement::One(
                Interval::UnboundedOpenLeft { left: right },
            ),
            Interval::UnboundedOpenRight { right } => Complement::One(
                Interval::UnboundedClosedLeft { left: right },
            ),
            Interval::UnboundedClosedLeft { left } => Complement::One(
                Interval::UnboundedOpenRight { right: left },
            ),
            Interval::UnboundedOpenLeft { left } => Complement::One(
                Interval::UnboundedClosedRight { right: left },
            ),
            Interval::Singleton { at } => Complement::Two(
                Interval::UnboundedOpenRight { right: at },
                Interval::UnboundedOpenLeft { left: at },
            ),
            Interval::Unbounded => Complement::One(Interval::Empty),
            Interval::Empty => Complement::One(Interval::Unbounded),
        }
    }

    /// The normalized left bound of the interval.
    pub fn left_bound(&self) -> (r: Bound<T>)
        ensures
            r == self.left_bound_spec(),
    {
        match self {
            Interval::Empty => Bound::Absent,
            Interval::Singleton { at } => Bound::Closed(*at),
            Interval::Unbounded => Bound::Unbounded,
            Interval::UnboundedClosedRight { .. } => Bound::Unbounded,
            Interval::UnboundedOpenRight { .. } => Bound::Unbounded,
            Interval::Closed { bound_pair } => Bound::Closed(bound_pair.left),
            Interval::RightHalfOpen { bound_pair } => Bound::Closed(bound_pair.left),
            Interval::UnboundedClosedLeft { left } => Bound::Closed(*left),
            Interval::Open { bound_pair } => Bound::Open(bound_pair.left),
            Interval::LeftHalfOpen { bound_pair } => Bound::Open(bound_pair.left),
            Interval::UnboundedOpenLeft { left } => Bound::Open(*left),
        }
    }

    /// The normalized right bound of the interval.
    pub fn right_bound(&self) -> (r: Bound<T>)
        ensures
            r == self.right_bound_spec(),
    {
        match self {
            Interval::Empty => Bound::Absent,
            Interval::Singleton { at } => Bound::Closed(*at),
            Interval::Unbounded => Bound::Unbounded,
            Interval::UnboundedClosedLeft { .. } => Bound::Unbounded,
            Interval::UnboundedOpenLeft { .. } => Bound::Unbounded,
            Interval::Closed { bound_pair } => Bound::Closed(bound_pair.right),
            Interval::LeftHalfOpen { bound_pair } => Bound::Closed(bound_pair.right),
            Interval::UnboundedClosedRight { right } => Bound::Closed(*right),
            Interval::Open { bound_pair } => Bound::Open(bound_pair.right),
            Interval::RightHalfOpen { bound_pair } => Bound::Open(bound_pair.right),
            Interval::UnboundedOpenRight { right } => Bound::Open(*right),
        }
    }

    /// Verify whether self contains the specified interval.
    ///
    /// `i1.contains(&i2)` holds exactly when `i1`'s left bound reaches at
    /// least as far left as `i2`'s and `i1`'s right bound at least as far
    /// right.  Additionally, the `Empty` interval contains nothing — not
    /// even `Empty` — and no interval contains `Empty`.
    pub fn contains(&self, other: &Interval<T>) -> (r: bool)
        ensures
            T::obeys_partial_cmp_spec() ==> r == self.contains_spec(*other),
    {
        let self_left_bound = self.left_bound();
        let other_left_bound = other.left_bound();
        let self_right_bound = self.right_bound();
        let other_right_bound = other.right_bound();

        let left_contained = match (self_left_bound, other_left_bound) {
            // The Empty interval contains no other interval, not even Empty
            (Bound::Absent, _) => false,
            // The Empty interval is contained in all non-Empty intervals
            (_, Bound::Absent) => true,
            // An unbounded left side admits every other left bound
            (Bound::Unbounded, _) => true,
            // A bounded left side cannot reach an unbounded one
            (_, Bound::Unbounded) => false,
            (Bound::Closed(self_val), Bound::Closed(other_val)) => self_val.le(&other_val),
            (Bound::Closed(self_val), Bound::Open(other_val)) => self_val.le(&other_val),
            (Bound::Open(self_val), Bound::Open(other_val)) => self_val.le(&other_val),
            (Bound::Open(self_val), Bound::Closed(other_val)) => self_val.lt(&other_val),
        };

        let right_contained = match (self_right_bound, other_right_bound) {
            // The Empty interval does not contain the Empty interval
            (Bound::Absent, _) => false,
            (_, Bound::Absent) => false,
            // An unbounded right side admits every other right bound
            (Bound::Unbounded, _) => true,
            // A bounded right side cannot reach an unbounded one
            (_, Bound::Unbounded) => false,
            (Bound::Closed(self_val), Bound::Closed(other_val)) => self_val.ge(&other_val),
            (Bound::Closed(self_val), Bound::Open(other_val)) => self_val.ge(&other_val),
            (Bound::Open(self_val), Bound::Open(other_val)) => self_val.ge(&other_val),
            (Bound::Open(self_val), Bound::Closed(other_val)) => self_val.gt(&other_val),
        };

        left_contained && right_contained
    }

    /// The three-way comparison of the two intervals' left bounds, or
    /// nothing when either is `Empty`.
    pub fn left_partial_cmp(&self, other: &Interval<T>) -> (r: Option<Ordering>)
        ensures
            T::obeys_partial_cmp_spec() ==> r == self.left_cmp_spec(*other),
    {
        let self_left_bound = self.left_bound();
        let other_left_bound = other.left_bound();

        match (self_left_bound, other_left_bound) {
            (Bound::Absent, _) => None,
            (_, Bound::Absent) => None,
            // Handle all cases in which one left bound is Unbounded
            (Bound::Unbounded, Bound::Unbounded) => Some(Ordering::Equal),
            (Bound::Unbounded, _) => Some(Ordering::Less),
            (_, Bound::Unbounded) => Some(Ordering::Greater),
            (Bound::Closed(self_val), Bound::Closed(other_val)) => {
                if self_val.lt(&other_val) {
                    Some(Ordering::Less)
                } else if self_val.gt(&other_val) {
                    Some(Ordering::Greater)
                } else {
                    Some(Ordering::Equal)
                }
            },
            (Bound::Closed(self_val), Bound::Open(other_val)) => {
                if self_val.le(&other_val) {
                    Some(Ordering::Less)
                } else {
                    Some(Ordering::Greater)
                }
            },
            (Bound::Open(self_val), Bound::Closed(other_val)) => {
                if self_val.lt(&other_val) {
                    Some(Ordering::Less)
                } else {
                    Some(Ordering::Greater)
                }
            },
            (Bound::Open(self_val), Bound::Open(other_val)) => {
                if self_val.lt(&other_val) {
                    Some(Ordering::Less)
                } else if self_val.gt(&other_val) {
                    Some(Ordering::Greater)
                } else {
                    Some(Ordering::Equal)
                }
            },
        }
    }

    /// The three-way comparison of the two intervals' right bounds, or
    /// nothing when either is `Empty`.
    pub fn right_partial_cmp(&self, other: &Interval<T>) -> (r: Option<Ordering>)
        ensures
            T::obeys_partial_cmp_spec() ==> r == self.right_cmp_spec(*other),
    {
        let self_right_bound = self.right_bound();
        let other_right_bound = other.right_bound();

        match (self_right_bound, other_right_bound) {
            (Bound::Absent, _) => None,
            (_, Bound::Absent) => None,
            // Handle all cases in which one right bound is Unbounded
            (Bound::Unbounded, Bound::Unbounded) => Some(Ordering::Equal),
            (Bound::Unbounded, _) => Some(Ordering::Greater),
            (_, Bound::Unbounded) => Some(Ordering::Less),
            (Bound::Closed(self_val), Bound::Closed(other_val)) => {
                if self_val.lt(&other_val) {
                    Some(Ordering::Less)
                } else if self_val.gt(&other_val) {
                    Some(Ordering::Greater)
                } else {
                    Some(Ordering::Equal)
                }
            },
            (Bound::Closed(self_val), Bound::Open(other_val)) => {
                if self_val.lt(&other_val) {
                    Some(Ordering::Less)
                } else {
                    Some(Ordering::Greater)
                }
            },
            (Bound::Open(self_val), Bound::Closed(other_val)) => {
                if self_val.le(&other_val) {
                    Some(Ordering::Less)
                } else {
                    Some(Ordering::Greater)
                }
            },
            (Bound::Open(self_val), Bound::Open(other_val)) => {
                if self_val.lt(&other_val) {
                    Some(Ordering::Less)
                } else if self_val.gt(&other_val) {
                    Some(Ordering::Greater)
                } else {
                    Some(Ordering::Equal)
                }
            },
        }
    }

    /// Intersect self with the specified interval.
    ///
    /// The result covers exactly the points admitted by both operands:
    /// the more restrictive bound wins on each side, a closed pair of
    /// equal endpoints collapses to `Singleton`, and an overlap with no
    /// points — in particular whenever either operand is `Empty` — is
    /// `Empty`.
    pub fn intersect(&self, other: &Interval<T>) -> (r: Interval<T>)
        ensures
            T::obeys_partial_cmp_spec() && T::obeys_eq_spec() ==> r == self.intersect_spec(*other),
    {
        let left_cmp_partial = self.left_partial_cmp(other);
        let right_cmp_partial = self.right_partial_cmp(other);
        if left_cmp_partial.is_none() || right_cmp_partial.is_none() {
            return Interval::Empty;
        }
        let left_bound = match left_cmp_partial {
            Some(Ordering::Less) => other.left_bound(),
            _ => self.left_bound(),
        };
        let right_bound = match right_cmp_partial {
            Some(Ordering::Greater) => other.right_bound(),
            _ => self.right_bound(),
        };

        match (left_bound, right_bound) {
            (Bound::Absent, _) => Interval::Empty,
            (_, Bound::Absent) => Interval::Empty,
            (Bound::Closed(left), Bound::Closed(right)) => {
                if left.gt(&right) {
                    Interval::Empty
                } else if left.eq(&right) {
                    Interval::Singleton { at: left }
                } else {
                    Interval::Closed { bound_pair: BoundPair { left, right } }
                }
            },
            (Bound::Open(left), Bound::Open(right)) => {
                if left.ge(&right) {
                    Interval::Empty
                } else {
                    Interval::Open { bound_pair: BoundPair { left, right } }
                }
            },
            (Bound::Open(left), Bound::Closed(right)) => {
                if left.ge(&right) {
                    Interval::Empty
                } else {
                    Interval::LeftHalfOpen { bound_pair: BoundPair { left, right } }
                }
            },
            (Bound::Closed(left), Bound::Open(right)) => {
                if left.ge(&right) {
                    Interval::Empty
                } else {
                    Interval::RightHalfOpen { bound_pair: BoundPair { left, right } }
                }
            },
            (Bound::Unbounded, Bound::Closed(right)) => Interval::UnboundedClosedRight { right },
            (Bound::Unbounded, Bound::Open(right)) => Interval::UnboundedOpenRight { right },
            (Bound::Closed(left), Bound::Unbounded) => Interval::UnboundedClosedLeft { left },
            (Bound::Open(left), Bound::Unbounded) => Interval::UnboundedOpenLeft { left },
            (Bound::Unbounded, Bound::Unbounded) => Interval::Unbounded,
        }
    }

    /// The width of a finite interval, as specifications see it: defined
    /// exactly when both bounds are finite, and then the right endpoint
    /// value minus the left one under the domain's own subtraction.
    pub open spec fn width_spec(self) -> Option<<T as core::ops::Sub>::Output> where
        T: core::ops::Sub,
    {
        match (self.left_bound_spec(), self.right_bound_spec()) {
            (Bound::Closed(l), Bound::Closed(r)) => Some(r.sub_spec(l)),
            (Bound::Closed(l), Bound::Open(r)) => Some(r.sub_spec(l)),
            (Bound::Open(l), Bound::Closed(r)) => Some(r.sub_spec(l)),
            (Bound::Open(l), Bound::Open(r)) => Some(r.sub_spec(l)),
            _ => None,
        }
    }

    /// The domain's own precondition for the one subtraction `width`
    /// performs (for primitive integers: the difference must fit the
    /// type).  Trivially true for every shape without two finite bounds.
    pub open spec fn width_sub_req(self) -> bool where T: core::ops::Sub {
        match (self.left_bound_spec(), self.right_bound_spec()) {
            (Bound::Closed(l), Bound::Closed(r)) => r.sub_req(l),
            (Bound::Closed(l), Bound::Open(r)) => r.sub_req(l),
            (Bound::Open(l), Bound::Closed(r)) => r.sub_req(l),
            (Bound::Open(l), Bound::Open(r)) => r.sub_req(l),
            _ => true,
        }
    }

    /// Compute the width of the interval.
    ///
    /// Returns the right bound value minus the left bound value whenever
    /// both bounds are finite, and nothing for `Empty` and for every
    /// unbounded-sided shape.  The subtraction itself is delegated to the
    /// domain type, so its overflow policy is the domain's own; the
    /// precondition `width_sub_req` keeps the one subtraction inside the
    /// domain's stated range.
    pub fn width(&self) -> (r: Option<<T as core::ops::Sub>::Output>) where T: core::ops::Sub
        requires
            self.width_sub_req(),
        ensures
            (r is Some) <==> (bound_finite(self.left_bound_spec()) && bound_finite(
                self.right_bound_spec(),
            )),
            T::obeys_sub_spec() ==> r == self.width_spec(),
    {
        let self_left_bound = self.left_bound();
        let self_right_bound = self.right_bound();

        match (self_left_bound, self_right_bound) {
            (Bound::Absent, _) => None,
            (_, Bound::Absent) => None,
            (Bound::Unbounded, _) => None,
            (_, Bound::Unbounded) => None,
            (Bound::Closed(left), Bound::Closed(right)) => Some(right - left),
            (Bound::Closed(left), Bound::Open(right)) => Some(right - left),
            (Bound::Open(left), Bound::Closed(right)) => Some(right - left),
            (Bound::Open(left), Bound::Open(right)) => Some(right - left),
        }
    }

    /// Take the complement of the interval, returning one or two
    /// intervals that together cover the domain minus self.
    pub fn complement(&self) -> (r: Complement<T>)
        ensures
            r == self.complement_spec(),
    {
        match self {
            Interval::Closed { bound_pair } => Complement::Two(
                Interval::UnboundedOpenRight { right: bound_pair.left },
                Interval::UnboundedOpenLeft { left: bound_pair.right },
            ),
            Interval::Open { bound_pair } => Complement::Two(
                Interval::UnboundedClosedRight { right: bound_pair.left },
                Interval::UnboundedClosedLeft { left: bound_pair.right },
            ),
            Interval::LeftHalfOpen { bound_pair } => Complement::Two(
                Interval::UnboundedClosedRight { right: bound_pair.left },
                Interval::UnboundedOpenLeft { left: bound_pair.right },
            ),
            Interval::RightHalfOpen { bound_pair } => Complement::Two(
                Interval::UnboundedOpenRight { right: bound_pair.left },
                Interval::UnboundedClosedLeft { left: bound_pair.right },
            ),
            Interval::UnboundedClosedRight { right } => Complement::One(
                Interval::UnboundedOpenLeft { left: *right },
            ),
            Interval::UnboundedOpenRight { right } => Complement::One(
                Interval::UnboundedClosedLeft { left: *right },
            ),
            Interval::UnboundedClosedLeft { left } => Complement::One(
                Interval::UnboundedOpenRight { right: *left },
            ),
            Interval::UnboundedOpenLeft { left } => Complement::One(
                Interval::UnboundedClosedRight { right: *left },
            ),
            Interval::Singleton { at } => Complement::Two(
                Interval::UnboundedOpenRight { right: *at },
                Interval::UnboundedOpenLeft { left: *at },
            ),
            Interval::Unbounded => Complement::One(Interval::Empty),
            Interval::Empty => Complement::One(Interval::Unbounded),
        }
    }
}

} // verus!
