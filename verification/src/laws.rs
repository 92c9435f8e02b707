//! The laws of the interval algebra, proved once for every domain whose
//! comparison is a lawful total order (`vstd::laws_cmp::obeys_cmp`, which
//! holds of all primitive integer types).

use crate::interval::interval_of_bounds;
use crate::interval::left_bound_admits;
use crate::interval::left_bound_cmp;
use crate::interval::left_bound_contains;
use crate::interval::right_bound_admits;
use crate::interval::right_bound_cmp;
use crate::interval::right_bound_contains;
use crate::interval::Bound;
use crate::interval::Complement;
use crate::interval::Interval;
use crate::order::eq_cmp_spec;
use crate::order::lemma_cmp_cases;
use crate::order::lemma_order_basics;
use core::cmp::Ordering;
use vstd::laws_cmp::obeys_cmp;
use vstd::laws_eq::obeys_concrete_eq;
use vstd::prelude::*;
use vstd::std_specs::cmp::PartialEqSpec;

verus! {

/// Containment is reflexive on every shape except `Empty`, which does not
/// contain even itself.
pub proof fn lemma_contains_reflexive<T: Ord + Copy>(i: Interval<T>)
    requires
        obeys_cmp::<T>(),
    ensures
        i.contains_spec(i) <==> !(i is Empty),
{
    lemma_order_basics::<T>();
}

/// Containment is transitive: whatever shapes are involved, if `i1`
/// contains `i2` and `i2` contains `i3`, then `i1` contains `i3`.
pub proof fn lemma_contains_transitive<T: Ord + Copy>(
    i1: Interval<T>,
    i2: Interval<T>,
    i3: Interval<T>,
)
    requires
        obeys_cmp::<T>(),
        i1.contains_spec(i2),
        i2.contains_spec(i3),
    ensures
        i1.contains_spec(i3),
{
    lemma_order_basics::<T>();
}

/// Intersecting with `Empty`, on either side, yields `Empty` — on any
/// domain, lawful or not.
pub proof fn lemma_intersect_empty<T: Copy + PartialOrd>(i: Interval<T>)
    ensures
        Interval::<T>::Empty.intersect_spec(i) == Interval::<T>::Empty,
        i.intersect_spec(Interval::<T>::Empty) == Interval::<T>::Empty,
{
}

/// The two orders of comparing a pair of left bounds agree: both compare
/// or neither does, strict outcomes flip, and an `Equal` outcome means the
/// two bounds are the same bound.
proof fn lemma_left_bound_cmp_antisym<T: Ord + Copy>(b1: Bound<T>, b2: Bound<T>)
    requires
        obeys_cmp::<T>(),
        obeys_concrete_eq::<T>(),
    ensures
        left_bound_cmp(b1, b2) is None <==> left_bound_cmp(b2, b1) is None,
        left_bound_cmp(b1, b2) == Some(Ordering::Less) <==> left_bound_cmp(b2, b1) == Some(
            Ordering::Greater,
        ),
        left_bound_cmp(b1, b2) == Some(Ordering::Equal) ==> b1 == b2,
{
    lemma_order_basics::<T>();
    reveal(obeys_concrete_eq);
    match (b1, b2) {
        (Bound::Closed(s), Bound::Closed(o)) => {
            lemma_cmp_cases::<T>(s, o);
            if eq_cmp_spec(s, o) {
                assert(s.eq_spec(&o));
                assert(s == o);
            }
        },
        (Bound::Closed(s), Bound::Open(o)) => lemma_cmp_cases::<T>(s, o),
        (Bound::Open(s), Bound::Closed(o)) => lemma_cmp_cases::<T>(s, o),
        (Bound::Open(s), Bound::Open(o)) => {
            lemma_cmp_cases::<T>(s, o);
            if eq_cmp_spec(s, o) {
                assert(s.eq_spec(&o));
                assert(s == o);
            }
        },
        _ => (),
    }
}

/// The right-side mirror of [`lemma_left_bound_cmp_antisym`].
proof fn lemma_right_bound_cmp_antisym<T: Ord + Copy>(b1: Bound<T>, b2: Bound<T>)
    requires
        obeys_cmp::<T>(),
        obeys_concrete_eq::<T>(),
    ensures
        right_bound_cmp(b1, b2) is None <==> right_bound_cmp(b2, b1) is None,
        right_bound_cmp(b1, b2) == Some(Ordering::Less) <==> right_bound_cmp(b2, b1) == Some(
            Ordering::Greater,
        ),
        right_bound_cmp(b1, b2) == Some(Ordering::Equal) ==> b1 == b2,
{
    lemma_order_basics::<T>();
    reveal(obeys_concrete_eq);
    match (b1, b2) {
        (Bound::Closed(s), Bound::Closed(o)) => {
            lemma_cmp_cases::<T>(s, o);
            if eq_cmp_spec(s, o) {
                assert(s.eq_spec(&o));
                assert(s == o);
            }
        },
        (Bound::Closed(s), Bound::Open(o)) => lemma_cmp_cases::<T>(s, o),
        (Bound::Open(s), Bound::Closed(o)) => lemma_cmp_cases::<T>(s, o),
        (Bound::Open(s), Bound::Open(o)) => {
            lemma_cmp_cases::<T>(s, o);
            if eq_cmp_spec(s, o) {
                assert(s.eq_spec(&o));
                assert(s == o);
            }
        },
        _ => (),
    }
}

/// A containing left bound admits every point the contained one admits.
proof fn lemma_left_admits_mono<T: Ord + Copy>(b1: Bound<T>, b2: Bound<T>, x: T)
    requires
        obeys_cmp::<T>(),
        left_bound_contains(b1, b2),
        left_bound_admits(b2, x),
    ensures
        left_bound_admits(b1, x),
{
    lemma_order_basics::<T>();
    match (b1, b2) {
        (Bound::Closed(s), Bound::Closed(o)) => lemma_cmp_cases::<T>(s, o),
        (Bound::Closed(s), Bound::Open(o)) => lemma_cmp_cases::<T>(s, o),
        (Bound::Open(s), Bound::Closed(o)) => lemma_cmp_cases::<T>(s, o),
        (Bound::Open(s), Bound::Open(o)) => lemma_cmp_cases::<T>(s, o),
        _ => (),
    }
}

/// A containing right bound admits every point the contained one admits.
proof fn lemma_right_admits_mono<T: Ord + Copy>(b1: Bound<T>, b2: Bound<T>, x: T)
    requires
        obeys_cmp::<T>(),
        right_bound_contains(b1, b2),
        right_bound_admits(b2, x),
    ensures
        right_bound_admits(b1, x),
{
    lemma_order_basics::<T>();
    match (b1, b2) {
        (Bound::Closed(s), Bound::Closed(o)) => lemma_cmp_cases::<T>(s, o),
        (Bound::Closed(s), Bound::Open(o)) => lemma_cmp_cases::<T>(s, o),
        (Bound::Open(s), Bound::Closed(o)) => lemma_cmp_cases::<T>(s, o),
        (Bound::Open(s), Bound::Open(o)) => lemma_cmp_cases::<T>(s, o),
        _ => (),
    }
}

/// Containment is sound for the pointwise reading: an interval that
/// contains another admits every point the other admits.
pub proof fn lemma_contains_point_monotone<T: Ord + Copy>(
    i1: Interval<T>,
    i2: Interval<T>,
    x: T,
)
    requires
        obeys_cmp::<T>(),
        i1.contains_spec(i2),
        i2.contains_point(x),
    ensures
        i1.contains_point(x),
{
    lemma_left_admits_mono(i1.left_bound_spec(), i2.left_bound_spec(), x);
    lemma_right_admits_mono(i1.right_bound_spec(), i2.right_bound_spec(), x);
}

/// Intersection is commutative: `i1.intersect(i2)` and `i2.intersect(i1)`
/// are the same interval, for every pair of shapes.
pub proof fn lemma_intersect_commutative<T: Ord + Copy>(i1: Interval<T>, i2: Interval<T>)
    requires
        obeys_cmp::<T>(),
        obeys_concrete_eq::<T>(),
    ensures
        i1.intersect_spec(i2) == i2.intersect_spec(i1),
{
    lemma_order_basics::<T>();
    lemma_left_bound_cmp_antisym(i1.left_bound_spec(), i2.left_bound_spec());
    lemma_right_bound_cmp_antisym(i1.right_bound_spec(), i2.right_bound_spec());
}

/// For bounds that take part in the algebra (neither side `Absent`),
/// per-side containment coincides with the side comparison reading `Less`
/// or `Equal`.
proof fn lemma_left_contains_iff_cmp<T: Ord + Copy>(b1: Bound<T>, b2: Bound<T>)
    requires
        obeys_cmp::<T>(),
        !(b1 is Absent),
        !(b2 is Absent),
    ensures
        left_bound_contains(b1, b2) <==> (left_bound_cmp(b1, b2) == Some(Ordering::Less)
            || left_bound_cmp(b1, b2) == Some(Ordering::Equal)),
{
    lemma_order_basics::<T>();
    match (b1, b2) {
        (Bound::Closed(s), Bound::Closed(o)) => lemma_cmp_cases::<T>(s, o),
        (Bound::Closed(s), Bound::Open(o)) => lemma_cmp_cases::<T>(s, o),
        (Bound::Open(s), Bound::Closed(o)) => lemma_cmp_cases::<T>(s, o),
        (Bound::Open(s), Bound::Open(o)) => lemma_cmp_cases::<T>(s, o),
        _ => (),
    }
}

/// The right-side mirror of [`lemma_left_contains_iff_cmp`]: containment
/// coincides with the side comparison reading `Greater` or `Equal`.
proof fn lemma_right_contains_iff_cmp<T: Ord + Copy>(b1: Bound<T>, b2: Bound<T>)
    requires
        obeys_cmp::<T>(),
        !(b1 is Absent),
        !(b2 is Absent),
    ensures
        right_bound_contains(b1, b2) <==> (right_bound_cmp(b1, b2) == Some(Ordering::Greater)
            || right_bound_cmp(b1, b2) == Some(Ordering::Equal)),
{
    lemma_order_basics::<T>();
    match (b1, b2) {
        (Bound::Closed(s), Bound::Closed(o)) => lemma_cmp_cases::<T>(s, o),
        (Bound::Closed(s), Bound::Open(o)) => lemma_cmp_cases::<T>(s, o),
        (Bound::Open(s), Bound::Closed(o)) => lemma_cmp_cases::<T>(s, o),
        (Bound::Open(s), Bound::Open(o)) => lemma_cmp_cases::<T>(s, o),
        _ => (),
    }
}

/// The interval [`interval_of_bounds`] assembles admits exactly the
/// points its two bounds admit: the normalization to `Empty` or
/// `Singleton` loses no point and adds none.
proof fn lemma_interval_of_bounds_points<T: Ord + Copy>(lb: Bound<T>, rb: Bound<T>, x: T)
    requires
        obeys_cmp::<T>(),
        obeys_concrete_eq::<T>(),
    ensures
        interval_of_bounds(lb, rb).contains_point(x) <==> (left_bound_admits(lb, x)
            && right_bound_admits(rb, x)),
{
    lemma_order_basics::<T>();
    reveal(obeys_concrete_eq);
    match (lb, rb) {
        (Bound::Closed(l), Bound::Closed(r)) => {
            lemma_cmp_cases::<T>(l, r);
            lemma_cmp_cases::<T>(l, x);
            lemma_cmp_cases::<T>(x, r);
            if eq_cmp_spec(l, r) {
                assert(l.eq_spec(&r));
                assert(l == r);
            }
        },
        (Bound::Closed(l), Bound::Open(r)) => {
            lemma_cmp_cases::<T>(l, r);
            lemma_cmp_cases::<T>(l, x);
            lemma_cmp_cases::<T>(x, r);
        },
        (Bound::Open(l), Bound::Closed(r)) => {
            lemma_cmp_cases::<T>(l, r);
            lemma_cmp_cases::<T>(l, x);
            lemma_cmp_cases::<T>(x, r);
        },
        (Bound::Open(l), Bound::Open(r)) => {
            lemma_cmp_cases::<T>(l, r);
            lemma_cmp_cases::<T>(l, x);
            lemma_cmp_cases::<T>(x, r);
        },
        _ => (),
    }
}

/// Intersection means pointwise conjunction: the intersection admits a
/// point exactly when both operands admit it.
pub proof fn lemma_intersect_points<T: Ord + Copy>(i1: Interval<T>, i2: Interval<T>, x: T)
    requires
        obeys_cmp::<T>(),
        obeys_concrete_eq::<T>(),
    ensures
        i1.intersect_spec(i2).contains_point(x) <==> (i1.contains_point(x) && i2.contains_point(
            x,
        )),
{
    lemma_order_basics::<T>();
    let lb1 = i1.left_bound_spec();
    let lb2 = i2.left_bound_spec();
    let rb1 = i1.right_bound_spec();
    let rb2 = i2.right_bound_spec();
    let lc = left_bound_cmp(lb1, lb2);
    let rc = right_bound_cmp(rb1, rb2);
    if lc is None || rc is None {
        // A side comparison fails only against an `Absent` bound, and an
        // `Absent` bound admits no point at all.
    } else {
        lemma_left_bound_cmp_antisym(lb1, lb2);
        lemma_right_bound_cmp_antisym(rb1, rb2);
        lemma_left_contains_iff_cmp(lb1, lb2);
        lemma_left_contains_iff_cmp(lb2, lb1);
        lemma_right_contains_iff_cmp(rb1, rb2);
        lemma_right_contains_iff_cmp(rb2, rb1);
        let lb = if lc == Some(Ordering::Less) {
            lb2
        } else {
            lb1
        };
        let rb = if rc == Some(Ordering::Greater) {
            rb2
        } else {
            rb1
        };
        assert(left_bound_admits(lb, x) <==> (left_bound_admits(lb1, x) && left_bound_admits(
            lb2,
            x,
        ))) by {
            if lc == Some(Ordering::Less) {
                if left_bound_admits(lb2, x) {
                    lemma_left_admits_mono(lb1, lb2, x);
                }
            } else {
                if left_bound_admits(lb1, x) {
                    lemma_left_admits_mono(lb2, lb1, x);
                }
            }
        }
        assert(right_bound_admits(rb, x) <==> (right_bound_admits(rb1, x) && right_bound_admits(
            rb2,
            x,
        ))) by {
            if rc == Some(Ordering::Greater) {
                if right_bound_admits(rb2, x) {
                    lemma_right_admits_mono(rb1, rb2, x);
                }
            } else {
                if right_bound_admits(rb1, x) {
                    lemma_right_admits_mono(rb2, rb1, x);
                }
            }
        }
        lemma_interval_of_bounds_points(lb, rb, x);
    }
}

/// Intersection preserves well-formedness: whatever the operands, the
/// result never wraps a malformed `BoundPair`.
pub proof fn lemma_intersect_wf<T: Ord + Copy>(i1: Interval<T>, i2: Interval<T>)
    requires
        obeys_cmp::<T>(),
    ensures
        i1.intersect_spec(i2).wf(),
{
    lemma_order_basics::<T>();
    let lc = left_bound_cmp(i1.left_bound_spec(), i2.left_bound_spec());
    let rc = right_bound_cmp(i1.right_bound_spec(), i2.right_bound_spec());
    if !(lc is None || rc is None) {
        let lb = if lc == Some(Ordering::Less) {
            i2.left_bound_spec()
        } else {
            i1.left_bound_spec()
        };
        let rb = if rc == Some(Ordering::Greater) {
            i2.right_bound_spec()
        } else {
            i1.right_bound_spec()
        };
        match (lb, rb) {
            (Bound::Closed(l), Bound::Closed(r)) => lemma_cmp_cases::<T>(l, r),
            (Bound::Closed(l), Bound::Open(r)) => lemma_cmp_cases::<T>(l, r),
            (Bound::Open(l), Bound::Closed(r)) => lemma_cmp_cases::<T>(l, r),
            (Bound::Open(l), Bound::Open(r)) => lemma_cmp_cases::<T>(l, r),
            _ => (),
        }
    }
}

/// Complement means pointwise negation: together, the piece or pieces of
/// the complement admit exactly the points the interval does not.
pub proof fn lemma_complement_points<T: Ord + Copy>(i: Interval<T>, x: T)
    requires
        obeys_cmp::<T>(),
    ensures
        (match i.complement_spec() {
            Complement::One(c) => c.contains_point(x) <==> !i.contains_point(x),
            Complement::Two(c1, c2) => (c1.contains_point(x) || c2.contains_point(x))
                <==> !i.contains_point(x),
        }),
{
    lemma_order_basics::<T>();
    match i {
        Interval::Closed { bound_pair } => {
            lemma_cmp_cases::<T>(bound_pair.spec_left(), x);
            lemma_cmp_cases::<T>(bound_pair.spec_right(), x);
        },
        Interval::Open { bound_pair } => {
            lemma_cmp_cases::<T>(bound_pair.spec_left(), x);
            lemma_cmp_cases::<T>(bound_pair.spec_right(), x);
        },
        Interval::LeftHalfOpen { bound_pair } => {
            lemma_cmp_cases::<T>(bound_pair.spec_left(), x);
            lemma_cmp_cases::<T>(bound_pair.spec_right(), x);
        },
        Interval::RightHalfOpen { bound_pair } => {
            lemma_cmp_cases::<T>(bound_pair.spec_left(), x);
            lemma_cmp_cases::<T>(bound_pair.spec_right(), x);
        },
        Interval::UnboundedClosedRight { right } => lemma_cmp_cases::<T>(right, x),
        Interval::UnboundedOpenRight { right } => lemma_cmp_cases::<T>(right, x),
        Interval::UnboundedClosedLeft { left } => lemma_cmp_cases::<T>(left, x),
        Interval::UnboundedOpenLeft { left } => lemma_cmp_cases::<T>(left, x),
        Interval::Singleton { at } => lemma_cmp_cases::<T>(at, x),
        _ => (),
    }
}

/// The single piece of a complement, or the first of its two.
pub open spec fn complement_head<T: Copy + PartialOrd>(c: Complement<T>) -> Interval<T> {
    match c {
        Complement::One(piece) => piece,
        Complement::Two(piece, _) => piece,
    }
}

/// Complementing the complement: each piece is complemented in turn
/// (every piece of a complement is one-sided or degenerate, so its own
/// complement is a single interval), and a two-piece complement is
/// recombined by intersecting the results.
pub open spec fn double_complement_spec<T: Copy + PartialOrd>(i: Interval<T>) -> Interval<T> {
    match i.complement_spec() {
        Complement::One(piece) => complement_head(piece.complement_spec()),
        Complement::Two(p1, p2) => complement_head(p1.complement_spec()).intersect_spec(
            complement_head(p2.complement_spec()),
        ),
    }
}

/// The complement is an involution: taking the complement twice, with an
/// intersection step to recombine a two-piece complement, returns the
/// original interval — for every well-formed shape.
pub proof fn lemma_complement_involutive<T: Ord + Copy>(i: Interval<T>)
    requires
        obeys_cmp::<T>(),
        i.wf(),
    ensures
        double_complement_spec(i) == i,
{
    lemma_order_basics::<T>();
    match i {
        Interval::Closed { bound_pair } => {
            lemma_cmp_cases::<T>(bound_pair.spec_left(), bound_pair.spec_right());
        },
        Interval::Open { bound_pair } => {
            lemma_cmp_cases::<T>(bound_pair.spec_left(), bound_pair.spec_right());
        },
        Interval::LeftHalfOpen { bound_pair } => {
            lemma_cmp_cases::<T>(bound_pair.spec_left(), bound_pair.spec_right());
        },
        Interval::RightHalfOpen { bound_pair } => {
            lemma_cmp_cases::<T>(bound_pair.spec_left(), bound_pair.spec_right());
        },
        Interval::Singleton { at } => lemma_cmp_cases::<T>(at, at),
        _ => (),
    }
}

/// Intersection never grows width: over `u32`, whenever the widths of
/// both operands and of the intersection are all defined, the
/// intersection is at most as wide as either operand.
pub proof fn lemma_intersect_width_shrinks(i1: Interval<u32>, i2: Interval<u32>)
    requires
        i1.wf(),
        i2.wf(),
    ensures
        (match (i1.intersect_spec(i2).width_spec(), i1.width_spec(), i2.width_spec()) {
            (Some(w), Some(w1), Some(w2)) => w <= w1 && w <= w2,
            _ => true,
        }),
{
}

} // verus!
