//! Spec-level shorthands for the domain's partial order, together with the
//! lemmas the interval algebra needs about lawful total orders.

use core::cmp::Ordering;
use vstd::laws_cmp::obeys_cmp;
use vstd::laws_cmp::obeys_cmp_ord;
use vstd::laws_cmp::obeys_cmp_partial_ord;
use vstd::laws_cmp::obeys_partial_cmp_spec_properties;
use vstd::laws_eq::obeys_eq_spec_properties;
use vstd::prelude::*;
use vstd::std_specs::cmp::OrdSpec;
use vstd::std_specs::cmp::PartialEqSpec;
use vstd::std_specs::cmp::PartialOrdSpec;

verus! {

/// `x` sorts strictly below `y` under the domain's partial order.
pub open spec fn lt_spec<T: PartialOrd>(x: T, y: T) -> bool {
    x.partial_cmp_spec(&y) == Some(Ordering::Less)
}

/// `x` sorts below `y`, or the two compare equal.
pub open spec fn le_spec<T: PartialOrd>(x: T, y: T) -> bool {
    x.partial_cmp_spec(&y) == Some(Ordering::Less) || x.partial_cmp_spec(&y) == Some(
        Ordering::Equal,
    )
}

/// `x` sorts strictly above `y` under the domain's partial order.
pub open spec fn gt_spec<T: PartialOrd>(x: T, y: T) -> bool {
    x.partial_cmp_spec(&y) == Some(Ordering::Greater)
}

/// `x` sorts above `y`, or the two compare equal.
pub open spec fn ge_spec<T: PartialOrd>(x: T, y: T) -> bool {
    x.partial_cmp_spec(&y) == Some(Ordering::Greater) || x.partial_cmp_spec(&y) == Some(
        Ordering::Equal,
    )
}

/// `x` and `y` compare equal under the domain's partial order.
pub open spec fn eq_cmp_spec<T: PartialOrd>(x: T, y: T) -> bool {
    x.partial_cmp_spec(&y) == Some(Ordering::Equal)
}

/// In a lawful total order every pair of values compares, every value
/// compares equal to itself, strict comparisons flip under exchange of the
/// operands, and comparisons chain transitively, also across
/// comparison-equality.  All of it follows from `vstd::laws_cmp::obeys_cmp`.
pub proof fn lemma_order_basics<T: Ord>()
    requires
        obeys_cmp::<T>(),
    ensures
        forall|x: T, y: T| #![trigger x.partial_cmp_spec(&y)] x.partial_cmp_spec(&y) is Some,
        forall|x: T| #![trigger x.partial_cmp_spec(&x)] eq_cmp_spec(x, x),
        forall|x: T, y: T| #![trigger x.eq_spec(&y)] (x.eq_spec(&y) <==> eq_cmp_spec(x, y)),
        forall|x: T, y: T| #![trigger x.partial_cmp_spec(&y)] (lt_spec(x, y) <==> gt_spec(y, x)),
        forall|x: T, y: T|
            #![trigger x.partial_cmp_spec(&y)]
            (eq_cmp_spec(x, y) <==> eq_cmp_spec(y, x)),
        forall|x: T, y: T, z: T|
            #![trigger x.partial_cmp_spec(&y), y.partial_cmp_spec(&z)]
            lt_spec(x, y) && lt_spec(y, z) ==> lt_spec(x, z),
        forall|x: T, y: T, z: T|
            #![trigger x.partial_cmp_spec(&y), y.partial_cmp_spec(&z)]
            lt_spec(x, y) && eq_cmp_spec(y, z) ==> lt_spec(x, z),
        forall|x: T, y: T, z: T|
            #![trigger x.partial_cmp_spec(&y), y.partial_cmp_spec(&z)]
            eq_cmp_spec(x, y) && lt_spec(y, z) ==> lt_spec(x, z),
        forall|x: T, y: T, z: T|
            #![trigger x.partial_cmp_spec(&y), y.partial_cmp_spec(&z)]
            eq_cmp_spec(x, y) && eq_cmp_spec(y, z) ==> eq_cmp_spec(x, z),
        forall|x: T, y: T, z: T|
            #![trigger x.partial_cmp_spec(&y), y.partial_cmp_spec(&z)]
            gt_spec(x, y) && gt_spec(y, z) ==> gt_spec(x, z),
        forall|x: T, y: T, z: T|
            #![trigger x.partial_cmp_spec(&y), y.partial_cmp_spec(&z)]
            gt_spec(x, y) && eq_cmp_spec(y, z) ==> gt_spec(x, z),
        forall|x: T, y: T, z: T|
            #![trigger x.partial_cmp_spec(&y), y.partial_cmp_spec(&z)]
            eq_cmp_spec(x, y) && gt_spec(y, z) ==> gt_spec(x, z),
{
    reveal(obeys_cmp_partial_ord);
    reveal(obeys_cmp_ord);
    reveal(obeys_partial_cmp_spec_properties);
    reveal(obeys_eq_spec_properties);
    assert forall|x: T, y: T| #![trigger x.partial_cmp_spec(&y)] x.partial_cmp_spec(
        &y,
    ) is Some by {
        assert(x.partial_cmp_spec(&y) == Some(x.cmp_spec(&y)));
    }
    assert forall|x: T, y: T| #![trigger x.eq_spec(&y)] (x.eq_spec(&y) <==> eq_cmp_spec(x, y)) by {
        assert(x.eq_spec(&y) <==> x.partial_cmp_spec(&y) == Some(Ordering::Equal));
    }
    assert forall|x: T| #![trigger x.partial_cmp_spec(&x)] eq_cmp_spec(x, x) by {
        assert(x.partial_cmp_spec(&x) == Some(x.cmp_spec(&x)));
        if lt_spec(x, x) {
            assert(gt_spec(x, x));
            assert(false);
        }
        if gt_spec(x, x) {
            assert(lt_spec(x, x));
            assert(false);
        }
    }
    assert forall|x: T, y: T, z: T| lt_spec(x, y) && eq_cmp_spec(y, z) implies lt_spec(x, z) by {
        lemma_lt_eq_chain::<T>(x, y, z);
    }
    assert forall|x: T, y: T, z: T| eq_cmp_spec(x, y) && lt_spec(y, z) implies lt_spec(x, z) by {
        lemma_eq_lt_chain::<T>(x, y, z);
    }
    assert forall|x: T, y: T, z: T| gt_spec(x, y) && gt_spec(y, z) implies gt_spec(x, z) by {
        assert(lt_spec(z, y) && lt_spec(y, x));
        assert(lt_spec(z, x));
    }
    assert forall|x: T, y: T, z: T| gt_spec(x, y) && eq_cmp_spec(y, z) implies gt_spec(x, z) by {
        // Flip to z == y < x and chain through comparison-equality.
        assert(y.eq_spec(&z) && z.eq_spec(&y));
        assert(eq_cmp_spec(z, y));
        assert(lt_spec(y, x));
        lemma_eq_lt_chain::<T>(z, y, x);
        assert(lt_spec(z, x));
    }
    assert forall|x: T, y: T, z: T| eq_cmp_spec(x, y) && gt_spec(y, z) implies gt_spec(x, z) by {
        // Flip to z < y == x and chain through comparison-equality.
        assert(x.eq_spec(&y) && y.eq_spec(&x));
        assert(eq_cmp_spec(y, x));
        assert(lt_spec(z, y));
        lemma_lt_eq_chain::<T>(z, y, x);
        assert(lt_spec(z, x));
    }
}

/// The facts of [`lemma_order_basics`] instantiated at one pair of
/// values: the pair compares, strict outcomes flip under exchange of the
/// operands, and comparison-equality is symmetric and coincides with
/// `eq_spec`.
pub proof fn lemma_cmp_cases<T: Ord>(x: T, y: T)
    requires
        obeys_cmp::<T>(),
    ensures
        lt_spec(x, y) || gt_spec(x, y) || eq_cmp_spec(x, y),
        lt_spec(x, y) <==> gt_spec(y, x),
        gt_spec(x, y) <==> lt_spec(y, x),
        eq_cmp_spec(x, y) <==> eq_cmp_spec(y, x),
        eq_cmp_spec(x, y) <==> x.eq_spec(&y),
        !(lt_spec(x, y) && gt_spec(x, y)),
        !(lt_spec(x, y) && eq_cmp_spec(x, y)),
        !(gt_spec(x, y) && eq_cmp_spec(x, y)),
{
    lemma_order_basics::<T>();
    assert(x.partial_cmp_spec(&y) is Some);
    assert(y.partial_cmp_spec(&x) is Some);
    assert(x.eq_spec(&y) <==> eq_cmp_spec(x, y));
    let pc = x.partial_cmp_spec(&y);
    let v = pc.unwrap();
    assert(pc == Some(v));
    match v {
        Ordering::Less => assert(lt_spec(x, y)),
        Ordering::Equal => assert(eq_cmp_spec(x, y)),
        Ordering::Greater => assert(gt_spec(x, y)),
    }
}

/// From `x < y` and `y == z` (comparison-equality), conclude `x < z`.
proof fn lemma_lt_eq_chain<T: Ord>(x: T, y: T, z: T)
    requires
        obeys_cmp::<T>(),
        lt_spec(x, y),
        eq_cmp_spec(y, z),
    ensures
        lt_spec(x, z),
{
    reveal(obeys_cmp_partial_ord);
    reveal(obeys_cmp_ord);
    reveal(obeys_partial_cmp_spec_properties);
    reveal(obeys_eq_spec_properties);
    assert(x.partial_cmp_spec(&z) == Some(x.cmp_spec(&z)));
    if eq_cmp_spec(x, z) {
        // Then x, z and y are all comparison-equal, contradicting x < y.
        assert(x.eq_spec(&z) && y.eq_spec(&z));
        assert(z.eq_spec(&y));
        assert(x.eq_spec(&y));
        assert(eq_cmp_spec(x, y));
        assert(false);
    }
    if gt_spec(x, z) {
        // Then z < x < y, so z < y, contradicting y == z.
        assert(lt_spec(z, x));
        assert(lt_spec(z, y));
        assert(gt_spec(y, z));
        assert(false);
    }
}

/// From `x == y` (comparison-equality) and `y < z`, conclude `x < z`.
proof fn lemma_eq_lt_chain<T: Ord>(x: T, y: T, z: T)
    requires
        obeys_cmp::<T>(),
        eq_cmp_spec(x, y),
        lt_spec(y, z),
    ensures
        lt_spec(x, z),
{
    reveal(obeys_cmp_partial_ord);
    reveal(obeys_cmp_ord);
    reveal(obeys_partial_cmp_spec_properties);
    reveal(obeys_eq_spec_properties);
    assert(x.partial_cmp_spec(&z) == Some(x.cmp_spec(&z)));
    if eq_cmp_spec(x, z) {
        // Then y, x and z are all comparison-equal, contradicting y < z.
        assert(x.eq_spec(&y) && x.eq_spec(&z));
        assert(y.eq_spec(&x));
        assert(y.eq_spec(&z));
        assert(eq_cmp_spec(y, z));
        assert(false);
    }
    if gt_spec(x, z) {
        // Then y < z < x, so y < x, contradicting x == y.
        assert(lt_spec(z, x));
        assert(lt_spec(y, x));
        assert(gt_spec(x, y));
        assert(x.eq_spec(&y));
        assert(eq_cmp_spec(x, y));
        assert(false);
    }
}

} // verus!
