use intervals_general::bound_pair::BoundPair;

#[test]
fn test_valid_creation() {
    assert!(BoundPair::new(1, 2).is_some());
    assert!(BoundPair::new(-1.0, 1.0).is_some());
    assert!(BoundPair::new(0u32, 100u32).is_some());
}

#[test]
fn test_invalid_creation() {
    assert!(BoundPair::new(2, 1).is_none());
    assert!(BoundPair::new(1.0, 1.0).is_none());
    assert!(BoundPair::new(100u32, 50u32).is_none());
}

#[test]
fn test_accessors() {
    let bp = BoundPair::new(1.5, 2.5).unwrap();
    assert_eq!(*bp.left(), 1.5);
    assert_eq!(*bp.right(), 2.5);
}

#[test]
fn test_floating_point() {
    assert!(BoundPair::new(f64::NEG_INFINITY, f64::INFINITY).is_some());
    assert!(BoundPair::new(f64::NAN, 1.0).is_none());
    assert!(BoundPair::new(1.0, f64::NAN).is_none());
}

#[test]
fn test_copy() {
    let bp1 = BoundPair::new(1, 2).unwrap();
    let bp2 = bp1;
    assert_eq!(bp1, bp2);
}
