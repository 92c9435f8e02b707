use intervals_general::bound_pair::BoundPair;
use intervals_general::interval::Bound;
use intervals_general::interval::Complement;
use intervals_general::interval::Interval;

#[test]
fn test_left_bound() {
    // Test bounded intervals
    let bp = BoundPair::new(1, 5).unwrap();

    // Closed interval should have closed left bound
    assert!(matches!(
        Interval::Closed { bound_pair: bp }.left_bound(),
        Bound::Closed(1)
    ));

    // Open interval should have open left bound
    assert!(matches!(
        Interval::Open { bound_pair: bp }.left_bound(),
        Bound::Open(1)
    ));

    // Test unbounded intervals
    assert!(matches!(
        Interval::Unbounded::<i32>.left_bound(),
        Bound::Unbounded
    ));

    // Test empty interval
    assert!(matches!(Interval::Empty::<i32>.left_bound(), Bound::Absent));

    // Test singleton
    assert!(matches!(
        Interval::Singleton { at: 3 }.left_bound(),
        Bound::Closed(3)
    ));

    // Test half-open intervals
    assert!(matches!(
        Interval::LeftHalfOpen { bound_pair: bp }.left_bound(),
        Bound::Open(1)
    ));
    assert!(matches!(
        Interval::RightHalfOpen { bound_pair: bp }.left_bound(),
        Bound::Closed(1)
    ));
}

#[test]
fn test_right_bound() {
    let bp = BoundPair::new(1, 5).unwrap();

    // Test bounded intervals
    assert!(matches!(
        Interval::Closed { bound_pair: bp }.right_bound(),
        Bound::Closed(5)
    ));
    assert!(matches!(
        Interval::Open { bound_pair: bp }.right_bound(),
        Bound::Open(5)
    ));

    // Test special cases
    assert!(matches!(
        Interval::Unbounded::<i32>.right_bound(),
        Bound::Unbounded
    ));
    assert!(matches!(Interval::Empty::<i32>.right_bound(), Bound::Absent));
    assert!(matches!(
        Interval::Singleton { at: 3 }.right_bound(),
        Bound::Closed(3)
    ));

    // Test unbounded variants
    assert!(matches!(
        Interval::UnboundedClosedLeft { left: 1 }.right_bound(),
        Bound::Unbounded
    ));
    assert!(matches!(
        Interval::UnboundedOpenLeft { left: 1 }.right_bound(),
        Bound::Unbounded
    ));

    // Test half-open intervals
    assert!(matches!(
        Interval::LeftHalfOpen { bound_pair: bp }.right_bound(),
        Bound::Closed(5)
    ));
    assert!(matches!(
        Interval::RightHalfOpen { bound_pair: bp }.right_bound(),
        Bound::Open(5)
    ));
}

#[test]
fn test_bounded_complements() {
    let bp = BoundPair::new(1, 5).unwrap();

    match (Interval::Closed { bound_pair: bp }).complement() {
        Complement::Two(first, second) => {
            assert_eq!(first, Interval::UnboundedOpenRight { right: 1 });
            assert_eq!(second, Interval::UnboundedOpenLeft { left: 5 });
        }
        Complement::One(_) => panic!("a two-sided interval complements into two pieces"),
    }

    match (Interval::Open { bound_pair: bp }).complement() {
        Complement::Two(first, second) => {
            assert_eq!(first, Interval::UnboundedClosedRight { right: 1 });
            assert_eq!(second, Interval::UnboundedClosedLeft { left: 5 });
        }
        Complement::One(_) => panic!("a two-sided interval complements into two pieces"),
    }

    match (Interval::LeftHalfOpen { bound_pair: bp }).complement() {
        Complement::Two(first, second) => {
            assert_eq!(first, Interval::UnboundedClosedRight { right: 1 });
            assert_eq!(second, Interval::UnboundedOpenLeft { left: 5 });
        }
        Complement::One(_) => panic!("a two-sided interval complements into two pieces"),
    }

    match (Interval::RightHalfOpen { bound_pair: bp }).complement() {
        Complement::Two(first, second) => {
            assert_eq!(first, Interval::UnboundedOpenRight { right: 1 });
            assert_eq!(second, Interval::UnboundedClosedLeft { left: 5 });
        }
        Complement::One(_) => panic!("a two-sided interval complements into two pieces"),
    }
}

#[test]
fn test_unbounded_complements() {
    match (Interval::UnboundedClosedRight { right: 5 }).complement() {
        Complement::One(only) => assert_eq!(only, Interval::UnboundedOpenLeft { left: 5 }),
        Complement::Two(_, _) => panic!("a one-sided interval complements into one piece"),
    }

    match (Interval::UnboundedOpenRight { right: 5 }).complement() {
        Complement::One(only) => assert_eq!(only, Interval::UnboundedClosedLeft { left: 5 }),
        Complement::Two(_, _) => panic!("a one-sided interval complements into one piece"),
    }

    match (Interval::UnboundedClosedLeft { left: 1 }).complement() {
        Complement::One(only) => assert_eq!(only, Interval::UnboundedOpenRight { right: 1 }),
        Complement::Two(_, _) => panic!("a one-sided interval complements into one piece"),
    }

    match (Interval::UnboundedOpenLeft { left: 1 }).complement() {
        Complement::One(only) => assert_eq!(only, Interval::UnboundedClosedRight { right: 1 }),
        Complement::Two(_, _) => panic!("a one-sided interval complements into one piece"),
    }

    match (Interval::Singleton { at: 2.0 }).complement() {
        Complement::Two(first, second) => {
            assert_eq!(first, Interval::UnboundedOpenRight { right: 2.0 });
            assert_eq!(second, Interval::UnboundedOpenLeft { left: 2.0 });
        }
        Complement::One(_) => panic!("a singleton complements into two pieces"),
    }

    match Interval::Unbounded::<i32>.complement() {
        Complement::One(only) => assert_eq!(only, Interval::Empty),
        Complement::Two(_, _) => panic!("the unbounded interval complements into one piece"),
    }

    match Interval::Empty::<i32>.complement() {
        Complement::One(only) => assert_eq!(only, Interval::Unbounded),
        Complement::Two(_, _) => panic!("the empty interval complements into one piece"),
    }
}

#[test]
fn interval_display() {
    let bp = BoundPair::new(1, 5).ok_or("invalid BoundPair").unwrap();

    assert_eq!(
        (Interval::Closed { bound_pair: bp }).to_display_string(),
        "[1..5]"
    );
    assert_eq!(
        (Interval::Open { bound_pair: bp }).to_display_string(),
        "(1..5)"
    );
    assert_eq!(
        (Interval::LeftHalfOpen { bound_pair: bp }).to_display_string(),
        "(1..5]"
    );
    assert_eq!(
        (Interval::RightHalfOpen { bound_pair: bp }).to_display_string(),
        "[1..5)"
    );
    assert_eq!(
        (Interval::UnboundedClosedRight { right: 5 }).to_display_string(),
        "(←..5]"
    );
    assert_eq!(
        (Interval::UnboundedOpenRight { right: 5 }).to_display_string(),
        "(←..5)"
    );
    assert_eq!(
        (Interval::UnboundedClosedLeft { left: 1 }).to_display_string(),
        "[1..→)"
    );
    assert_eq!(
        (Interval::UnboundedOpenLeft { left: 1 }).to_display_string(),
        "(1..→)"
    );
    assert_eq!((Interval::Singleton { at: 3.0 }).to_display_string(), "[3.0]");
    assert_eq!(Interval::Unbounded::<u32>.to_display_string(), "(←..→)");
    assert_eq!(Interval::Empty::<u32>.to_display_string(), "Empty");
}

#[test]
fn test_intersection_edge_cases() {
    // Test intersection resulting in singleton
    let left_interval = Interval::Closed {
        bound_pair: BoundPair::new(0, 5).unwrap(),
    };
    let right_interval = Interval::Closed {
        bound_pair: BoundPair::new(5, 10).unwrap(),
    };

    // Intersection at single point should yield singleton
    assert_eq!(
        left_interval.intersect(&right_interval),
        Interval::Singleton { at: 5 }
    );

    // Test open interval edge cases
    let left_open = Interval::Open {
        bound_pair: BoundPair::new(0, 5).unwrap(),
    };
    let right_open = Interval::Open {
        bound_pair: BoundPair::new(5, 10).unwrap(),
    };

    // Open intervals touching should yield empty
    assert_eq!(left_open.intersect(&right_open), Interval::Empty);
}

#[test]
fn test_empty_interval_intersections() {
    let normal_interval = Interval::Closed {
        bound_pair: BoundPair::new(0, 5).unwrap(),
    };
    let empty = Interval::Empty;

    // Empty interval intersected with any interval should yield empty
    assert_eq!(empty.intersect(&normal_interval), Interval::Empty);
    assert_eq!(normal_interval.intersect(&empty), Interval::Empty);
    assert_eq!(empty.intersect(&empty), Interval::Empty);
}

#[test]
fn test_basic_contains() {
    let outer = Interval::Closed {
        bound_pair: BoundPair::new(0, 10).unwrap(),
    };
    let inner = Interval::Closed {
        bound_pair: BoundPair::new(2, 8).unwrap(),
    };
    assert!(outer.contains(&inner));
    assert!(!inner.contains(&outer));
}

#[test]
fn test_empty_interval_contains() {
    let interval = Interval::Closed {
        bound_pair: BoundPair::new(0, 10).unwrap(),
    };
    let empty = Interval::Empty;

    // The empty interval is not contained by any interval
    assert!(!interval.contains(&empty));
    // Empty interval contains nothing, not even itself
    assert!(!empty.contains(&empty));
    assert!(!empty.contains(&interval));
}

#[test]
fn test_unbounded_contains() {
    let unbounded = Interval::Unbounded;
    let finite = Interval::Closed {
        bound_pair: BoundPair::new(0, 10).unwrap(),
    };

    assert!(unbounded.contains(&finite));
    assert!(!finite.contains(&unbounded));
}

#[test]
fn test_mixed_bound_types() {
    let closed = Interval::Closed {
        bound_pair: BoundPair::new(0, 10).unwrap(),
    };
    let open = Interval::Open {
        bound_pair: BoundPair::new(0, 10).unwrap(),
    };

    // Closed interval contains its open counterpart
    assert!(closed.contains(&open));
    // Open interval does not contain its closed counterpart
    assert!(!open.contains(&closed));
}

#[test]
fn test_singleton_contains() {
    let singleton = Interval::Singleton { at: 5 };
    let containing = Interval::Closed {
        bound_pair: BoundPair::new(0, 10).unwrap(),
    };
    let not_containing = Interval::Open {
        bound_pair: BoundPair::new(0, 5).unwrap(),
    };

    assert!(containing.contains(&singleton));
    // Open interval does not contain singleton on its bounds
    assert!(!not_containing.contains(&singleton));
    // Singleton only contains itself
    assert!(singleton.contains(&singleton));
}
