use intervals_general::bound_pair::BoundPair;
use intervals_general::interval::Complement;
use intervals_general::interval::Interval;
use std::cmp::Ordering;

#[test]
fn intersect_general_case() {
    let i1 = Interval::RightHalfOpen {
        bound_pair: BoundPair::new(1, 5).unwrap(),
    };
    let i2 = Interval::Open {
        bound_pair: BoundPair::new(-1, 2).unwrap(),
    };

    assert_eq!(
        i1.intersect(&i2),
        Interval::RightHalfOpen {
            bound_pair: BoundPair::new(1, 2).unwrap()
        }
    );
}

#[test]
fn intersect_unbounded_sides() {
    let left = Interval::UnboundedClosedLeft { left: 1 };
    let right = Interval::UnboundedClosedRight { right: 5 };
    assert_eq!(
        left.intersect(&right),
        Interval::Closed {
            bound_pair: BoundPair::new(1, 5).unwrap()
        }
    );
    assert_eq!(
        Interval::Unbounded.intersect(&right),
        Interval::UnboundedClosedRight { right: 5 }
    );
    assert_eq!(
        Interval::Unbounded::<i32>.intersect(&Interval::Unbounded),
        Interval::Unbounded
    );
}

#[test]
fn intersect_commutative_cases() {
    let closed = Interval::Closed {
        bound_pair: BoundPair::new(0, 5).unwrap(),
    };
    let touching = Interval::Closed {
        bound_pair: BoundPair::new(5, 10).unwrap(),
    };
    let open = Interval::Open {
        bound_pair: BoundPair::new(3, 12).unwrap(),
    };
    let half = Interval::LeftHalfOpen {
        bound_pair: BoundPair::new(-2, 4).unwrap(),
    };
    let singleton = Interval::Singleton { at: 4 };
    let unbounded_side = Interval::UnboundedOpenRight { right: 4 };

    let shapes = [closed, touching, open, half, singleton, unbounded_side, Interval::Unbounded, Interval::Empty];
    for a in shapes.iter() {
        for b in shapes.iter() {
            assert_eq!(a.intersect(b), b.intersect(a));
        }
    }
}

#[test]
fn contains_reflexive_cases() {
    let bp = BoundPair::new(1, 5).unwrap();
    let shapes = [
        Interval::Closed { bound_pair: bp },
        Interval::Open { bound_pair: bp },
        Interval::LeftHalfOpen { bound_pair: bp },
        Interval::RightHalfOpen { bound_pair: bp },
        Interval::UnboundedClosedRight { right: 5 },
        Interval::UnboundedOpenRight { right: 5 },
        Interval::UnboundedClosedLeft { left: 1 },
        Interval::UnboundedOpenLeft { left: 1 },
        Interval::Singleton { at: 3 },
        Interval::Unbounded,
    ];
    for i in shapes.iter() {
        assert!(i.contains(i));
    }
    let empty = Interval::Empty::<i32>;
    assert!(!empty.contains(&empty));
}

#[test]
fn contains_transitive_case() {
    let i1 = Interval::Closed {
        bound_pair: BoundPair::new(0, 100).unwrap(),
    };
    let i2 = Interval::Closed {
        bound_pair: BoundPair::new(10, 90).unwrap(),
    };
    let i3 = Interval::Closed {
        bound_pair: BoundPair::new(20, 80).unwrap(),
    };
    assert!(i1.contains(&i2));
    assert!(i2.contains(&i3));
    assert!(i1.contains(&i3));
}

#[test]
fn left_cmp_cases() {
    let right_half_open = Interval::RightHalfOpen {
        bound_pair: BoundPair::new(1, 5).unwrap(),
    };
    let contained = Interval::Open {
        bound_pair: BoundPair::new(1, 2).unwrap(),
    };

    assert_eq!(
        contained.left_partial_cmp(&right_half_open),
        Some(Ordering::Greater)
    );
    assert_eq!(
        right_half_open.left_partial_cmp(&contained),
        Some(Ordering::Less)
    );
    assert_eq!(
        Interval::Unbounded::<i32>.left_partial_cmp(&Interval::Unbounded),
        Some(Ordering::Equal)
    );
    assert_eq!(
        Interval::Empty::<i32>.left_partial_cmp(&Interval::Unbounded),
        None
    );
}

#[test]
fn right_cmp_cases() {
    let right_half_open = Interval::RightHalfOpen {
        bound_pair: BoundPair::new(1, 5).unwrap(),
    };
    let contained = Interval::Open {
        bound_pair: BoundPair::new(1, 2).unwrap(),
    };

    assert_eq!(
        contained.right_partial_cmp(&right_half_open),
        Some(Ordering::Less)
    );
    assert_eq!(
        right_half_open.right_partial_cmp(&contained),
        Some(Ordering::Greater)
    );
    assert_eq!(
        Interval::Unbounded::<i32>.right_partial_cmp(&Interval::Empty),
        None
    );
}

#[test]
fn width_cases() {
    let bp = BoundPair::new(1, 5).unwrap();
    assert_eq!((Interval::RightHalfOpen { bound_pair: bp }).width(), Some(4));
    assert_eq!((Interval::Closed { bound_pair: bp }).width(), Some(4));
    assert_eq!((Interval::Open { bound_pair: bp }).width(), Some(4));
    assert_eq!((Interval::Singleton { at: 3 }).width(), Some(0));
    assert_eq!((Interval::UnboundedClosedLeft { left: 1 }).width(), None);
    assert_eq!(Interval::Unbounded::<i32>.width(), None);
    assert_eq!(Interval::Empty::<i32>.width(), None);
}

#[test]
fn intersect_never_grows_width() {
    let pairs = [(0u32, 5u32, 3u32, 10u32), (1, 9, 2, 4), (0, 2, 5, 9), (1, 5, 1, 5)];
    for (l1, r1, l2, r2) in pairs.iter() {
        let i1 = Interval::LeftHalfOpen {
            bound_pair: BoundPair::new(*l1, *r1).unwrap(),
        };
        let i2 = Interval::LeftHalfOpen {
            bound_pair: BoundPair::new(*l2, *r2).unwrap(),
        };
        let intersection = i1.intersect(&i2);
        if let Some(w) = intersection.width() {
            assert!(w <= i1.width().unwrap());
            assert!(w <= i2.width().unwrap());
        }
    }
}

fn recombined(i: Interval<i32>) -> Interval<i32> {
    match i.complement() {
        Complement::One(piece) => match piece.complement() {
            Complement::One(whole) => whole,
            Complement::Two(_, _) => panic!("complement pieces are one-sided"),
        },
        Complement::Two(p1, p2) => {
            let c1 = match p1.complement() {
                Complement::One(whole) => whole,
                Complement::Two(_, _) => panic!("complement pieces are one-sided"),
            };
            let c2 = match p2.complement() {
                Complement::One(whole) => whole,
                Complement::Two(_, _) => panic!("complement pieces are one-sided"),
            };
            c1.intersect(&c2)
        }
    }
}

#[test]
fn double_complement_cases() {
    let bp = BoundPair::new(1, 5).unwrap();
    let shapes = [
        Interval::Closed { bound_pair: bp },
        Interval::Open { bound_pair: bp },
        Interval::LeftHalfOpen { bound_pair: bp },
        Interval::RightHalfOpen { bound_pair: bp },
        Interval::UnboundedClosedRight { right: 5 },
        Interval::UnboundedOpenRight { right: 5 },
        Interval::UnboundedClosedLeft { left: 1 },
        Interval::UnboundedOpenLeft { left: 1 },
        Interval::Singleton { at: 3 },
        Interval::Unbounded,
        Interval::Empty,
    ];
    for i in shapes.iter() {
        assert_eq!(recombined(*i), *i);
    }
}
