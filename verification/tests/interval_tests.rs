use raytracer::fx::Fx;
use raytracer::interval::Interval;

#[test]
fn contains_accepts_bounds_surrounds_rejects_them() {
    let i = Interval { min: Fx::from_int(1), max: Fx::from_int(5) };
    assert!(i.contains(Fx::from_int(1)));
    assert!(i.contains(Fx::from_int(5)));
    assert!(!i.surrounds(Fx::from_int(1)));
    assert!(!i.surrounds(Fx::from_int(5)));
    assert!(i.surrounds(Fx::from_int(3)));
    assert!(!i.contains(Fx::from_int(0)));
    assert!(!i.contains(Fx::from_int(6)));
}

#[test]
fn clamp_saturates_and_is_idempotent() {
    let i = Interval { min: Fx::from_int(1), max: Fx::from_int(5) };
    assert_eq!(i.clamp(Fx::from_int(0)), Fx::from_int(1));
    assert_eq!(i.clamp(Fx::from_int(9)), Fx::from_int(5));
    // identity on contained values
    assert_eq!(i.clamp(Fx::from_int(3)), Fx::from_int(3));
    // idempotence
    let samples: [i32; 5] = [-7, 0, 1, 3, 100];
    for s in samples {
        let once = i.clamp(Fx::from_int(s));
        assert_eq!(i.clamp(once), once);
    }
}

#[test]
fn empty_contains_nothing_universe_everything() {
    let e = Interval::empty();
    let u = Interval::universe();
    let samples: [i32; 4] = [-1000, 0, 1, 1000];
    for s in samples {
        assert!(!e.contains(Fx::from_int(s)));
        assert!(u.contains(Fx::from_int(s)));
    }
    assert_eq!(e.min, Fx::infinity());
    assert_eq!(e.max, Fx::neg_infinity());
    assert_eq!(u.min, Fx::neg_infinity());
    assert_eq!(u.max, Fx::infinity());
}
