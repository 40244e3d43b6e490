use cardtrace::hit::{is_lit, may_reflect, HitKind, Nearest};

#[test]
fn scan_starts_on_floor_or_sky() {
    assert_eq!(Nearest::start(true), Nearest { kind: HitKind::Floor, sphere: None });
    assert_eq!(Nearest::start(false), Nearest { kind: HitKind::Sky, sphere: None });
}

#[test]
fn ray_straight_up_meets_nothing() {
    let mut n = Nearest::start(false);
    for i in 0..53 {
        n.offer(i, false);
    }
    assert_eq!(n.kind, HitKind::Sky);
    assert_eq!(n.sphere, None);
}

#[test]
fn floor_stays_when_no_sphere_is_nearer() {
    let mut n = Nearest::start(true);
    for i in 0..53 {
        n.offer(i, false);
    }
    assert_eq!(n, Nearest { kind: HitKind::Floor, sphere: None });
}

#[test]
fn last_nearer_sphere_wins() {
    let mut n = Nearest::start(true);
    n.offer(0, false);
    n.offer(1, true);
    n.offer(2, false);
    n.offer(3, true);
    n.offer(4, false);
    assert_eq!(n, Nearest { kind: HitKind::Sphere, sphere: Some(3) });
}

#[test]
fn lit_only_when_facing_and_unshadowed() {
    assert!(is_lit(true, HitKind::Sky));
    assert!(!is_lit(true, HitKind::Floor));
    assert!(!is_lit(true, HitKind::Sphere));
    assert!(!is_lit(false, HitKind::Sky));
}

#[test]
fn reflection_limit() {
    assert!(may_reflect(1000, None));
    assert!(may_reflect(2, Some(3)));
    assert!(!may_reflect(3, Some(3)));
    assert!(!may_reflect(0, Some(0)));
}
