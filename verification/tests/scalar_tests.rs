use view_loop::rat::Scalar;
use view_loop::transform::to_scene;
use view_loop::vec2::Vec2;

#[test]
fn rational_arithmetic_is_exact() {
    let a = Scalar::new(1, 3);
    let b = Scalar::new(1, 6);
    let sum = a.add(b).unwrap();
    // 1/3 + 1/6 = 1/2.
    assert!(sum.eq_val(&Scalar::new(1, 2)));
    let prod = a.mul(b).unwrap();
    assert!(prod.eq_val(&Scalar::new(1, 18)));
    let diff = a.sub(b).unwrap();
    assert!(diff.eq_val(&Scalar::new(1, 6)));
}

#[test]
fn equality_is_by_value() {
    assert!(Scalar::new(2, 4).eq_val(&Scalar::new(1, 2)));
    assert!(!Scalar::new(2, 4).eq_val(&Scalar::new(1, 3)));
    assert!(Scalar::new(-3, 6).eq_val(&Scalar::new(-1, 2)));
}

#[test]
fn overflowing_product_is_refused() {
    let big = Scalar::from_int(i64::MAX);
    assert!(big.mul(Scalar::from_int(2)).is_none());
    assert!(big.add(Scalar::new(1, 2)).is_none());
}

#[test]
fn reciprocal_of_zero_is_refused() {
    assert!(Scalar::from_int(0).recip().is_none());
    let r = Scalar::new(-2, 3).recip().unwrap();
    assert!(r.eq_val(&Scalar::new(-3, 2)));
}

#[test]
fn ceiling_of_nonnegative_scalar() {
    assert_eq!(Scalar::new(99, 2).ceil_nonneg(), 50);
    assert_eq!(Scalar::new(100, 2).ceil_nonneg(), 50);
    assert_eq!(Scalar::from_int(0).ceil_nonneg(), 0);
}

#[test]
fn scene_position_under_pan_transform() {
    // Window 600x400, center (10, 20), zoom 2, DPI 1: the window middle
    // maps to the view center.
    let center = Vec2::from_ints(10, 20);
    let scale = Scalar::from_int(2);
    let dpi = Scalar::from_int(1);
    let w = Vec2::from_ints(600, 400);
    let mid = to_scene(Vec2::from_ints(300, 200), center, scale, dpi, w, true).unwrap();
    assert!(mid.eq_val(&Vec2::from_ints(10, 20)));
    // The window origin maps to center - (w/2) / (scale * dpi).
    let origin = to_scene(Vec2::from_ints(0, 0), center, scale, dpi, w, true).unwrap();
    assert!(origin.eq_val(&Vec2::from_ints(-140, -80)));
}

#[test]
fn scene_position_without_pan_is_plain_scale() {
    let scale = Scalar::from_int(2);
    let dpi = Scalar::from_int(1);
    let p = to_scene(
        Vec2::from_ints(300, 200),
        Vec2::from_ints(999, 999),
        scale,
        dpi,
        Vec2::from_ints(600, 400),
        false,
    )
    .unwrap();
    assert!(p.eq_val(&Vec2::from_ints(150, 100)));
}

#[test]
fn scene_position_accounts_for_dpi() {
    // zoom 1, DPI 2: a pixel maps to half a scene unit.
    let p = to_scene(
        Vec2::from_ints(100, 50),
        Vec2::from_ints(0, 0),
        Scalar::from_int(1),
        Scalar::from_int(2),
        Vec2::from_ints(0, 0),
        false,
    )
    .unwrap();
    assert!(p.eq_val(&Vec2::new(Scalar::new(50, 1), Scalar::new(25, 1))));
}

#[test]
fn zero_view_scale_is_refused() {
    // A zoom scale of zero has no inverse transform.
    let r = to_scene(
        Vec2::from_ints(1, 1),
        Vec2::from_ints(0, 0),
        Scalar::from_int(0),
        Scalar::from_int(1),
        Vec2::from_ints(600, 400),
        true,
    );
    assert!(r.is_none());
}

#[test]
fn vector_sum_is_componentwise() {
    let a = Vec2::new(Scalar::new(1, 2), Scalar::new(3, 4));
    let b = Vec2::new(Scalar::new(1, 2), Scalar::new(1, 4));
    let sum = a.add(b).unwrap();
    assert!(sum.eq_val(&Vec2::new(Scalar::from_int(1), Scalar::from_int(1))));
}
