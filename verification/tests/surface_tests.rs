use view_loop::rat::Scalar;
use view_loop::surface::{Backend, FbSize, Surface};
use view_loop::vec2::Vec2;

fn surface_600_400() -> Surface {
    Surface::new(Vec2::from_ints(600, 400), Scalar::from_int(1)).unwrap()
}

#[test]
fn initial_framebuffer_is_tile_aligned() {
    // 600 rounds up to 608; 400 is already a multiple of 16.
    let s = surface_600_400();
    assert_eq!(s.framebuffer_size(), FbSize { x: 608, y: 400 });
}

#[test]
fn framebuffer_respects_scale_factor() {
    // 100 * 1.5 = 150 -> 160; 33 * 1.5 = 49.5 -> 50 -> 64.
    let s = Surface::new(Vec2::from_ints(100, 33), Scalar::new(3, 2)).unwrap();
    assert_eq!(s.framebuffer_size(), FbSize { x: 160, y: 64 });
}

#[test]
fn framebuffer_exact_multiple_stays() {
    let s = Surface::new(Vec2::from_ints(32, 16), Scalar::from_int(1)).unwrap();
    assert_eq!(s.framebuffer_size(), FbSize { x: 32, y: 16 });
}

#[test]
fn resized_updates_then_is_idempotent() {
    let mut s = surface_600_400();
    let first = s.resized(Vec2::from_ints(500, 400), Scalar::from_int(1));
    assert!(first);
    assert_eq!(s.framebuffer_size(), FbSize { x: 512, y: 400 });
    let second = s.resized(Vec2::from_ints(500, 400), Scalar::from_int(1));
    assert!(!second);
    assert_eq!(s.framebuffer_size(), FbSize { x: 512, y: 400 });
}

#[test]
fn resized_same_size_is_noop() {
    let mut s = surface_600_400();
    assert!(!s.resized(Vec2::from_ints(600, 400), Scalar::from_int(1)));
    assert_eq!(s.framebuffer_size(), FbSize { x: 608, y: 400 });
}

#[test]
fn resize_changes_once_then_noop() {
    let mut s = surface_600_400();
    assert!(s.resize(Vec2::from_ints(640, 480)));
    assert!(!s.resize(Vec2::from_ints(640, 480)));
    assert!(s.window_size.eq_val(&Vec2::from_ints(640, 480)));
}

#[test]
fn resize_equal_value_different_representation_is_noop() {
    let mut s = surface_600_400();
    // 1200/2 has the value 600: no resize is issued.
    let same = Vec2::new(Scalar::new(1200, 2), Scalar::new(800, 2));
    assert!(!s.resize(same));
}

#[test]
fn backend_forwards_resize() {
    let mut b = Backend { window: surface_600_400() };
    assert!(b.resize(Vec2::from_ints(300, 200)));
    assert!(!b.resize(Vec2::from_ints(300, 200)));
}

#[test]
fn huge_size_is_rejected() {
    // A logical size whose device extent exceeds the framebuffer range.
    let s = Surface::new(
        Vec2::new(Scalar::from_int(i64::MAX / 2), Scalar::from_int(100)),
        Scalar::from_int(4),
    );
    assert!(s.is_none());
}
