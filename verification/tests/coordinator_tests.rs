use view_loop::coordinator::{Config, Coordinator};
use view_loop::events::{ElementState, KeyEvent, Mode, Modifiers, ScrollAction, ScrollDelta};
use view_loop::rat::Scalar;
use view_loop::surface::{Backend, FbSize, Surface};
use view_loop::vec2::Vec2;

fn no_modifiers() -> Modifiers {
    Modifiers { shift: false, ctrl: false, alt: false, meta: false }
}

fn coordinator(pan: bool, zoom: bool) -> Coordinator {
    Coordinator {
        backend: Backend {
            window: Surface::new(Vec2::from_ints(600, 400), Scalar::from_int(1)).unwrap(),
        },
        cursor_pos: Vec2::from_ints(0, 0),
        dragging: false,
        modifiers: no_modifiers(),
        scale_factor: Scalar::from_int(1),
        window_size: Vec2::from_ints(600, 400),
        scale: Scalar::from_int(1),
        view_center: Vec2::from_ints(0, 0),
        page_nr: 0,
        redraw_requested: false,
        close: false,
        update_interval: None,
        config: Config { pan, zoom },
    }
}

#[test]
fn startup_reconciles_to_aligned_framebuffer() {
    // Window created at logical (600, 400), scale factor 1: the first
    // serviced redraw renders at framebuffer (608, 400).
    let mut c = coordinator(true, true);
    let step = c.on_redraw();
    assert!(!step.resize_surface);
    assert_eq!(step.framebuffer_size, FbSize { x: 608, y: 400 });
    assert!(!c.redraw_requested);
}

#[test]
fn redraw_after_window_shrink_repoints_framebuffer() {
    let mut c = coordinator(true, true);
    c.window_size = Vec2::from_ints(500, 400);
    let step = c.on_redraw();
    assert!(step.resize_surface);
    assert_eq!(step.framebuffer_size, FbSize { x: 512, y: 400 });
}

#[test]
fn drag_lifecycle_press_move_release() {
    let mut c = coordinator(true, true);
    c.scale = Scalar::from_int(2);
    c.cursor_pos = Vec2::from_ints(100, 100);
    c.modifiers.shift = true;

    // Shifted press with panning enabled: drag begins, no click.
    let click = c.on_mouse_button(ElementState::Pressed);
    assert!(click.is_none());
    assert!(c.dragging);

    // Cursor moves by (10, -4): the view center must move by exactly
    // -delta / scale = (-5, 2).
    let pan = c.on_cursor_moved(Vec2::from_ints(110, 96)).unwrap();
    assert!(pan.eq_val(&Vec2::from_ints(-5, 2)));
    assert!(c.cursor_pos.eq_val(&Vec2::from_ints(110, 96)));

    // Release while dragging: drag ends, no click.
    let click = c.on_mouse_button(ElementState::Released);
    assert!(click.is_none());
    assert!(!c.dragging);

    // A later move without a drag pans nothing.
    assert!(c.on_cursor_moved(Vec2::from_ints(120, 96)).is_none());
}

#[test]
fn unshifted_press_forwards_click_with_scene_position() {
    let mut c = coordinator(true, true);
    c.scale = Scalar::from_int(2);
    c.view_center = Vec2::from_ints(10, 20);
    c.cursor_pos = Vec2::from_ints(300, 200);
    c.page_nr = 7;
    let click = c.on_mouse_button(ElementState::Pressed).unwrap();
    assert_eq!(click.page_nr, 7);
    assert_eq!(click.state, ElementState::Pressed);
    assert!(click.pos.eq_val(&Vec2::from_ints(10, 20)));
    assert!(!c.dragging);
}

#[test]
fn press_without_pan_never_starts_drag() {
    let mut c = coordinator(false, true);
    c.modifiers.shift = true;
    let click = c.on_mouse_button(ElementState::Pressed);
    assert!(!c.dragging);
    // With panning disabled the click is forwarded under the plain scale.
    assert!(click.is_some());
}

#[test]
fn scroll_zoom_argument_is_exact() {
    // LineDelta(0, 3), ctrl held, zoom enabled: the zoom argument is
    // -0.02 * 3 * line_factor = -0.6, passed exactly.
    let mut c = coordinator(true, true);
    c.modifiers.ctrl = true;
    let action = c.on_scroll(ScrollDelta::Line(Vec2::from_ints(0, 3))).unwrap();
    match action {
        ScrollAction::Zoom(z) => assert!(z.eq_val(&Scalar::new(-3, 5))),
        ScrollAction::Pan(_) => panic!("expected a zoom step"),
    }
}

#[test]
fn pixel_and_line_deltas_with_equivalent_factors_agree() {
    // 30 pixel units and 3 line units convert to the same scene delta,
    // so they produce identical pan translations and zoom arguments.
    let mut c = coordinator(true, true);
    c.scale = Scalar::from_int(2);
    let by_pixel = c.on_scroll(ScrollDelta::Pixel(Vec2::from_ints(40, 30))).unwrap();
    let by_line = c.on_scroll(ScrollDelta::Line(Vec2::from_ints(4, 3))).unwrap();
    match (by_pixel, by_line) {
        (ScrollAction::Pan(a), ScrollAction::Pan(b)) => {
            assert!(a.eq_val(&b));
            assert!(a.eq_val(&Vec2::from_ints(-20, -15)));
        },
        _ => panic!("expected pan translations"),
    }

    c.modifiers.ctrl = true;
    let zoom_pixel = c.on_scroll(ScrollDelta::Pixel(Vec2::from_ints(0, 30))).unwrap();
    let zoom_line = c.on_scroll(ScrollDelta::Line(Vec2::from_ints(0, 3))).unwrap();
    match (zoom_pixel, zoom_line) {
        (ScrollAction::Zoom(a), ScrollAction::Zoom(b)) => assert!(a.eq_val(&b)),
        _ => panic!("expected zoom steps"),
    }
}

#[test]
fn scroll_with_nothing_enabled_does_nothing() {
    let c = coordinator(false, false);
    assert!(c.on_scroll(ScrollDelta::Line(Vec2::from_ints(0, 3))).is_none());
}

#[test]
fn close_forces_exit_over_pending_redraw() {
    let mut c = coordinator(true, true);
    assert_eq!(c.on_close_requested(), Mode::Exit);
    c.close = true;
    c.redraw_requested = true;
    let (schedule, mode) = c.end_of_iteration(Mode::Wait);
    assert!(schedule);
    assert_eq!(mode, Mode::Exit);
    let (_, mode) = c.end_of_iteration(Mode::WaitUntilFromDeadline);
    assert_eq!(mode, Mode::Exit);
}

#[test]
fn iteration_end_without_close_keeps_mode() {
    let c = coordinator(true, true);
    let (schedule, mode) = c.end_of_iteration(Mode::Wait);
    assert!(!schedule);
    assert_eq!(mode, Mode::Wait);
}

#[test]
fn timer_modes_follow_update_interval() {
    let mut c = coordinator(true, true);
    assert_eq!(c.on_init(), Mode::Wait);
    assert_eq!(c.on_timer(), Mode::Wait);
    assert!(c.redraw_requested);

    c.redraw_requested = false;
    c.update_interval = Some(Scalar::new(1, 30));
    assert_eq!(c.on_init(), Mode::WaitUntilFromNow);
    assert_eq!(c.on_timer(), Mode::WaitUntilFromDeadline);
    assert!(c.redraw_requested);
}

#[test]
fn platform_resize_updates_logical_size() {
    let mut c = coordinator(true, true);
    c.scale_factor = Scalar::from_int(2);
    c.on_resized(800, 600);
    assert!(c.redraw_requested);
    assert!(c.window_size.eq_val(&Vec2::from_ints(400, 300)));
}

#[test]
fn scale_factor_change_rewrites_proposed_size() {
    let mut c = coordinator(true, true);
    let authoritative = c.on_scale_factor_changed(Scalar::from_int(2), 800, 600);
    assert_eq!(authoritative, Some((800, 600)));
    assert!(c.scale_factor.eq_val(&Scalar::from_int(2)));
    assert!(c.window_size.eq_val(&Vec2::from_ints(400, 300)));
    assert!(c.redraw_requested);
}

#[test]
fn focus_requests_redraw() {
    let mut c = coordinator(true, true);
    c.on_focused();
    assert!(c.redraw_requested);
}

#[test]
fn key_event_carries_modifier_snapshot() {
    let mut c = coordinator(true, true);
    c.modifiers = Modifiers { shift: true, ctrl: false, alt: true, meta: false };
    let ev = c.on_key(ElementState::Pressed, 44);
    assert_eq!(
        ev,
        KeyEvent {
            state: ElementState::Pressed,
            modifiers: Modifiers { shift: true, ctrl: false, alt: true, meta: false },
            keycode: 44,
            cancelled: false,
        }
    );
}

#[test]
fn modifiers_snapshot_is_replaced() {
    let mut c = coordinator(true, true);
    let m = Modifiers { shift: false, ctrl: true, alt: false, meta: true };
    c.on_modifiers_changed(m);
    assert_eq!(c.modifiers, m);
}

#[test]
fn cursor_move_while_dragging_without_pan_does_nothing() {
    let mut c = coordinator(false, true);
    c.dragging = true;
    assert!(c.on_cursor_moved(Vec2::from_ints(50, 50)).is_none());
    assert!(c.cursor_pos.eq_val(&Vec2::from_ints(50, 50)));
}

#[test]
fn unrepresentable_drag_delta_is_refused() {
    let mut c = coordinator(true, true);
    c.dragging = true;
    c.cursor_pos = Vec2::new(Scalar::from_int(i64::MAX), Scalar::from_int(0));
    assert!(c.on_cursor_moved(Vec2::from_ints(-2, 0)).is_none());
}
