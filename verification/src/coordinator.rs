//! The event coordinator: the dispatch decisions of the cooperative
//! loop.
//!
//! The surrounding loop owns the platform window and the GPU; for every
//! platform event it calls the matching method here.  Each method
//! mutates the interaction state and answers with the one outside
//! effect the loop must perform — render, forward a click, translate or
//! zoom the view, write back an authoritative size — so that every
//! decision of the loop is a verified function of state and event.

use vstd::prelude::*;
use crate::rat::{
    Rat, Scalar, rat_nonneg, rat_eq, rat_mul, rat_neg, rat_recip, rat_div,
    rat_from, rat_ceil, mul_ok,
};
use crate::vec2::{Rat2, Vec2, rat2_eq, rat2_sub, rat2_scale, sub2_ok, scale2_ok};
use crate::surface::{Backend, resized_transition};
use crate::events::{
    ElementState, Modifiers, KeyEvent, ScrollDelta, Mode, RenderStep, Click, ScrollAction,
};
use crate::transform::{
    to_scene, to_scene_pan, to_scene_plain, to_scene_pan_ok, to_scene_plain_ok,
    lemma_mul_congruence,
};

verus! {

/// Interaction abilities granted to the user.
#[derive(Clone, Copy, Debug)]
pub struct Config {
    pub pan: bool,
    pub zoom: bool,
}

/// Scene units per pixel-precise scroll unit.
pub open spec fn pixel_factor() -> Rat {
    Rat { n: 1, d: 1 }
}

/// Scene units per line-precise scroll unit.
pub open spec fn line_factor() -> Rat {
    Rat { n: 10, d: 1 }
}

/// The multiplier applied to a scene-space scroll delta to obtain the
/// zoom step argument.
pub open spec fn zoom_coeff() -> Rat {
    Rat { n: -1, d: 50 }
}

/// The configured scroll unit factors, pixel-precise then line-precise.
pub fn scroll_factors() -> (r: (Scalar, Scalar))
    ensures
        r.0.wf(),
        r.1.wf(),
        r.0@ == pixel_factor(),
        r.1@ == line_factor(),
{
    (Scalar::new(1, 1), Scalar::new(10, 1))
}

/// The zoom multiplier as a machine scalar.
pub fn zoom_coefficient() -> (r: Scalar)
    ensures
        r.wf(),
        r@ == zoom_coeff(),
{
    Scalar::new(-1, 50)
}

/// `-1 / s`, exact; never overflows for a positive scalar.
pub fn neg_recip(s: Scalar) -> (r: Scalar)
    requires
        s.wf(),
        s.num > 0,
    ensures
        r.wf(),
        r@ == rat_neg(rat_recip(s@)),
{
    Scalar { num: -s.den, den: s.num }
}

/// A platform scroll delta converted to scene units.
pub open spec fn scroll_scene_delta(d: ScrollDelta) -> Rat2 {
    match d {
        ScrollDelta::Pixel(v) => rat2_scale(v@, pixel_factor()),
        ScrollDelta::Line(v) => rat2_scale(v@, line_factor()),
    }
}

/// The conversion to scene units is representable.
pub open spec fn scroll_convert_ok(d: ScrollDelta) -> bool {
    match d {
        ScrollDelta::Pixel(v) => scale2_ok(v@, pixel_factor()),
        ScrollDelta::Line(v) => scale2_ok(v@, line_factor()),
    }
}

pub open spec fn scroll_wf(d: ScrollDelta) -> bool {
    match d {
        ScrollDelta::Pixel(v) => v.wf(),
        ScrollDelta::Line(v) => v.wf(),
    }
}

/// The view-center translation a scene-space delta causes: `-delta / scale`.
pub open spec fn pan_translation(delta: Rat2, scale: Rat) -> Rat2 {
    rat2_scale(delta, rat_neg(rat_recip(scale)))
}

/// The drag translation for a cursor move is representable.
pub open spec fn drag_ok(from_pos: Rat2, to_pos: Rat2, scale: Rat) -> bool {
    &&& sub2_ok(to_pos, from_pos)
    &&& scale2_ok(rat2_sub(to_pos, from_pos), rat_neg(rat_recip(scale)))
}

/// The logical size of one physical axis: `px / f`.
pub open spec fn logical_of(px: int, f: Rat) -> Rat {
    rat_div(rat_from(px), f)
}

pub open spec fn logical_ok(px: int, f: Rat) -> bool {
    mul_ok(rat_from(px), rat_recip(f))
}

/// The authoritative physical size of one axis: the logical size scaled
/// back to device pixels, taken to the next whole pixel.
pub open spec fn authoritative_axis(l: Rat, f: Rat) -> int {
    rat_ceil(rat_mul(l, f))
}

pub open spec fn authoritative_ok(l: Rat, f: Rat) -> bool {
    mul_ok(l, f) && 0 <= rat_ceil(rat_mul(l, f)) <= 0xFFFF_FFFF
}

/// The interaction state of the loop, beside the surface it drives.
pub struct Coordinator {
    pub backend: Backend,
    pub cursor_pos: Vec2,
    pub dragging: bool,
    pub modifiers: Modifiers,
    pub scale_factor: Scalar,
    pub window_size: Vec2,
    pub scale: Scalar,
    pub view_center: Vec2,
    pub page_nr: usize,
    pub redraw_requested: bool,
    pub close: bool,
    pub update_interval: Option<Scalar>,
    pub config: Config,
}

impl Coordinator {
    /// Well formed: the surface invariant holds, sizes are non-negative,
    /// and the zoom scale and DPI scale factor are positive.
    pub open spec fn wf(self) -> bool {
        &&& self.backend.window.wf()
        &&& self.cursor_pos.wf()
        &&& self.window_size.wf()
        &&& rat_nonneg(self.window_size@.x)
        &&& rat_nonneg(self.window_size@.y)
        &&& self.view_center.wf()
        &&& self.scale.wf()
        &&& self.scale.num > 0
        &&& self.scale_factor.wf()
        &&& self.scale_factor.num > 0
        &&& match self.update_interval {
            Some(dt) => dt.wf(),
            None => true,
        }
    }

    /// Loop start: block for events, or self-wake one interval from now
    /// when an update interval is configured.
    pub fn on_init(&self) -> (m: Mode)
        ensures
            m == (if self.update_interval is Some {
                Mode::WaitUntilFromNow
            } else {
                Mode::Wait
            }),
    {
        if self.update_interval.is_some() {
            Mode::WaitUntilFromNow
        } else {
            Mode::Wait
        }
    }

    /// Timer deadline reached: request a redraw; re-arm one interval
    /// past the deadline just reached (fixed cadence, not drift-corrected).
    pub fn on_timer(&mut self) -> (m: Mode)
        requires
            old(self).wf(),
        ensures
            final(self).wf(),
            *final(self) == (Coordinator { redraw_requested: true, ..*old(self) }),
            m == (if old(self).update_interval is Some {
                Mode::WaitUntilFromDeadline
            } else {
                Mode::Wait
            }),
    {
        self.redraw_requested = true;
        if self.update_interval.is_some() {
            Mode::WaitUntilFromDeadline
        } else {
            Mode::Wait
        }
    }

    /// A redraw is serviced: reconcile the framebuffer with the tracked
    /// window size, then hand the loop the reconciled framebuffer to
    /// render at; the redraw request is consumed.
    pub fn on_redraw(&mut self) -> (r: RenderStep)
        requires
            old(self).wf(),
        ensures
            final(self).wf(),
            final(self).backend.window.window_size == old(self).backend.window.window_size,
            (final(self).backend.window.framebuffer_size.x as int,
                final(self).backend.window.framebuffer_size.y as int, r.resize_surface)
                == resized_transition(
                    old(self).backend.window.framebuffer_size.x as int,
                    old(self).backend.window.framebuffer_size.y as int,
                    old(self).window_size@, old(self).scale_factor@),
            r.framebuffer_size == final(self).backend.window.framebuffer_size,
            *final(self) == (Coordinator {
                backend: final(self).backend,
                redraw_requested: false,
                ..*old(self)
            }),
    {
        let size = self.window_size;
        let f = self.scale_factor;
        let changed = self.backend.window.resized(size, f);
        self.redraw_requested = false;
        RenderStep {
            resize_surface: changed,
            framebuffer_size: self.backend.window.framebuffer_size(),
        }
    }

    /// DPI change: adopt the new scale factor, recompute the logical
    /// window size from the proposed physical size, and answer the
    /// authoritative physical size the platform must adopt; a redraw is
    /// requested.  A size whose exact quotient is not representable
    /// leaves the logical size untouched.
    pub fn on_scale_factor_changed(&mut self, new_factor: Scalar, width: u32, height: u32)
        -> (r: Option<(u32, u32)>)
        requires
            old(self).wf(),
            new_factor.wf(),
            new_factor.num > 0,
        ensures
            final(self).wf(),
            final(self).scale_factor == new_factor,
            final(self).redraw_requested,
            (logical_ok(width as int, new_factor@) && logical_ok(height as int, new_factor@))
                ==> final(self).window_size@ == (Rat2 {
                    x: logical_of(width as int, new_factor@),
                    y: logical_of(height as int, new_factor@),
                }),
            !(logical_ok(width as int, new_factor@) && logical_ok(height as int, new_factor@))
                ==> final(self).window_size == old(self).window_size,
            *final(self) == (Coordinator {
                scale_factor: new_factor,
                window_size: final(self).window_size,
                redraw_requested: true,
                ..*old(self)
            }),
            match r {
                Some((ax, ay)) => {
                    &&& authoritative_ok(final(self).window_size@.x, new_factor@)
                    &&& authoritative_ok(final(self).window_size@.y, new_factor@)
                    &&& ax as int == authoritative_axis(final(self).window_size@.x, new_factor@)
                    &&& ay as int == authoritative_axis(final(self).window_size@.y, new_factor@)
                },
                None => !(authoritative_ok(final(self).window_size@.x, new_factor@)
                    && authoritative_ok(final(self).window_size@.y, new_factor@)),
            },
    {
        self.scale_factor = new_factor;
        self.set_logical_from_physical(width, height, new_factor);
        self.redraw_requested = true;
        let ax = authoritative_axis_exec(self.window_size.x, new_factor);
        let ay = authoritative_axis_exec(self.window_size.y, new_factor);
        match (ax, ay) {
            (Some(ax), Some(ay)) => Some((ax, ay)),
            _ => None,
        }
    }

    /// Window resized by the platform: recompute the logical window
    /// size from the physical one and request a redraw.  The loop must
    /// then have the application re-validate its view bounds.
    pub fn on_resized(&mut self, width: u32, height: u32)
        requires
            old(self).wf(),
        ensures
            final(self).wf(),
            final(self).redraw_requested,
            (logical_ok(width as int, old(self).scale_factor@)
                && logical_ok(height as int, old(self).scale_factor@))
                ==> final(self).window_size@ == (Rat2 {
                    x: logical_of(width as int, old(self).scale_factor@),
                    y: logical_of(height as int, old(self).scale_factor@),
                }),
            !(logical_ok(width as int, old(self).scale_factor@)
                && logical_ok(height as int, old(self).scale_factor@))
                ==> final(self).window_size == old(self).window_size,
            *final(self) == (Coordinator {
                window_size: final(self).window_size,
                redraw_requested: true,
                ..*old(self)
            }),
    {
        let f = self.scale_factor;
        self.set_logical_from_physical(width, height, f);
        self.redraw_requested = true;
    }

    /// Focus gained: request a redraw.
    pub fn on_focused(&mut self)
        requires
            old(self).wf(),
        ensures
            final(self).wf(),
            *final(self) == (Coordinator { redraw_requested: true, ..*old(self) }),
    {
        self.redraw_requested = true;
    }

    /// Modifier snapshot replaced; nothing is forwarded downstream.
    pub fn on_modifiers_changed(&mut self, m: Modifiers)
        requires
            old(self).wf(),
        ensures
            final(self).wf(),
            *final(self) == (Coordinator { modifiers: m, ..*old(self) }),
    {
        self.modifiers = m;
    }

    /// Key input with a resolved key code: the semantic key event built
    /// from the current modifier snapshot, not yet cancelled.
    pub fn on_key(&self, state: ElementState, keycode: u32) -> (ev: KeyEvent)
        ensures
            ev == (KeyEvent { state, modifiers: self.modifiers, keycode, cancelled: false }),
    {
        KeyEvent { state, modifiers: self.modifiers, keycode, cancelled: false }
    }

    /// Pointer moved: the stored cursor position is always updated; while
    /// a drag is active and panning is enabled the view center must be
    /// translated by exactly `-delta / scale`, answered here as the
    /// translation to apply.
    pub fn on_cursor_moved(&mut self, pos: Vec2) -> (r: Option<Vec2>)
        requires
            old(self).wf(),
            pos.wf(),
        ensures
            final(self).wf(),
            *final(self) == (Coordinator { cursor_pos: pos, ..*old(self) }),
            !(old(self).dragging && old(self).config.pan) ==> r is None,
            old(self).dragging && old(self).config.pan ==> match r {
                Some(v) => {
                    &&& v.wf()
                    &&& v@ == pan_translation(
                        rat2_sub(pos@, old(self).cursor_pos@), old(self).scale@)
                    &&& drag_ok(old(self).cursor_pos@, pos@, old(self).scale@)
                },
                None => !drag_ok(old(self).cursor_pos@, pos@, old(self).scale@),
            },
    {
        let delta = pos.sub(self.cursor_pos);
        self.cursor_pos = pos;
        if self.dragging && self.config.pan {
            match delta {
                Some(d) => d.scale(neg_recip(self.scale)),
                None => None,
            }
        } else {
            None
        }
    }

    /// Primary mouse button: with panning enabled, a shifted press
    /// begins a drag and a release while dragging ends it, neither
    /// forwarding a click; otherwise the click is forwarded with the
    /// cursor's scene position under the composed view transform.
    pub fn on_mouse_button(&mut self, state: ElementState) -> (r: Option<Click>)
        requires
            old(self).wf(),
        ensures
            final(self).wf(),
            ({
                let press_drag = state == ElementState::Pressed && old(self).modifiers.shift
                    && old(self).config.pan;
                let release_drag = state == ElementState::Released && old(self).dragging;
                &&& press_drag ==> {
                    &&& *final(self) == (Coordinator { dragging: true, ..*old(self) })
                    &&& r is None
                }
                &&& !press_drag && release_drag ==> {
                    &&& *final(self) == (Coordinator { dragging: false, ..*old(self) })
                    &&& r is None
                }
                &&& !press_drag && !release_drag ==> {
                    &&& *final(self) == *old(self)
                    &&& match r {
                        Some(c) => {
                            &&& c.page_nr == old(self).page_nr
                            &&& c.state == state
                            &&& c.pos.wf()
                            &&& if old(self).config.pan {
                                c.pos@ == to_scene_pan(
                                    old(self).cursor_pos@, old(self).view_center@,
                                    old(self).scale@, old(self).scale_factor@,
                                    old(self).window_size@)
                            } else {
                                c.pos@ == to_scene_plain(
                                    old(self).cursor_pos@, old(self).scale@,
                                    old(self).scale_factor@)
                            }
                        },
                        None => if old(self).config.pan {
                            !to_scene_pan_ok(
                                old(self).cursor_pos@, old(self).view_center@,
                                old(self).scale@, old(self).scale_factor@,
                                old(self).window_size@)
                        } else {
                            !to_scene_plain_ok(
                                old(self).cursor_pos@, old(self).scale@,
                                old(self).scale_factor@)
                        },
                    }
                }
            }),
    {
        if state == ElementState::Pressed && self.modifiers.shift && self.config.pan {
            self.dragging = true;
            None
        } else if state == ElementState::Released && self.dragging {
            self.dragging = false;
            None
        } else {
            let scene = to_scene(
                self.cursor_pos, self.view_center, self.scale, self.scale_factor,
                self.window_size, self.config.pan);
            match scene {
                Some(v) => Some(Click { page_nr: self.page_nr, pos: v, state }),
                None => None,
            }
        }
    }

    /// Scroll: the platform delta converted to scene units drives a
    /// multiplicative zoom step when zooming is enabled and ctrl is
    /// held, else a pan translation when panning is enabled.
    pub fn on_scroll(&self, delta: ScrollDelta) -> (r: Option<ScrollAction>)
        requires
            self.wf(),
            scroll_wf(delta),
        ensures
            ({
                let dv = scroll_scene_delta(delta);
                let conv_ok = scroll_convert_ok(delta);
                let zooming = self.config.zoom && self.modifiers.ctrl;
                &&& zooming ==> match r {
                    Some(a) => {
                        &&& a matches ScrollAction::Zoom(z)
                            && z.wf() && z@ == rat_mul(dv.y, zoom_coeff())
                        &&& conv_ok && mul_ok(dv.y, zoom_coeff())
                    },
                    None => !(conv_ok && mul_ok(dv.y, zoom_coeff())),
                }
                &&& !zooming && self.config.pan ==> match r {
                    Some(a) => {
                        &&& a matches ScrollAction::Pan(v)
                            && v.wf() && v@ == pan_translation(dv, self.scale@)
                        &&& conv_ok && scale2_ok(dv, rat_neg(rat_recip(self.scale@)))
                    },
                    None => !(conv_ok && scale2_ok(dv, rat_neg(rat_recip(self.scale@)))),
                }
                &&& !zooming && !self.config.pan ==> r is None
            }),
    {
        let factors = scroll_factors();
        let converted = match delta {
            ScrollDelta::Pixel(v) => v.scale(factors.0),
            ScrollDelta::Line(v) => v.scale(factors.1),
        };
        match converted {
            Some(d) => {
                if self.config.zoom && self.modifiers.ctrl {
                    match d.y.mul(zoom_coefficient()) {
                        Some(z) => Some(ScrollAction::Zoom(z)),
                        None => None,
                    }
                } else if self.config.pan {
                    match d.scale(neg_recip(self.scale)) {
                        Some(v) => Some(ScrollAction::Pan(v)),
                        None => None,
                    }
                } else {
                    None
                }
            },
            None => None,
        }
    }

    /// Close requested: the loop terminates.
    pub fn on_close_requested(&self) -> (m: Mode)
        ensures
            m == Mode::Exit,
    {
        Mode::Exit
    }

    /// End of every iteration: report whether a platform repaint must be
    /// scheduled, and force the exit mode when the close flag is set,
    /// regardless of the mode the iteration produced.
    pub fn end_of_iteration(&self, m: Mode) -> (r: (bool, Mode))
        ensures
            r.0 == self.redraw_requested,
            r.1 == (if self.close { Mode::Exit } else { m }),
    {
        let mode = if self.close { Mode::Exit } else { m };
        (self.redraw_requested, mode)
    }

    /// Recomputes the logical window size from a physical size, exactly;
    /// an unrepresentable quotient leaves the stored size unchanged.
    fn set_logical_from_physical(&mut self, width: u32, height: u32, f: Scalar)
        requires
            old(self).wf(),
            f.wf(),
            f.num > 0,
        ensures
            (logical_ok(width as int, f@) && logical_ok(height as int, f@))
                ==> final(self).window_size@ == (Rat2 {
                    x: logical_of(width as int, f@),
                    y: logical_of(height as int, f@),
                }),
            !(logical_ok(width as int, f@) && logical_ok(height as int, f@))
                ==> final(self).window_size == old(self).window_size,
            final(self).window_size.wf(),
            rat_nonneg(final(self).window_size@.x),
            rat_nonneg(final(self).window_size@.y),
            *final(self) == (Coordinator {
                window_size: final(self).window_size,
                ..*old(self)
            }),
    {
        let rf = match f.recip() {
            Some(rf) => rf,
            None => {
                proof {
                    assert(false);
                }
                return ;
            },
        };
        let lx = Scalar::from_int(width as i64).mul(rf);
        let ly = Scalar::from_int(height as i64).mul(rf);
        match (lx, ly) {
            (Some(x), Some(y)) => {
                proof {
                    assert(x.num as int >= 0 && y.num as int >= 0) by (nonlinear_arith)
                        requires
                            x.num as int == (width as int) * (rf@.n),
                            y.num as int == (height as int) * (rf@.n),
                            rf@.n > 0,
                            width as int >= 0,
                            height as int >= 0,
                    ;
                }
                self.window_size = Vec2 { x, y };
            },
            _ => {},
        }
    }
}

/// The authoritative physical size of one axis, as the platform takes
/// it.  `None` exactly when it is not representable in 32 bits.
fn authoritative_axis_exec(l: Scalar, f: Scalar) -> (r: Option<u32>)
    requires
        l.wf(),
        f.wf(),
        l.num >= 0,
        f.num > 0,
    ensures
        match r {
            Some(v) => v as int == authoritative_axis(l@, f@) && authoritative_ok(l@, f@),
            None => !authoritative_ok(l@, f@),
        },
{
    match l.mul(f) {
        Some(p) => {
            proof {
                assert(p@.n >= 0) by (nonlinear_arith)
                    requires
                        p@.n == l@.n * f@.n,
                        l@.n >= 0,
                        f@.n > 0,
                ;
            }
            let c: i64 = p.ceil_nonneg();
            if c <= 0xFFFF_FFFFi64 {
                Some(c as u32)
            } else {
                None
            }
        },
        None => None,
    }
}

/// Scroll-unit equivalence: a pixel-precise delta and a line-precise
/// delta that convert to the same scene-space delta produce the same
/// zoom argument and the same pan translation.
pub proof fn lemma_scroll_unit_equivalence(pv: Rat2, lv: Rat2, scale: Rat)
    requires
        rat2_eq(rat2_scale(pv, pixel_factor()), rat2_scale(lv, line_factor())),
    ensures
        rat_eq(
            rat_mul(rat2_scale(pv, pixel_factor()).y, zoom_coeff()),
            rat_mul(rat2_scale(lv, line_factor()).y, zoom_coeff())),
        rat2_eq(
            pan_translation(rat2_scale(pv, pixel_factor()), scale),
            pan_translation(rat2_scale(lv, line_factor()), scale)),
{
    let d1 = rat2_scale(pv, pixel_factor());
    let d2 = rat2_scale(lv, line_factor());
    lemma_mul_congruence(d1.y, d2.y, zoom_coeff());
    lemma_mul_congruence(d1.x, d2.x, rat_neg(rat_recip(scale)));
    lemma_mul_congruence(d1.y, d2.y, rat_neg(rat_recip(scale)));
}

} // verus!
