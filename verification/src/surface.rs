//! The surface model: the logical window size and the device-pixel
//! framebuffer size of the single on-screen surface.
//!
//! The renderer tiles the framebuffer in fixed 16-pixel blocks, so the
//! framebuffer size is always the per-axis ceiling of `logical size x
//! scale factor`, rounded up to the next multiple of 16.  The platform
//! window handle, the GPU context and the renderer instance live outside
//! the library; this module owns every size decision made about them.

use vstd::prelude::*;
use crate::rat::{Rat, Scalar, rat_wf, rat_nonneg, rat_mul, rat_ceil, rat_le_int, mul_ok};
use crate::vec2::{Rat2, Vec2, rat2_eq, rat2_wf};

verus! {

/// The largest per-axis device size the framebuffer may take; one more
/// tile still fits the signed 32-bit framebuffer coordinate.
pub const MAX_DEVICE_AXIS: i64 = 0x7FFF_FFF0;

/// `i` rounded up to the next multiple of 16.
pub open spec fn round_up_tile(i: int) -> int {
    ((i + 15) / 16) * 16
}

/// The framebuffer size of one axis: the logical size times the scale
/// factor, taken to the next whole device pixel, then tile-aligned.
pub open spec fn fb_axis(s: Rat, f: Rat) -> int {
    round_up_tile(rat_ceil(rat_mul(s, f)))
}

/// The framebuffer for this logical size and scale factor is representable.
pub open spec fn fb_fits(size: Rat2, f: Rat) -> bool {
    &&& mul_ok(size.x, f)
    &&& mul_ok(size.y, f)
    &&& rat_ceil(rat_mul(size.x, f)) <= 0x7FFF_FFF0
    &&& rat_ceil(rat_mul(size.y, f)) <= 0x7FFF_FFF0
}

/// Rounding up to a tile keeps the value within one tile and aligned.
pub proof fn lemma_round_up_tile(i: int)
    requires
        i >= 0,
    ensures
        round_up_tile(i) % 16 == 0,
        i <= round_up_tile(i) < i + 16,
{
    let q = (i + 15) / 16;
    let r = (i + 15) % 16;
    vstd::arithmetic::div_mod::lemma_fundamental_div_mod(i + 15, 16);
    vstd::arithmetic::div_mod::lemma_mod_bound(i + 15, 16);
    vstd::arithmetic::div_mod::lemma_mod_multiples_basic(q, 16);
    assert(q * 16 == 16 * q);
}

/// The ceiling of a well-formed rational sits less than one below it and
/// not below it: `c - 1 < a <= c`.
pub proof fn lemma_rat_ceil(a: Rat)
    requires
        rat_wf(a),
    ensures
        rat_le_int(a, rat_ceil(a)),
        !rat_le_int(a, rat_ceil(a) - 1),
{
    let q = a.n / a.d;
    let r = a.n % a.d;
    vstd::arithmetic::div_mod::lemma_fundamental_div_mod(a.n, a.d);
    vstd::arithmetic::div_mod::lemma_mod_bound(a.n, a.d);
    if r == 0 {
        assert(a.n <= q * a.d && a.n > (q - 1) * a.d) by (nonlinear_arith)
            requires
                a.n == q * a.d,
                a.d > 0,
        ;
    } else {
        assert(a.n <= (q + 1) * a.d && a.n > q * a.d) by (nonlinear_arith)
            requires
                a.n == q * a.d + r,
                0 < r < a.d,
        ;
    }
}

/// The per-axis framebuffer size is the smallest multiple of 16 that is
/// at least the logical size times the scale factor.
pub proof fn lemma_fb_axis_smallest_aligned(s: Rat, f: Rat)
    requires
        rat_wf(s),
        rat_wf(f),
        rat_nonneg(s),
        rat_nonneg(f),
    ensures
        fb_axis(s, f) % 16 == 0,
        rat_le_int(rat_mul(s, f), fb_axis(s, f)),
        !rat_le_int(rat_mul(s, f), fb_axis(s, f) - 16),
        fb_axis(s, f) >= 0,
{
    let p = rat_mul(s, f);
    assert(p.n >= 0 && p.d > 0) by (nonlinear_arith)
        requires
            s.n >= 0,
            f.n >= 0,
            s.d > 0,
            f.d > 0,
            p.n == s.n * f.n,
            p.d == s.d * f.d,
    ;
    let c = rat_ceil(p);
    lemma_rat_ceil(p);
    assert(c >= 0) by {
        if c < 0 {
            assert(p.n <= (c) * p.d <= -p.d) by (nonlinear_arith)
                requires
                    p.n <= c * p.d,
                    c <= -1,
                    p.d > 0,
            ;
        }
    }
    lemma_round_up_tile(c);
    let r = round_up_tile(c);
    // r - 16 <= c - 1, so a value below c - 1 is below r - 16 as well.
    assert(p.n <= (r - 16) * p.d ==> p.n <= (c - 1) * p.d) by (nonlinear_arith)
        requires
            r - 16 <= c - 1,
            p.d > 0,
    ;
    // p <= c <= r.
    assert(p.n <= c * p.d ==> p.n <= r * p.d) by (nonlinear_arith)
        requires
            c <= r,
            p.d > 0,
    ;
}

/// Device-pixel framebuffer dimensions, always tile-aligned.
#[derive(Clone, Copy, Debug, PartialEq, Eq, Structural)]
pub struct FbSize {
    pub x: i32,
    pub y: i32,
}

/// One axis of the framebuffer, computed with checked arithmetic.
/// `None` exactly when the device size is not representable.
pub fn fb_axis_exec(s: Scalar, f: Scalar) -> (r: Option<i32>)
    requires
        s.wf(),
        f.wf(),
        s.num >= 0,
        f.num >= 0,
    ensures
        match r {
            Some(v) => {
                &&& v as int == fb_axis(s@, f@)
                &&& mul_ok(s@, f@)
                &&& rat_ceil(rat_mul(s@, f@)) <= 0x7FFF_FFF0
            },
            None => !(mul_ok(s@, f@) && rat_ceil(rat_mul(s@, f@)) <= 0x7FFF_FFF0),
        },
{
    match s.mul(f) {
        Some(p) => {
            proof {
                assert(p@.n >= 0) by (nonlinear_arith)
                    requires
                        s@.n >= 0,
                        f@.n >= 0,
                        p@.n == s@.n * f@.n,
                ;
            }
            let c: i64 = p.ceil_nonneg();
            if c <= MAX_DEVICE_AXIS {
                proof {
                    lemma_round_up_tile(c as int);
                }
                let aligned: u64 = (((c as u64) + 15) / 16) * 16;
                Some(aligned as i32)
            } else {
                None
            }
        },
        None => None,
    }
}

/// The surface: logical window size beside the tile-aligned framebuffer.
pub struct Surface {
    pub window_size: Vec2,
    pub framebuffer_size: FbSize,
}

/// The decision `resize` takes: whether the platform window must be
/// resized and a redraw requested.
pub open spec fn resize_transition(st: Surface, size: Vec2) -> (Surface, bool) {
    if !rat2_eq(size@, st.window_size@) {
        (Surface { window_size: size, framebuffer_size: st.framebuffer_size }, true)
    } else {
        (st, false)
    }
}

/// The decision `resized` takes on the framebuffer, per axis, as a
/// function of the old framebuffer, the logical size and the scale
/// factor: the new framebuffer and whether the GPU surface must change.
pub open spec fn resized_transition(fbx: int, fby: int, size: Rat2, f: Rat) -> (int, int, bool) {
    if fb_fits(size, f) {
        let nx = fb_axis(size.x, f);
        let ny = fb_axis(size.y, f);
        if nx == fbx && ny == fby {
            (fbx, fby, false)
        } else {
            (nx, ny, true)
        }
    } else {
        (fbx, fby, false)
    }
}

impl Surface {
    /// Well formed: sizes are non-negative and the framebuffer is
    /// tile-aligned.
    pub open spec fn wf(self) -> bool {
        &&& self.window_size.wf()
        &&& rat_nonneg(self.window_size@.x)
        &&& rat_nonneg(self.window_size@.y)
        &&& self.framebuffer_size.x >= 0
        &&& self.framebuffer_size.y >= 0
        &&& self.framebuffer_size.x % 16 == 0
        &&& self.framebuffer_size.y % 16 == 0
    }

    /// Creates the surface model for an initial logical size and scale
    /// factor.  `None` exactly when the device size is not representable.
    pub fn new(window_size: Vec2, scale_factor: Scalar) -> (r: Option<Surface>)
        requires
            window_size.wf(),
            rat_nonneg(window_size@.x),
            rat_nonneg(window_size@.y),
            scale_factor.wf(),
            scale_factor.num >= 0,
        ensures
            match r {
                Some(s) => {
                    &&& s.wf()
                    &&& s.window_size == window_size
                    &&& s.framebuffer_size.x as int == fb_axis(window_size@.x, scale_factor@)
                    &&& s.framebuffer_size.y as int == fb_axis(window_size@.y, scale_factor@)
                    &&& fb_fits(window_size@, scale_factor@)
                },
                None => !fb_fits(window_size@, scale_factor@),
            },
    {
        let x = fb_axis_exec(window_size.x, scale_factor);
        let y = fb_axis_exec(window_size.y, scale_factor);
        match (x, y) {
            (Some(x), Some(y)) => {
                proof {
                    lemma_fb_axis_smallest_aligned(window_size@.x, scale_factor@);
                    lemma_fb_axis_smallest_aligned(window_size@.y, scale_factor@);
                }
                Some(Surface { window_size, framebuffer_size: FbSize { x, y } })
            },
            _ => None,
        }
    }

    /// A logical resize request: updates the stored window size only when
    /// the requested size differs in value.  The result says whether the
    /// platform window must be resized and a redraw requested; a repeated
    /// call with the same size is a no-op.
    pub fn resize(&mut self, size: Vec2) -> (changed: bool)
        requires
            old(self).wf(),
            size.wf(),
            rat_nonneg(size@.x),
            rat_nonneg(size@.y),
        ensures
            (*final(self), changed) == resize_transition(*old(self), size),
            final(self).wf(),
    {
        if !size.eq_val(&self.window_size) {
            self.window_size = size;
            true
        } else {
            false
        }
    }

    /// Reconciles the framebuffer with a logical size: converts to device
    /// pixels, rounds each axis up to the next multiple of 16, and mutates
    /// the stored framebuffer only when that differs.  The result says
    /// whether the GPU surface and the renderer's destination framebuffer
    /// must be repointed.  A size whose device extent is not representable
    /// leaves the surface untouched.
    pub fn resized(&mut self, size: Vec2, scale_factor: Scalar) -> (changed: bool)
        requires
            old(self).wf(),
            size.wf(),
            rat_nonneg(size@.x),
            rat_nonneg(size@.y),
            scale_factor.wf(),
            scale_factor.num >= 0,
        ensures
            final(self).window_size == old(self).window_size,
            final(self).wf(),
            (final(self).framebuffer_size.x as int, final(self).framebuffer_size.y as int,
                changed)
                == resized_transition(
                    old(self).framebuffer_size.x as int,
                    old(self).framebuffer_size.y as int, size@, scale_factor@),
    {
        let x = fb_axis_exec(size.x, scale_factor);
        let y = fb_axis_exec(size.y, scale_factor);
        match (x, y) {
            (Some(nx), Some(ny)) => {
                proof {
                    lemma_fb_axis_smallest_aligned(size@.x, scale_factor@);
                    lemma_fb_axis_smallest_aligned(size@.y, scale_factor@);
                }
                if nx != self.framebuffer_size.x || ny != self.framebuffer_size.y {
                    self.framebuffer_size = FbSize { x: nx, y: ny };
                    true
                } else {
                    false
                }
            },
            _ => false,
        }
    }

    /// The current framebuffer size, in device pixels.
    pub fn framebuffer_size(&self) -> (r: FbSize)
        ensures
            r == self.framebuffer_size,
    {
        self.framebuffer_size
    }
}

/// Reconciling twice with the same logical size and scale factor mutates
/// nothing the second time: the framebuffer transition is idempotent.
pub proof fn lemma_resized_idempotent(fbx: int, fby: int, size: Rat2, f: Rat)
    ensures
        ({
            let (nx, ny, _) = resized_transition(fbx, fby, size, f);
            resized_transition(nx, ny, size, f) == (nx, ny, false)
        }),
{
}

/// Requesting the same logical size twice is a no-op the second time:
/// the window-size transition reports no change and keeps the state.
pub proof fn lemma_resize_idempotent(st: Surface, size: Vec2)
    ensures
        ({
            let (st1, _) = resize_transition(st, size);
            resize_transition(st1, size) == (st1, false)
        }),
{
}

/// The platform half of the surface: the part the loop hands resize
/// requests through.
pub struct Backend {
    pub window: Surface,
}

impl Backend {
    /// Forwards a logical resize request to the surface; the result says
    /// whether the platform window must be resized and a redraw requested.
    pub fn resize(&mut self, size: Vec2) -> (changed: bool)
        requires
            old(self).window.wf(),
            size.wf(),
            rat_nonneg(size@.x),
            rat_nonneg(size@.y),
        ensures
            (final(self).window, changed) == resize_transition(old(self).window, size),
            final(self).window.wf(),
    {
        self.window.resize(size)
    }
}

} // verus!
