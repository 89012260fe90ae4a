//! The view transform: the mapping from raw pointer pixels to scene
//! coordinates, and its inverse.
//!
//! With panning enabled the mapping is `translate(view_center) o
//! scale(1 / (scale * scale_factor)) o translate(-window_size / 2)`;
//! with panning disabled it is the plain uniform scale.  Click and drag
//! coordinates are derived from this single composed transform, and the
//! round-trip lemmas at the bottom prove that inverting it reproduces
//! the pointer position exactly.

use vstd::prelude::*;
use crate::rat::{
    Rat, Scalar, rat_wf, rat_eq, rat_mul, rat_sub, rat_add, rat_recip,
    mul_ok, sub_ok, add_ok, recip_ok,
};
use crate::vec2::{Rat2, Vec2, rat2_wf, rat2_eq, rat2_scale};

verus! {

pub open spec fn rat_half() -> Rat {
    Rat { n: 1, d: 2 }
}

/// The uniform scene-per-pixel factor `1 / (scale * scale_factor)`.
pub open spec fn view_scale(scale: Rat, f: Rat) -> Rat {
    rat_recip(rat_mul(scale, f))
}

/// One axis of the panning transform: `s * (p - w/2) + center`.
pub open spec fn to_scene_axis_pan(p: Rat, c: Rat, s: Rat, hw: Rat) -> Rat {
    rat_add(rat_mul(rat_sub(p, hw), s), c)
}

/// Pointer pixels to scene coordinates, panning enabled.
pub open spec fn to_scene_pan(p: Rat2, center: Rat2, scale: Rat, f: Rat, w: Rat2) -> Rat2 {
    let s = view_scale(scale, f);
    Rat2 {
        x: to_scene_axis_pan(p.x, center.x, s, rat_mul(w.x, rat_half())),
        y: to_scene_axis_pan(p.y, center.y, s, rat_mul(w.y, rat_half())),
    }
}

/// Pointer pixels to scene coordinates, panning disabled: the plain
/// uniform scale.
pub open spec fn to_scene_plain(p: Rat2, scale: Rat, f: Rat) -> Rat2 {
    rat2_scale(p, view_scale(scale, f))
}

/// One axis of the inverse panning transform: `(q - center) * (scale *
/// scale_factor) + w/2`.
pub open spec fn from_scene_axis_pan(q: Rat, c: Rat, t: Rat, hw: Rat) -> Rat {
    rat_add(rat_mul(rat_sub(q, c), t), hw)
}

/// Scene coordinates back to pointer pixels, panning enabled.
pub open spec fn from_scene_pan(q: Rat2, center: Rat2, scale: Rat, f: Rat, w: Rat2) -> Rat2 {
    let t = rat_mul(scale, f);
    Rat2 {
        x: from_scene_axis_pan(q.x, center.x, t, rat_mul(w.x, rat_half())),
        y: from_scene_axis_pan(q.y, center.y, t, rat_mul(w.y, rat_half())),
    }
}

/// Scene coordinates back to pointer pixels, panning disabled.
pub open spec fn from_scene_plain(q: Rat2, scale: Rat, f: Rat) -> Rat2 {
    rat2_scale(q, rat_mul(scale, f))
}

/// Every checked step of the panning transform is representable.
pub open spec fn to_scene_pan_ok(p: Rat2, center: Rat2, scale: Rat, f: Rat, w: Rat2) -> bool {
    let s = view_scale(scale, f);
    let hx = rat_mul(w.x, rat_half());
    let hy = rat_mul(w.y, rat_half());
    &&& mul_ok(scale, f)
    &&& recip_ok(rat_mul(scale, f))
    &&& mul_ok(w.x, rat_half())
    &&& mul_ok(w.y, rat_half())
    &&& sub_ok(p.x, hx)
    &&& sub_ok(p.y, hy)
    &&& mul_ok(rat_sub(p.x, hx), s)
    &&& mul_ok(rat_sub(p.y, hy), s)
    &&& add_ok(rat_mul(rat_sub(p.x, hx), s), center.x)
    &&& add_ok(rat_mul(rat_sub(p.y, hy), s), center.y)
}

/// Every checked step of the plain transform is representable.
pub open spec fn to_scene_plain_ok(p: Rat2, scale: Rat, f: Rat) -> bool {
    &&& mul_ok(scale, f)
    &&& recip_ok(rat_mul(scale, f))
    &&& mul_ok(p.x, view_scale(scale, f))
    &&& mul_ok(p.y, view_scale(scale, f))
}

/// Computes the scene position of a pointer position under the composed
/// view transform.  `None` exactly when a step of the exact arithmetic
/// is not representable.
pub fn to_scene(p: Vec2, center: Vec2, scale: Scalar, f: Scalar, w: Vec2, pan: bool)
    -> (r: Option<Vec2>)
    requires
        p.wf(),
        center.wf(),
        scale.wf(),
        f.wf(),
        w.wf(),
    ensures
        pan ==> match r {
            Some(v) => v.wf() && v@ == to_scene_pan(p@, center@, scale@, f@, w@)
                && to_scene_pan_ok(p@, center@, scale@, f@, w@),
            None => !to_scene_pan_ok(p@, center@, scale@, f@, w@),
        },
        !pan ==> match r {
            Some(v) => v.wf() && v@ == to_scene_plain(p@, scale@, f@)
                && to_scene_plain_ok(p@, scale@, f@),
            None => !to_scene_plain_ok(p@, scale@, f@),
        },
{
    let t = match scale.mul(f) {
        Some(t) => t,
        None => { return None; },
    };
    let s = match t.recip() {
        Some(s) => s,
        None => { return None; },
    };
    if pan {
        let half = Scalar::new(1, 2);
        let hx = match w.x.mul(half) {
            Some(hx) => hx,
            None => { return None; },
        };
        let hy = match w.y.mul(half) {
            Some(hy) => hy,
            None => { return None; },
        };
        let dx = match p.x.sub(hx) {
            Some(dx) => dx,
            None => { return None; },
        };
        let dy = match p.y.sub(hy) {
            Some(dy) => dy,
            None => { return None; },
        };
        let sx = match dx.mul(s) {
            Some(sx) => sx,
            None => { return None; },
        };
        let sy = match dy.mul(s) {
            Some(sy) => sy,
            None => { return None; },
        };
        match (sx.add(center.x), sy.add(center.y)) {
            (Some(x), Some(y)) => Some(Vec2 { x, y }),
            _ => None,
        }
    } else {
        match (p.x.mul(s), p.y.mul(s)) {
            (Some(x), Some(y)) => Some(Vec2 { x, y }),
            _ => None,
        }
    }
}

/// Value equality is transitive when the middle denominator is not zero.
proof fn lemma_rat_eq_trans(a: Rat, b: Rat, c: Rat)
    requires
        rat_eq(a, b),
        rat_eq(b, c),
        b.d != 0,
    ensures
        rat_eq(a, c),
{
    assert(a.n * c.d == c.n * a.d) by (nonlinear_arith)
        requires
            a.n * b.d == b.n * a.d,
            b.n * c.d == c.n * b.d,
            b.d != 0,
    ;
}

/// Multiplying two value-equal rationals by the same factor keeps them
/// value-equal.
pub proof fn lemma_mul_congruence(a: Rat, b: Rat, c: Rat)
    requires
        rat_eq(a, b),
    ensures
        rat_eq(rat_mul(a, c), rat_mul(b, c)),
{
    assert((a.n * c.n) * (b.d * c.d) == (b.n * c.n) * (a.d * c.d)) by (nonlinear_arith)
        requires
            a.n * b.d == b.n * a.d,
    ;
}

/// Adding the same rational to two value-equal rationals keeps them
/// value-equal.
#[verifier::rlimit(60)]
proof fn lemma_add_congruence(a: Rat, b: Rat, c: Rat)
    requires
        rat_eq(a, b),
    ensures
        rat_eq(rat_add(a, c), rat_add(b, c)),
{
    broadcast use vstd::arithmetic::mul::group_mul_properties;

    let an = a.n;
    let ad = a.d;
    let bn = b.n;
    let bd = b.d;
    let cn = c.n;
    let cd = c.d;
    assert((an * cd + cn * ad) * (bd * cd) == (an * cd) * (bd * cd) + (cn * ad) * (bd * cd));
    assert((an * cd) * (bd * cd) == (an * bd) * (cd * cd)) by (nonlinear_arith);
    assert((cn * ad) * (bd * cd) == (cn * cd) * (ad * bd)) by (nonlinear_arith);
    assert((bn * cd + cn * bd) * (ad * cd) == (bn * cd) * (ad * cd) + (cn * bd) * (ad * cd));
    assert((bn * cd) * (ad * cd) == (bn * ad) * (cd * cd)) by (nonlinear_arith);
    assert((cn * bd) * (ad * cd) == (cn * cd) * (ad * bd)) by (nonlinear_arith);
    assert((an * bd) * (cd * cd) == (bn * ad) * (cd * cd));
}

/// `(v + c) - c` has the value of `v`.
proof fn lemma_add_sub_cancel(v: Rat, c: Rat)
    ensures
        rat_eq(rat_sub(rat_add(v, c), c), v),
{
    assert(((v.n * c.d + c.n * v.d) * c.d - c.n * (v.d * c.d)) * v.d
        == v.n * ((v.d * c.d) * c.d)) by (nonlinear_arith);
}

/// `(p - h) + h` has the value of `p`.
proof fn lemma_sub_add_cancel(p: Rat, h: Rat)
    ensures
        rat_eq(rat_add(rat_sub(p, h), h), p),
{
    assert(((p.n * h.d - h.n * p.d) * h.d + h.n * (p.d * h.d)) * p.d
        == p.n * ((p.d * h.d) * h.d)) by (nonlinear_arith);
}

/// The reciprocal's cross products with its source agree, whatever the
/// sign of the numerator.
proof fn lemma_recip_cross(t: Rat)
    requires
        t.n != 0,
    ensures
        rat_recip(t).n * t.n == rat_recip(t).d * t.d,
{
    if t.n >= 0 {
        assert(t.d * t.n == t.n * t.d) by (nonlinear_arith);
    } else {
        assert((-t.d) * t.n == (-t.n) * t.d) by (nonlinear_arith);
    }
}

/// `(u * (1/t)) * t` has the value of `u`.
proof fn lemma_mul_recip_cancel(u: Rat, t: Rat)
    requires
        t.n != 0,
    ensures
        rat_eq(rat_mul(rat_mul(u, rat_recip(t)), t), u),
{
    let s = rat_recip(t);
    lemma_recip_cross(t);
    assert(((u.n * s.n) * t.n) * u.d == u.n * ((u.d * s.d) * t.d)) by (nonlinear_arith)
        requires
            s.n * t.n == s.d * t.d,
    ;
}

/// One axis of the round trip with panning: applying the composed
/// transform and then its inverse reproduces the pixel coordinate.
proof fn lemma_axis_round_trip_pan(p: Rat, c: Rat, t: Rat, hw: Rat)
    requires
        rat_wf(p),
        rat_wf(c),
        rat_wf(hw),
        t.n != 0,
        t.d != 0,
    ensures
        rat_eq(from_scene_axis_pan(to_scene_axis_pan(p, c, rat_recip(t), hw), c, t, hw), p),
{
    let s = rat_recip(t);
    let u = rat_sub(p, hw);
    let v = rat_mul(u, s);
    let q = rat_add(v, c);
    let x1 = rat_sub(q, c);
    let x2 = rat_mul(x1, t);
    // x1 has the value of v, so x2 has the value of v * t, which is u.
    lemma_add_sub_cancel(v, c);
    lemma_mul_congruence(x1, v, t);
    lemma_mul_recip_cancel(u, t);
    assert(rat_mul(v, t).d != 0) by (nonlinear_arith)
        requires
            v.d == u.d * s.d,
            u.d == p.d * hw.d,
            p.d > 0,
            hw.d > 0,
            s.d != 0,
            t.d != 0,
            rat_mul(v, t).d == v.d * t.d,
    ;
    lemma_rat_eq_trans(x2, rat_mul(v, t), u);
    // Adding hw back gives p.
    lemma_add_congruence(x2, u, hw);
    lemma_sub_add_cancel(p, hw);
    assert(rat_add(u, hw).d != 0) by (nonlinear_arith)
        requires
            u.d == p.d * hw.d,
            p.d > 0,
            hw.d > 0,
            rat_add(u, hw).d == u.d * hw.d,
    ;
    lemma_rat_eq_trans(rat_add(x2, hw), rat_add(u, hw), p);
}

/// Round trip with panning enabled: for any pointer position, computing
/// the scene position via the composed transform and then applying the
/// inverse transform reproduces the pointer position exactly.
pub proof fn lemma_scene_round_trip_pan(p: Rat2, center: Rat2, scale: Rat, f: Rat, w: Rat2)
    requires
        rat2_wf(p),
        rat2_wf(center),
        rat2_wf(w),
        rat_wf(scale),
        rat_wf(f),
        scale.n != 0,
        f.n != 0,
    ensures
        rat2_eq(
            from_scene_pan(to_scene_pan(p, center, scale, f, w), center, scale, f, w),
            p),
{
    let t = rat_mul(scale, f);
    assert(t.n != 0 && t.d > 0) by (nonlinear_arith)
        requires
            scale.n != 0,
            f.n != 0,
            scale.d > 0,
            f.d > 0,
            t.n == scale.n * f.n,
            t.d == scale.d * f.d,
    ;
    assert(rat_mul(w.x, rat_half()).d > 0 && rat_mul(w.y, rat_half()).d > 0)
        by (nonlinear_arith)
        requires
            w.x.d > 0,
            w.y.d > 0,
            rat_mul(w.x, rat_half()).d == w.x.d * 2,
            rat_mul(w.y, rat_half()).d == w.y.d * 2,
    ;
    lemma_axis_round_trip_pan(p.x, center.x, t, rat_mul(w.x, rat_half()));
    lemma_axis_round_trip_pan(p.y, center.y, t, rat_mul(w.y, rat_half()));
}

/// Round trip with panning disabled: the plain uniform scale, then its
/// inverse, reproduces the pointer position exactly.
pub proof fn lemma_scene_round_trip_plain(p: Rat2, scale: Rat, f: Rat)
    requires
        rat2_wf(p),
        rat_wf(scale),
        rat_wf(f),
        scale.n != 0,
        f.n != 0,
    ensures
        rat2_eq(from_scene_plain(to_scene_plain(p, scale, f), scale, f), p),
{
    let t = rat_mul(scale, f);
    assert(t.n != 0) by (nonlinear_arith)
        requires
            scale.n != 0,
            f.n != 0,
            t.n == scale.n * f.n,
    ;
    lemma_mul_recip_cancel(p.x, t);
    lemma_mul_recip_cancel(p.y, t);
}

} // verus!
