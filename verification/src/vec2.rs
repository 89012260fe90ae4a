//! Two-dimensional vectors of exact rational scalars, used for cursor
//! positions, logical window sizes, pan offsets and scroll deltas.

use vstd::prelude::*;
use crate::rat::{Rat, Scalar, rat_wf, rat_eq, rat_mul, rat_sub, rat_add, mul_ok, sub_ok, add_ok};

verus! {

/// Mathematical model of a vector: a pair of unbounded rationals.
pub ghost struct Rat2 {
    pub x: Rat,
    pub y: Rat,
}

pub open spec fn rat2_wf(v: Rat2) -> bool {
    rat_wf(v.x) && rat_wf(v.y)
}

/// Componentwise value equality.
pub open spec fn rat2_eq(a: Rat2, b: Rat2) -> bool {
    rat_eq(a.x, b.x) && rat_eq(a.y, b.y)
}

pub open spec fn rat2_sub(a: Rat2, b: Rat2) -> Rat2 {
    Rat2 { x: rat_sub(a.x, b.x), y: rat_sub(a.y, b.y) }
}

pub open spec fn rat2_add(a: Rat2, b: Rat2) -> Rat2 {
    Rat2 { x: rat_add(a.x, b.x), y: rat_add(a.y, b.y) }
}

/// Componentwise scaling by one rational factor.
pub open spec fn rat2_scale(v: Rat2, s: Rat) -> Rat2 {
    Rat2 { x: rat_mul(v.x, s), y: rat_mul(v.y, s) }
}

/// Both componentwise differences are representable.
pub open spec fn sub2_ok(a: Rat2, b: Rat2) -> bool {
    sub_ok(a.x, b.x) && sub_ok(a.y, b.y)
}

/// Both componentwise sums are representable.
pub open spec fn add2_ok(a: Rat2, b: Rat2) -> bool {
    add_ok(a.x, b.x) && add_ok(a.y, b.y)
}

/// Both componentwise products with the factor are representable.
pub open spec fn scale2_ok(v: Rat2, s: Rat) -> bool {
    mul_ok(v.x, s) && mul_ok(v.y, s)
}

/// A vector of two exact rational scalars.
#[derive(Clone, Copy, Debug)]
pub struct Vec2 {
    pub x: Scalar,
    pub y: Scalar,
}

impl View for Vec2 {
    type V = Rat2;

    open spec fn view(&self) -> Rat2 {
        Rat2 { x: self.x@, y: self.y@ }
    }
}

impl Vec2 {
    pub open spec fn wf(self) -> bool {
        self.x.wf() && self.y.wf()
    }

    pub fn new(x: Scalar, y: Scalar) -> (r: Vec2)
        ensures
            r.x == x,
            r.y == y,
    {
        Vec2 { x, y }
    }

    /// The vector `(x, y)` of whole pixel coordinates.
    pub fn from_ints(x: i64, y: i64) -> (r: Vec2)
        ensures
            r.wf(),
            r@ == (Rat2 {
                x: Rat { n: x as int, d: 1 },
                y: Rat { n: y as int, d: 1 },
            }),
    {
        Vec2 { x: Scalar::from_int(x), y: Scalar::from_int(y) }
    }

    /// Componentwise value equality, decided exactly.
    pub fn eq_val(&self, other: &Vec2) -> (r: bool)
        ensures
            r == rat2_eq(self@, other@),
    {
        self.x.eq_val(&other.x) && self.y.eq_val(&other.y)
    }

    /// Exact componentwise difference; `None` exactly when it does not fit.
    pub fn sub(self, other: Vec2) -> (r: Option<Vec2>)
        requires
            self.wf(),
            other.wf(),
        ensures
            match r {
                Some(c) => c.wf() && c@ == rat2_sub(self@, other@) && sub2_ok(self@, other@),
                None => !sub2_ok(self@, other@),
            },
    {
        match (self.x.sub(other.x), self.y.sub(other.y)) {
            (Some(x), Some(y)) => Some(Vec2 { x, y }),
            _ => None,
        }
    }

    /// Exact componentwise sum; `None` exactly when it does not fit.
    pub fn add(self, other: Vec2) -> (r: Option<Vec2>)
        requires
            self.wf(),
            other.wf(),
        ensures
            match r {
                Some(c) => c.wf() && c@ == rat2_add(self@, other@) && add2_ok(self@, other@),
                None => !add2_ok(self@, other@),
            },
    {
        match (self.x.add(other.x), self.y.add(other.y)) {
            (Some(x), Some(y)) => Some(Vec2 { x, y }),
            _ => None,
        }
    }

    /// Exact componentwise scaling; `None` exactly when it does not fit.
    pub fn scale(self, s: Scalar) -> (r: Option<Vec2>)
        requires
            self.wf(),
            s.wf(),
        ensures
            match r {
                Some(c) => c.wf() && c@ == rat2_scale(self@, s@) && scale2_ok(self@, s@),
                None => !scale2_ok(self@, s@),
            },
    {
        match (self.x.mul(s), self.y.mul(s)) {
            (Some(x), Some(y)) => Some(Vec2 { x, y }),
            _ => None,
        }
    }
}

} // verus!
