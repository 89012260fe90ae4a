//! Exact rational scalars.
//!
//! The platform hands the loop fractional quantities (cursor positions,
//! DPI scale factors, scroll deltas, the zoom scale).  Inside the library
//! every such quantity is an exact rational `num / den` with `den > 0`,
//! so each contract can state the produced value precisely instead of
//! approximately.  Executable operations are checked: they return `None`
//! exactly when the exact result does not fit the machine representation.

use vstd::prelude::*;

verus! {

/// Mathematical model of a scalar: an unbounded rational `n / d`.
pub ghost struct Rat {
    pub n: int,
    pub d: int,
}

/// A model rational is well formed when its denominator is positive.
pub open spec fn rat_wf(a: Rat) -> bool {
    a.d > 0
}

/// Value equality of two rationals, by cross multiplication.
pub open spec fn rat_eq(a: Rat, b: Rat) -> bool {
    a.n * b.d == b.n * a.d
}

/// `a <= i` for an integer bound (meaningful when `a` is well formed).
pub open spec fn rat_le_int(a: Rat, i: int) -> bool {
    a.n <= i * a.d
}

/// `0 <= a` (meaningful when `a` is well formed).
pub open spec fn rat_nonneg(a: Rat) -> bool {
    a.n >= 0
}

pub open spec fn rat_from(i: int) -> Rat {
    Rat { n: i, d: 1 }
}

pub open spec fn rat_mul(a: Rat, b: Rat) -> Rat {
    Rat { n: a.n * b.n, d: a.d * b.d }
}

pub open spec fn rat_neg(a: Rat) -> Rat {
    Rat { n: -a.n, d: a.d }
}

pub open spec fn rat_add(a: Rat, b: Rat) -> Rat {
    Rat { n: a.n * b.d + b.n * a.d, d: a.d * b.d }
}

pub open spec fn rat_sub(a: Rat, b: Rat) -> Rat {
    Rat { n: a.n * b.d - b.n * a.d, d: a.d * b.d }
}

/// Reciprocal, with the sign moved into the numerator so that the
/// denominator stays positive (meaningful when `a.n != 0`).
pub open spec fn rat_recip(a: Rat) -> Rat {
    if a.n >= 0 {
        Rat { n: a.d, d: a.n }
    } else {
        Rat { n: -a.d, d: -a.n }
    }
}

pub open spec fn rat_div(a: Rat, b: Rat) -> Rat {
    rat_mul(a, rat_recip(b))
}

/// The least integer `>= a` (meaningful when `a.d > 0`).
pub open spec fn rat_ceil(a: Rat) -> int {
    if a.n % a.d == 0 {
        a.n / a.d
    } else {
        a.n / a.d + 1
    }
}

/// Does an unbounded integer fit the machine scalar component?
pub open spec fn in_i64(x: int) -> bool {
    -0x8000_0000_0000_0000 <= x <= 0x7FFF_FFFF_FFFF_FFFF
}

/// The exact product of two machine scalars is representable.
pub open spec fn mul_ok(a: Rat, b: Rat) -> bool {
    in_i64(a.n * b.n) && in_i64(a.d * b.d)
}

/// The exact sum of two machine scalars is representable.
pub open spec fn add_ok(a: Rat, b: Rat) -> bool {
    in_i64(a.n * b.d + b.n * a.d) && in_i64(a.d * b.d)
}

/// The exact difference of two machine scalars is representable.
pub open spec fn sub_ok(a: Rat, b: Rat) -> bool {
    in_i64(a.n * b.d - b.n * a.d) && in_i64(a.d * b.d)
}

/// The reciprocal of a machine scalar is representable.
pub open spec fn recip_ok(a: Rat) -> bool {
    a.n != 0 && a.n != -0x8000_0000_0000_0000
}

/// `|a| <= ab` and `|b| <= bb` bound the product by `ab * bb`.
pub proof fn lemma_abs_mul_bound(a: int, b: int, ab: int, bb: int)
    requires
        -ab <= a <= ab,
        -bb <= b <= bb,
        0 <= ab,
        0 <= bb,
    ensures
        -(ab * bb) <= a * b <= ab * bb,
{
    assert(-(ab * bb) <= a * b <= ab * bb) by (nonlinear_arith)
        requires
            -ab <= a <= ab,
            -bb <= b <= bb,
            0 <= ab,
            0 <= bb,
    ;
}

/// An exact rational scalar as the machine holds it.
#[derive(Clone, Copy, Debug)]
pub struct Scalar {
    pub num: i64,
    pub den: i64,
}

impl View for Scalar {
    type V = Rat;

    open spec fn view(&self) -> Rat {
        Rat { n: self.num as int, d: self.den as int }
    }
}

impl Scalar {
    /// Well formed: positive denominator.
    pub open spec fn wf(self) -> bool {
        self.den > 0
    }

    /// The scalar `i / 1`.
    pub fn from_int(i: i64) -> (r: Scalar)
        ensures
            r.wf(),
            r@ == rat_from(i as int),
    {
        Scalar { num: i, den: 1 }
    }

    /// The scalar `num / den`; the denominator must be positive.
    pub fn new(num: i64, den: i64) -> (r: Scalar)
        requires
            den > 0,
        ensures
            r.wf(),
            r@ == (Rat { n: num as int, d: den as int }),
    {
        Scalar { num, den }
    }

    /// Value equality, decided exactly by cross multiplication.
    pub fn eq_val(&self, other: &Scalar) -> (r: bool)
        ensures
            r == rat_eq(self@, other@),
    {
        proof {
            lemma_abs_mul_bound(
                self.num as int, other.den as int,
                0x8000_0000_0000_0000, 0x8000_0000_0000_0000);
            lemma_abs_mul_bound(
                other.num as int, self.den as int,
                0x8000_0000_0000_0000, 0x8000_0000_0000_0000);
        }
        let l: i128 = (self.num as i128) * (other.den as i128);
        let r: i128 = (other.num as i128) * (self.den as i128);
        l == r
    }

    /// Exact product; `None` exactly when it does not fit.
    pub fn mul(self, other: Scalar) -> (r: Option<Scalar>)
        requires
            self.wf(),
            other.wf(),
        ensures
            match r {
                Some(c) => c.wf() && c@ == rat_mul(self@, other@) && mul_ok(self@, other@),
                None => !mul_ok(self@, other@),
            },
    {
        proof {
            lemma_abs_mul_bound(
                self.num as int, other.num as int,
                0x8000_0000_0000_0000, 0x8000_0000_0000_0000);
            lemma_abs_mul_bound(
                self.den as int, other.den as int,
                0x8000_0000_0000_0000, 0x8000_0000_0000_0000);
            assert(self.den as int * other.den as int >= 1) by (nonlinear_arith)
                requires
                    self.den as int >= 1,
                    other.den as int >= 1,
            ;
        }
        let n: i128 = (self.num as i128) * (other.num as i128);
        let d: i128 = (self.den as i128) * (other.den as i128);
        if n >= -0x8000_0000_0000_0000i128 && n <= 0x7FFF_FFFF_FFFF_FFFFi128
            && d <= 0x7FFF_FFFF_FFFF_FFFFi128
        {
            Some(Scalar { num: n as i64, den: d as i64 })
        } else {
            None
        }
    }

    /// Exact sum; `None` exactly when it does not fit.
    pub fn add(self, other: Scalar) -> (r: Option<Scalar>)
        requires
            self.wf(),
            other.wf(),
        ensures
            match r {
                Some(c) => c.wf() && c@ == rat_add(self@, other@) && add_ok(self@, other@),
                None => !add_ok(self@, other@),
            },
    {
        proof {
            lemma_abs_mul_bound(
                self.num as int, other.den as int,
                0x8000_0000_0000_0000, 0x7FFF_FFFF_FFFF_FFFF);
            lemma_abs_mul_bound(
                other.num as int, self.den as int,
                0x8000_0000_0000_0000, 0x7FFF_FFFF_FFFF_FFFF);
            lemma_abs_mul_bound(
                self.den as int, other.den as int,
                0x7FFF_FFFF_FFFF_FFFF, 0x7FFF_FFFF_FFFF_FFFF);
            assert(self.den as int * other.den as int >= 1) by (nonlinear_arith)
                requires
                    self.den as int >= 1,
                    other.den as int >= 1,
            ;
        }
        let n: i128 = (self.num as i128) * (other.den as i128)
            + (other.num as i128) * (self.den as i128);
        let d: i128 = (self.den as i128) * (other.den as i128);
        if n >= -0x8000_0000_0000_0000i128 && n <= 0x7FFF_FFFF_FFFF_FFFFi128
            && d <= 0x7FFF_FFFF_FFFF_FFFFi128
        {
            Some(Scalar { num: n as i64, den: d as i64 })
        } else {
            None
        }
    }

    /// Exact difference; `None` exactly when it does not fit.
    pub fn sub(self, other: Scalar) -> (r: Option<Scalar>)
        requires
            self.wf(),
            other.wf(),
        ensures
            match r {
                Some(c) => c.wf() && c@ == rat_sub(self@, other@) && sub_ok(self@, other@),
                None => !sub_ok(self@, other@),
            },
    {
        proof {
            lemma_abs_mul_bound(
                self.num as int, other.den as int,
                0x8000_0000_0000_0000, 0x7FFF_FFFF_FFFF_FFFF);
            lemma_abs_mul_bound(
                other.num as int, self.den as int,
                0x8000_0000_0000_0000, 0x7FFF_FFFF_FFFF_FFFF);
            lemma_abs_mul_bound(
                self.den as int, other.den as int,
                0x7FFF_FFFF_FFFF_FFFF, 0x7FFF_FFFF_FFFF_FFFF);
            assert(self.den as int * other.den as int >= 1) by (nonlinear_arith)
                requires
                    self.den as int >= 1,
                    other.den as int >= 1,
            ;
        }
        let n: i128 = (self.num as i128) * (other.den as i128)
            - (other.num as i128) * (self.den as i128);
        let d: i128 = (self.den as i128) * (other.den as i128);
        if n >= -0x8000_0000_0000_0000i128 && n <= 0x7FFF_FFFF_FFFF_FFFFi128
            && d <= 0x7FFF_FFFF_FFFF_FFFFi128
        {
            Some(Scalar { num: n as i64, den: d as i64 })
        } else {
            None
        }
    }

    /// Exact reciprocal; `None` exactly when the scalar is zero or the
    /// denominator cannot take the numerator's place.
    pub fn recip(self) -> (r: Option<Scalar>)
        requires
            self.wf(),
        ensures
            match r {
                Some(c) => c.wf() && c@ == rat_recip(self@) && recip_ok(self@),
                None => !recip_ok(self@),
            },
    {
        if self.num == 0 || self.num == -0x8000_0000_0000_0000i64 {
            None
        } else if self.num > 0 {
            Some(Scalar { num: self.den, den: self.num })
        } else {
            Some(Scalar { num: -self.den, den: -self.num })
        }
    }

    /// The least integer greater than or equal to a non-negative scalar.
    pub fn ceil_nonneg(self) -> (r: i64)
        requires
            self.wf(),
            self.num >= 0,
        ensures
            r as int == rat_ceil(self@),
            0 <= r <= self.num,
    {
        proof {
            lemma_ceil_by_div(self.num as int, self.den as int);
        }
        let q: u128 = ((self.num as u128) + (self.den as u128) - 1) / (self.den as u128);
        q as i64
    }
}

/// For `n >= 0`, `d > 0`: `(n + d - 1) / d` is the ceiling of `n / d`,
/// and it lies between `0` and `n`.
proof fn lemma_ceil_by_div(n: int, d: int)
    requires
        n >= 0,
        d > 0,
    ensures
        (n + d - 1) / d == rat_ceil(Rat { n: n, d: d }),
        0 <= (n + d - 1) / d <= n,
{
    let q = n / d;
    let r = n % d;
    vstd::arithmetic::div_mod::lemma_fundamental_div_mod(n, d);
    vstd::arithmetic::div_mod::lemma_mod_bound(n, d);
    if r == 0 {
        assert((n + d - 1) / d == q) by (nonlinear_arith)
            requires
                n == q * d,
                d > 0,
        ;
    } else {
        assert((n + d - 1) / d == q + 1) by (nonlinear_arith)
            requires
                n == q * d + r,
                0 < r < d,
        ;
    }
    assert(0 <= q <= n && (r != 0 ==> q + 1 <= n)) by (nonlinear_arith)
        requires
            n == q * d + r,
            0 <= r < d,
            n >= 0,
            d > 0,
    ;
}

} // verus!
