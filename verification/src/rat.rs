//! Exact rational arithmetic for time values.
//!
//! Every time quantity in the crate -- normalized global time, animation
//! window bounds, local progress -- is an exact non-negative rational
//! `num / den`.  Arithmetic is checked: an operation returns `None` exactly
//! when the unreduced result does not fit in 64-bit fields, and otherwise
//! pins the result fields precisely, so callers can reason about the value
//! with no rounding error.

use vstd::prelude::*;

verus! {

/// An exact non-negative rational number with value `num / den`.
#[derive(Clone, Copy, Debug, PartialEq, Eq, Structural)]
pub struct Rat {
    pub num: u64,
    pub den: u64,
}

/// A signed exact coordinate with value `num / den`, used for placement
/// parameters that may be negative.  It is carried, compared and handed
/// back; the crate does no arithmetic on it.
#[derive(Clone, Copy, Debug, PartialEq, Eq, Structural)]
pub struct Coord {
    pub num: i64,
    pub den: u64,
}

/// `a <= b` as rationals, by cross multiplication (meaningful when both
/// denominators are positive).
pub open spec fn rat_le(a: Rat, b: Rat) -> bool {
    a.num * b.den <= b.num * a.den
}

/// `a < b` as rationals, by cross multiplication.
pub open spec fn rat_lt(a: Rat, b: Rat) -> bool {
    a.num * b.den < b.num * a.den
}

/// `a == b` as rationals, by cross multiplication.
pub open spec fn rat_eq(a: Rat, b: Rat) -> bool {
    a.num * b.den == b.num * a.den
}

/// The rational zero as a spec value.
pub open spec fn rat_zero() -> Rat {
    Rat { num: 0, den: 1 }
}

/// The rational one as a spec value.
pub open spec fn rat_one() -> Rat {
    Rat { num: 1, den: 1 }
}

/// Numerator of the unreduced sum `a + b`.  When the denominators agree the
/// sum is formed over the shared denominator; otherwise by cross
/// multiplication.
pub open spec fn add_num(a: Rat, b: Rat) -> int {
    if a.den == b.den {
        a.num + b.num
    } else {
        a.num * b.den + b.num * a.den
    }
}

/// Denominator of the unreduced sum `a + b`.
pub open spec fn add_den(a: Rat, b: Rat) -> int {
    if a.den == b.den {
        a.den as int
    } else {
        a.den * b.den
    }
}

/// The unreduced sum fits in 64-bit fields.
pub open spec fn add_fits(a: Rat, b: Rat) -> bool {
    add_num(a, b) <= u64::MAX && add_den(a, b) <= u64::MAX
}

/// The unreduced sum `a + b` as a `Rat` (meaningful under `add_fits`).
pub open spec fn add_rat(a: Rat, b: Rat) -> Rat {
    Rat { num: add_num(a, b) as u64, den: add_den(a, b) as u64 }
}

/// Numerator of the unreduced difference `a - b` (an `int`: it is negative
/// when `b > a`).
pub open spec fn sub_num(a: Rat, b: Rat) -> int {
    if a.den == b.den {
        a.num - b.num
    } else {
        a.num * b.den - b.num * a.den
    }
}

/// Denominator of the unreduced difference `a - b`.
pub open spec fn sub_den(a: Rat, b: Rat) -> int {
    if a.den == b.den {
        a.den as int
    } else {
        a.den * b.den
    }
}

/// The difference is non-negative and its unreduced form fits in 64-bit
/// fields.
pub open spec fn sub_fits(a: Rat, b: Rat) -> bool {
    rat_le(b, a) && sub_num(a, b) <= u64::MAX && sub_den(a, b) <= u64::MAX
}

/// The unreduced difference `a - b` as a `Rat` (meaningful under
/// `sub_fits`).
pub open spec fn sub_rat(a: Rat, b: Rat) -> Rat {
    Rat { num: sub_num(a, b) as u64, den: sub_den(a, b) as u64 }
}

/// Numerator of the unreduced product `a * b`.
pub open spec fn mul_num(a: Rat, b: Rat) -> int {
    a.num * b.num
}

/// Denominator of the unreduced product `a * b`.
pub open spec fn mul_den(a: Rat, b: Rat) -> int {
    a.den * b.den
}

/// The unreduced product fits in 64-bit fields.
pub open spec fn mul_fits(a: Rat, b: Rat) -> bool {
    mul_num(a, b) <= u64::MAX && mul_den(a, b) <= u64::MAX
}

/// The unreduced product `a * b` as a `Rat` (meaningful under `mul_fits`).
pub open spec fn mul_rat(a: Rat, b: Rat) -> Rat {
    Rat { num: mul_num(a, b) as u64, den: mul_den(a, b) as u64 }
}

/// Numerator of the unreduced quotient `a / b`.
pub open spec fn div_num(a: Rat, b: Rat) -> int {
    a.num * b.den
}

/// Denominator of the unreduced quotient `a / b`.
pub open spec fn div_den(a: Rat, b: Rat) -> int {
    a.den * b.num
}

/// The divisor is positive and the unreduced quotient fits in 64-bit
/// fields.
pub open spec fn div_fits(a: Rat, b: Rat) -> bool {
    b.num >= 1 && div_num(a, b) <= u64::MAX && div_den(a, b) <= u64::MAX
}

/// The unreduced quotient `a / b` as a `Rat` (meaningful under `div_fits`).
pub open spec fn div_rat(a: Rat, b: Rat) -> Rat {
    Rat { num: div_num(a, b) as u64, den: div_den(a, b) as u64 }
}

/// `r` equals the rational sum `a + b`.
pub open spec fn is_sum(a: Rat, b: Rat, r: Rat) -> bool {
    r.num * (a.den * b.den) == (a.num * b.den + b.num * a.den) * r.den
}

/// `r` equals the rational difference `a - b`.
pub open spec fn is_diff(a: Rat, b: Rat, r: Rat) -> bool {
    r.num * (a.den * b.den) == (a.num * b.den - b.num * a.den) * r.den
}

/// `r` equals the rational product `a * b`.
pub open spec fn is_prod(a: Rat, b: Rat, r: Rat) -> bool {
    r.num * (a.den * b.den) == (a.num * b.num) * r.den
}

/// `r` equals the rational quotient `a / b`.
pub open spec fn is_quot(a: Rat, b: Rat, r: Rat) -> bool {
    r.num * (a.den * b.num) == (a.num * b.den) * r.den
}

proof fn lemma_mul_u64_fits(a: u64, b: u64)
    by (nonlinear_arith)
    ensures
        0 <= a * b <= u64::MAX * u64::MAX,
        a >= 1 && b >= 1 ==> a * b >= 1,
{
}

/// Comparisons of rationals over a shared denominator reduce to comparisons
/// of the numerators.
pub proof fn lemma_same_den_cmp(a: Rat, b: Rat)
    by (nonlinear_arith)
    requires
        a.den == b.den,
        a.den >= 1,
    ensures
        rat_le(a, b) <==> a.num <= b.num,
        rat_lt(a, b) <==> a.num < b.num,
        rat_eq(a, b) <==> a.num == b.num,
{
}

/// The checked sum denotes the rational sum of its operands.
pub proof fn lemma_add_rat_is_sum(a: Rat, b: Rat)
    requires
        a.wf(),
        b.wf(),
        add_fits(a, b),
    ensures
        add_rat(a, b).wf(),
        add_rat(a, b).num == add_num(a, b),
        add_rat(a, b).den == add_den(a, b),
        is_sum(a, b, add_rat(a, b)),
{
    lemma_mul_u64_fits(a.num, b.den);
    lemma_mul_u64_fits(b.num, a.den);
    lemma_mul_u64_fits(a.den, b.den);
    if a.den == b.den {
        assert((a.num + b.num) * (a.den * b.den) == (a.num * b.den + b.num * a.den) * a.den)
            by (nonlinear_arith)
            requires
                a.den == b.den,
        ;
    }
}

/// The checked difference denotes the rational difference of its operands.
pub proof fn lemma_sub_rat_is_diff(a: Rat, b: Rat)
    requires
        a.wf(),
        b.wf(),
        sub_fits(a, b),
    ensures
        sub_rat(a, b).wf(),
        sub_rat(a, b).num == sub_num(a, b),
        sub_rat(a, b).den == sub_den(a, b),
        is_diff(a, b, sub_rat(a, b)),
{
    lemma_mul_u64_fits(a.num, b.den);
    lemma_mul_u64_fits(b.num, a.den);
    lemma_mul_u64_fits(a.den, b.den);
    if a.den == b.den {
        lemma_same_den_cmp(b, a);
        assert((a.num - b.num) * (a.den * b.den) == (a.num * b.den - b.num * a.den) * a.den)
            by (nonlinear_arith)
            requires
                a.den == b.den,
        ;
    }
}

/// The checked product denotes the rational product of its operands.
pub proof fn lemma_mul_rat_is_prod(a: Rat, b: Rat)
    requires
        a.wf(),
        b.wf(),
        mul_fits(a, b),
    ensures
        mul_rat(a, b).wf(),
        mul_rat(a, b).num == mul_num(a, b),
        mul_rat(a, b).den == mul_den(a, b),
        is_prod(a, b, mul_rat(a, b)),
{
    lemma_mul_u64_fits(a.num, b.num);
    lemma_mul_u64_fits(a.den, b.den);
}

/// The checked quotient denotes the rational quotient of its operands.
pub proof fn lemma_div_rat_is_quot(a: Rat, b: Rat)
    requires
        a.wf(),
        b.wf(),
        div_fits(a, b),
    ensures
        div_rat(a, b).wf(),
        div_rat(a, b).num == div_num(a, b),
        div_rat(a, b).den == div_den(a, b),
        is_quot(a, b, div_rat(a, b)),
{
    lemma_mul_u64_fits(a.num, b.den);
    lemma_mul_u64_fits(a.den, b.num);
}

/// Subtracting and adding back are inverse: `b + (a - b) == a`.
pub proof fn lemma_sub_add_inverse(a: Rat, b: Rat)
    requires
        a.wf(),
        b.wf(),
        sub_fits(a, b),
    ensures
        is_sum(b, sub_rat(a, b), a),
{
    lemma_sub_rat_is_diff(a, b);
    let d = sub_rat(a, b);
    if a.den == b.den {
        assert(a.num * (b.den * a.den) == (b.num * a.den + (a.num - b.num) * b.den) * a.den)
            by (nonlinear_arith)
            requires
                a.den == b.den,
        ;
    } else {
        assert(a.num * (b.den * (a.den * b.den)) == (b.num * (a.den * b.den) + (a.num * b.den
            - b.num * a.den) * b.den) * a.den) by (nonlinear_arith);
    }
}

/// A difference of strictly ordered rationals is strictly positive.
pub proof fn lemma_sub_pos(a: Rat, b: Rat)
    requires
        a.wf(),
        b.wf(),
        sub_fits(a, b),
        rat_lt(b, a),
    ensures
        sub_rat(a, b).num >= 1,
{
    if a.den == b.den {
        lemma_same_den_cmp(b, a);
    }
}

/// Adding a strictly positive rational strictly increases the value.
pub proof fn lemma_lt_add_pos(a: Rat, b: Rat)
    requires
        a.wf(),
        b.wf(),
        add_fits(a, b),
        b.num >= 1,
    ensures
        rat_lt(a, add_rat(a, b)),
{
    lemma_add_rat_is_sum(a, b);
    let s = add_rat(a, b);
    if a.den == b.den {
        assert(a.num * a.den < (a.num + b.num) * a.den) by (nonlinear_arith)
            requires
                a.den >= 1,
                b.num >= 1,
        ;
    } else {
        assert(a.num * (a.den * b.den) < (a.num * b.den + b.num * a.den) * a.den)
            by (nonlinear_arith)
            requires
                a.den >= 1,
                b.den >= 1,
                b.num >= 1,
        ;
    }
}

impl Rat {
    /// Well-formed: the denominator is positive.
    pub open spec fn wf(self) -> bool {
        self.den >= 1
    }

    pub fn new(num: u64, den: u64) -> (r: Rat)
        requires
            den >= 1,
        ensures
            r.wf(),
            r.num == num,
            r.den == den,
    {
        Rat { num, den }
    }

    /// The rational zero.
    pub fn zero() -> (r: Rat)
        ensures
            r.wf(),
            r == rat_zero(),
    {
        Rat { num: 0, den: 1 }
    }

    /// The rational one.
    pub fn one() -> (r: Rat)
        ensures
            r.wf(),
            r == rat_one(),
    {
        Rat { num: 1, den: 1 }
    }

    /// `self <= other` as rationals.
    pub fn le(self, other: Rat) -> (r: bool)
        ensures
            r == rat_le(self, other),
    {
        proof {
            lemma_mul_u64_fits(self.num, other.den);
            lemma_mul_u64_fits(other.num, self.den);
        }
        (self.num as u128) * (other.den as u128) <= (other.num as u128) * (self.den as u128)
    }

    /// `self < other` as rationals.
    pub fn lt(self, other: Rat) -> (r: bool)
        ensures
            r == rat_lt(self, other),
    {
        proof {
            lemma_mul_u64_fits(self.num, other.den);
            lemma_mul_u64_fits(other.num, self.den);
        }
        (self.num as u128) * (other.den as u128) < (other.num as u128) * (self.den as u128)
    }

    /// `self == other` as rationals (equal value, not equal representation).
    pub fn eq_rat(self, other: Rat) -> (r: bool)
        ensures
            r == rat_eq(self, other),
    {
        proof {
            lemma_mul_u64_fits(self.num, other.den);
            lemma_mul_u64_fits(other.num, self.den);
        }
        (self.num as u128) * (other.den as u128) == (other.num as u128) * (self.den as u128)
    }

    /// Checked addition: `Some` exactly when the unreduced sum fits.
    pub fn checked_add(self, other: Rat) -> (r: Option<Rat>)
        requires
            self.wf(),
            other.wf(),
        ensures
            r.is_some() <==> add_fits(self, other),
            r.is_some() ==> r == Some(add_rat(self, other)) && add_rat(self, other).wf(),
    {
        proof {
            lemma_mul_u64_fits(self.num, other.den);
            lemma_mul_u64_fits(other.num, self.den);
            lemma_mul_u64_fits(self.den, other.den);
        }
        if self.den == other.den {
            if self.num <= u64::MAX - other.num {
                Some(Rat { num: self.num + other.num, den: self.den })
            } else {
                None
            }
        } else {
            let p1: u128 = (self.num as u128) * (other.den as u128);
            let p2: u128 = (other.num as u128) * (self.den as u128);
            let d: u128 = (self.den as u128) * (other.den as u128);
            let m: u128 = u64::MAX as u128;
            if p1 <= m && p2 <= m && p1 + p2 <= m && d <= m {
                Some(Rat { num: (p1 + p2) as u64, den: d as u64 })
            } else {
                None
            }
        }
    }

    /// Checked subtraction: `Some` exactly when the difference is
    /// non-negative and its unreduced form fits.
    pub fn checked_sub(self, other: Rat) -> (r: Option<Rat>)
        requires
            self.wf(),
            other.wf(),
        ensures
            r.is_some() <==> sub_fits(self, other),
            r.is_some() ==> r == Some(sub_rat(self, other)) && sub_rat(self, other).wf(),
    {
        proof {
            lemma_mul_u64_fits(self.num, other.den);
            lemma_mul_u64_fits(other.num, self.den);
            lemma_mul_u64_fits(self.den, other.den);
        }
        if self.den == other.den {
            proof {
                lemma_same_den_cmp(other, self);
            }
            if other.num <= self.num {
                Some(Rat { num: self.num - other.num, den: self.den })
            } else {
                None
            }
        } else {
            let p1: u128 = (self.num as u128) * (other.den as u128);
            let p2: u128 = (other.num as u128) * (self.den as u128);
            let d: u128 = (self.den as u128) * (other.den as u128);
            let m: u128 = u64::MAX as u128;
            if p2 <= p1 && p1 - p2 <= m && d <= m {
                Some(Rat { num: (p1 - p2) as u64, den: d as u64 })
            } else {
                None
            }
        }
    }

    /// Checked multiplication: `Some` exactly when the unreduced product
    /// fits.
    pub fn checked_mul(self, other: Rat) -> (r: Option<Rat>)
        requires
            self.wf(),
            other.wf(),
        ensures
            r.is_some() <==> mul_fits(self, other),
            r.is_some() ==> r == Some(mul_rat(self, other)) && mul_rat(self, other).wf(),
    {
        proof {
            lemma_mul_u64_fits(self.num, other.num);
            lemma_mul_u64_fits(self.den, other.den);
        }
        let p: u128 = (self.num as u128) * (other.num as u128);
        let d: u128 = (self.den as u128) * (other.den as u128);
        let m: u128 = u64::MAX as u128;
        if p <= m && d <= m {
            Some(Rat { num: p as u64, den: d as u64 })
        } else {
            None
        }
    }

    /// Checked division: `Some` exactly when the divisor is positive and
    /// the unreduced quotient fits.
    pub fn checked_div(self, other: Rat) -> (r: Option<Rat>)
        requires
            self.wf(),
            other.wf(),
        ensures
            r.is_some() <==> div_fits(self, other),
            r.is_some() ==> r == Some(div_rat(self, other)) && div_rat(self, other).wf(),
    {
        proof {
            lemma_mul_u64_fits(self.num, other.den);
            lemma_mul_u64_fits(self.den, other.num);
        }
        if other.num == 0 {
            return None;
        }
        let p: u128 = (self.num as u128) * (other.den as u128);
        let d: u128 = (self.den as u128) * (other.num as u128);
        let m: u128 = u64::MAX as u128;
        if p <= m && d <= m {
            Some(Rat { num: p as u64, den: d as u64 })
        } else {
            None
        }
    }
}

impl Coord {
    /// Well-formed: the denominator is positive.
    pub open spec fn wf(self) -> bool {
        self.den >= 1
    }

    pub fn new(num: i64, den: u64) -> (r: Coord)
        requires
            den >= 1,
        ensures
            r.wf(),
            r.num == num,
            r.den == den,
    {
        Coord { num, den }
    }

    /// The coordinate zero.
    pub fn zero() -> (r: Coord)
        ensures
            r.wf(),
            r.num == 0,
            r.den == 1,
    {
        Coord { num: 0, den: 1 }
    }

    /// The coordinate one.
    pub fn one() -> (r: Coord)
        ensures
            r.wf(),
            r.num == 1,
            r.den == 1,
    {
        Coord { num: 1, den: 1 }
    }
}

} // verus!
