//! Exact numbers: the decimal constants of the unit tables, and the fractions
//! in which the meaning of a conversion is stated.

use vstd::prelude::*;

verus! {

/// An exact constant `num / den` of a unit table, such as 145038 / 1000000.
#[derive(Clone, Copy, Debug, PartialEq, Eq, Structural)]
pub struct Ratio {
    pub num: u64,
    pub den: u64,
}

impl Ratio {
    /// The constant as a fraction.
    pub open spec fn frac(self) -> Frac {
        Frac { num: self.num as int, den: self.den as int }
    }
}

/// A fraction of two integers. It stands for the number `num / den` where `den`
/// is not zero; two fractions stand for the same number when they are `same`.
pub struct Frac {
    pub num: int,
    pub den: int,
}

impl Frac {
    /// The fraction stands for a number.
    pub open spec fn defined(self) -> bool {
        self.den != 0
    }

    /// The fraction stands for a number other than zero.
    pub open spec fn nonzero(self) -> bool {
        self.den != 0 && self.num != 0
    }

    /// Both fractions stand for the same number (where both are defined).
    pub open spec fn same(self, other: Frac) -> bool {
        self.num * other.den == other.num * self.den
    }

    /// The whole number `n`.
    pub open spec fn whole(n: int) -> Frac {
        Frac { num: n, den: 1 }
    }

    /// The product `self * f`.
    pub open spec fn times(self, f: Frac) -> Frac {
        Frac { num: self.num * f.num, den: self.den * f.den }
    }

    /// The quotient `self / f`.
    pub open spec fn over(self, f: Frac) -> Frac {
        Frac { num: self.num * f.den, den: self.den * f.num }
    }

    /// The quotient `self / f`, but zero where `f` is zero.
    pub open spec fn over_or_zero(self, f: Frac) -> Frac {
        if f.num == 0 {
            Frac::whole(0)
        } else {
            self.over(f)
        }
    }

    /// The number is 1 or more.
    pub open spec fn at_least_one(self) -> bool {
        if self.den > 0 {
            self.num >= self.den
        } else {
            self.num <= self.den
        }
    }

    /// The sum `self + f`.
    pub open spec fn plus(self, f: Frac) -> Frac {
        Frac { num: self.num * f.den + f.num * self.den, den: self.den * f.den }
    }

    /// The difference `self - f`.
    pub open spec fn minus(self, f: Frac) -> Frac {
        Frac { num: self.num * f.den - f.num * self.den, den: self.den * f.den }
    }
}

/// A fraction whose numerator and denominator are those of `x`, each times
/// `k`, stands for the same number as `x`.
pub proof fn lemma_common_factor(x: Frac, y: Frac, k: int)
    requires
        y.num == k * x.num,
        y.den == k * x.den,
    ensures
        y.same(x),
        k != 0 && x.defined() ==> y.defined(),
{
    assert(y.num * x.den == x.num * y.den) by (nonlinear_arith)
        requires
            y.num == k * x.num,
            y.den == k * x.den,
    ;
    assert(k != 0 && x.den != 0 ==> y.den != 0) by (nonlinear_arith)
        requires
            y.den == k * x.den,
    ;
}

/// Going from `x` to `d` scales the numerator by `p * a` and the denominator
/// by `q * b`; going on from `d` to `y` scales them the other way round. Then
/// `y` stands for the same number as `x`.
pub proof fn lemma_there_and_back(x: Frac, d: Frac, y: Frac, p: int, q: int, a: int, b: int)
    requires
        d.num == p * (x.num * a),
        d.den == q * (x.den * b),
        y.num == q * (d.num * b),
        y.den == p * (d.den * a),
    ensures
        y.same(x),
        p != 0 && q != 0 && a != 0 && b != 0 && x.defined() ==> d.defined() && y.defined(),
{
    let k = p * q * a * b;
    assert(q * ((p * (x.num * a)) * b) == k * x.num) by (nonlinear_arith)
        requires
            k == p * q * a * b,
    ;
    assert(p * ((q * (x.den * b)) * a) == k * x.den) by (nonlinear_arith)
        requires
            k == p * q * a * b,
    ;
    lemma_common_factor(x, y, k);
    assert(p != 0 && q != 0 && a != 0 && b != 0 ==> k != 0) by (nonlinear_arith)
        requires
            k == p * q * a * b,
    ;
    assert(q != 0 && b != 0 && x.den != 0 ==> q * (x.den * b) != 0) by (nonlinear_arith);
}

/// A constant factor may be moved to the front of a product.
pub proof fn lemma_constant_first(x: int, k: int, a: int)
    ensures
        (x * k) * a == k * (x * a),
{
    assert((x * k) * a == k * (x * a)) by (nonlinear_arith);
}

} // verus!
