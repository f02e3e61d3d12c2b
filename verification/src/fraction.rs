//! Exact ratios of two integers.

use vstd::prelude::*;

verus! {

/// The model of a [`Fraction`]: a numerator and a denominator, as written.
pub struct Ratio {
    pub num: int,
    pub den: int,
}

impl Ratio {
    /// A ratio has a value when its denominator is not zero.
    pub open spec fn wf(self) -> bool {
        self.den != 0
    }

    /// The real number that the ratio stands for.
    pub open spec fn value(self) -> real {
        self.num as real / self.den as real
    }
}

/// A ratio `num / den` of two machine integers. It is kept as written and
/// never reduced, so two fractions of one value may differ in their fields:
/// `==` compares the fields, [`Fraction::same_value`] compares the values.
#[derive(Clone, Copy, Debug, PartialEq, Eq, Structural)]
pub struct Fraction {
    pub num: i64,
    pub den: i64,
}

impl View for Fraction {
    type V = Ratio;

    open spec fn view(&self) -> Ratio {
        Ratio { num: self.num as int, den: self.den as int }
    }
}

impl DeepView for Fraction {
    type V = Ratio;

    open spec fn deep_view(&self) -> Ratio {
        self@
    }
}

/// Two ratios with a value stand for the same real number exactly when their
/// cross products agree.
pub proof fn lemma_same_value_is_cross_product(p: Ratio, q: Ratio)
    requires
        p.wf(),
        q.wf(),
    ensures
        (p.value() == q.value()) <==> p.num * q.den == q.num * p.den,
{
    lemma_quotients_equal(p.num, p.den, q.num, q.den);
}

proof fn lemma_quotients_equal(a: int, b: int, c: int, d: int)
    by (nonlinear_arith)
    requires
        b != 0,
        d != 0,
    ensures
        (a as real / b as real == c as real / d as real) <==> a * d == c * b,
{
}

proof fn lemma_product_fits(a: i64, b: i64)
    by (nonlinear_arith)
    ensures
        -0x4000_0000_0000_0000_0000_0000_0000_0000 <= a * b
            <= 0x4000_0000_0000_0000_0000_0000_0000_0000,
{
}

impl Fraction {
    /// Whether `self` and `other` pass the cross-product test, which for
    /// fractions with nonzero denominators says that they have the same value.
    pub fn same_value(&self, other: &Fraction) -> (same: bool)
        ensures
            same == (self@.num * other@.den == other@.num * self@.den),
            self@.wf() && other@.wf() ==> same == (self@.value() == other@.value()),
    {
        proof {
            lemma_product_fits(self.num, other.den);
            lemma_product_fits(other.num, self.den);
            if self@.wf() && other@.wf() {
                lemma_same_value_is_cross_product(self@, other@);
            }
        }
        let left: i128 = (self.num as i128) * (other.den as i128);
        let right: i128 = (other.num as i128) * (self.den as i128);
        left == right
    }
}

} // verus!
