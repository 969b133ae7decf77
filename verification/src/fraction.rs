//! Exact fractions of whole numbers, as contracts speak of them.
//!
//! Nothing here runs: a [`Fraction`] exists in specifications and proofs
//! only. Executable code works on whole numbers and is proved to agree.

use vstd::arithmetic::div_mod::{
    lemma_div_is_ordered, lemma_div_multiples_vanish, lemma_div_multiples_vanish_quotient,
};
use vstd::prelude::*;

verus! {

/// The exact fraction `num / den`.
///
/// The operations below keep a positive denominator positive, and mean what
/// their names say for such fractions only.
pub struct Fraction {
    pub num: int,
    pub den: int,
}

/// The fraction `num / den`.
#[verifier::inline]
pub open spec fn quotient(num: int, den: int) -> Fraction {
    Fraction { num, den }
}

/// The whole number `n` as a fraction.
#[verifier::inline]
pub open spec fn whole(n: int) -> Fraction {
    Fraction { num: n, den: 1 }
}

/// `n` hundredths.
#[verifier::inline]
pub open spec fn percent(n: int) -> Fraction {
    Fraction { num: n, den: 100 }
}

impl Fraction {
    /// Whether the denominator is positive.
    #[verifier::inline]
    pub open spec fn well_formed(self) -> bool {
        self.den > 0
    }

    /// The sum of two fractions.
    #[verifier::inline]
    pub open spec fn plus(self, other: Fraction) -> Fraction {
        Fraction { num: self.num * other.den + other.num * self.den, den: self.den * other.den }
    }

    /// The difference of two fractions.
    #[verifier::inline]
    pub open spec fn minus(self, other: Fraction) -> Fraction {
        Fraction { num: self.num * other.den - other.num * self.den, den: self.den * other.den }
    }

    /// The product of two fractions.
    #[verifier::inline]
    pub open spec fn times(self, other: Fraction) -> Fraction {
        Fraction { num: self.num * other.num, den: self.den * other.den }
    }

    /// The fraction divided by one with a positive numerator.
    #[verifier::inline]
    pub open spec fn over(self, other: Fraction) -> Fraction {
        Fraction { num: self.num * other.den, den: self.den * other.num }
    }

    /// Whether the fraction is no larger than `other`.
    #[verifier::inline]
    pub open spec fn at_most(self, other: Fraction) -> bool {
        self.num * other.den <= other.num * self.den
    }

    /// Whether two fractions stand for the same number.
    #[verifier::inline]
    pub open spec fn same_as(self, other: Fraction) -> bool {
        self.num * other.den == other.num * self.den
    }

    /// The smaller of two fractions.
    #[verifier::inline]
    pub open spec fn least(self, other: Fraction) -> Fraction {
        if self.at_most(other) {
            self
        } else {
            other
        }
    }

    /// The largest whole number that is no larger than the fraction.
    #[verifier::inline]
    pub open spec fn floor(self) -> int {
        self.num / self.den
    }
}

/// The floor of a well-formed fraction is the one whole number `n` with
/// `n <= num / den < n + 1`.
pub proof fn law_floor_is_largest_whole_below(fraction: Fraction, n: int)
    requires
        fraction.well_formed(),
    ensures
        n == fraction.floor() <==> whole(n).at_most(fraction) && !whole(n + 1).at_most(fraction),
{
    let Fraction { num, den } = fraction;
    vstd::arithmetic::div_mod::lemma_fundamental_div_mod(num, den);
    vstd::arithmetic::div_mod::lemma_mod_bound(num, den);
    if n * den <= num && num < (n + 1) * den {
        lemma_floor_at_least(num, den, n);
        assert(num <= (n + 1) * den - 1);
        assert(num / den < n + 1) by (nonlinear_arith)
            requires
                den > 0,
                num < (n + 1) * den,
                num == den * (num / den) + (num % den),
                0 <= num % den,
        ;
    }
    if n == num / den {
        assert(n * den <= num && num < (n + 1) * den) by (nonlinear_arith)
            requires
                den > 0,
                n == num / den,
                num == den * (num / den) + (num % den),
                0 <= num % den < den,
        ;
    }
}

/// A floor is at least `lo` when the numerator reaches `lo` denominators.
pub proof fn lemma_floor_at_least(num: int, den: int, lo: int)
    requires
        den > 0,
        lo * den <= num,
    ensures
        lo <= num / den,
{
    lemma_div_is_ordered(lo * den, num, den);
    lemma_div_multiples_vanish(lo, den);
    assert(den * lo == lo * den) by (nonlinear_arith);
}

/// A floor is at most `hi` when the numerator stays within `hi` denominators.
pub proof fn lemma_floor_at_most(num: int, den: int, hi: int)
    requires
        den > 0,
        num <= hi * den,
    ensures
        num / den <= hi,
{
    lemma_div_is_ordered(num, hi * den, den);
    lemma_div_multiples_vanish(hi, den);
    assert(den * hi == hi * den) by (nonlinear_arith);
}

/// A factor shared by numerator and denominator does not change the floor.
pub proof fn lemma_floor_cancels_factor(factor: int, num: int, den: int)
    requires
        factor > 0,
        num >= 0,
        den > 0,
    ensures
        (factor * num) / (factor * den) == num / den,
{
    lemma_div_multiples_vanish_quotient(factor, num, den);
}

} // verus!
