//! Comparison.

use vstd::arithmetic::power2::{lemma_pow2_adds, lemma_pow2_pos, lemma_pow2_strictly_increases, pow2};
use vstd::prelude::*;

use super::arith::lemma_split;
use super::model::{
    at_most, greater, less, lesser, mag_value, same, total_position, within, Binary64, HIDDEN,
    INFINITE,
};
use super::rounding::lemma_small_powers;

verus! {

/// Larger magnitude bits stand for a larger value.
pub proof fn lemma_magnitude_order(a: nat, b: nat)
    requires
        a < b <= INFINITE,
    ensures
        mag_value(a) < mag_value(b),
{
    lemma_split(a);
    lemma_split(b);
    let h = HIDDEN as nat;
    let fa = a / h;
    let fb = b / h;
    let ra = a % h;
    let rb = b % h;
    vstd::arithmetic::div_mod::lemma_fundamental_div_mod(a as int, h as int);
    vstd::arithmetic::div_mod::lemma_fundamental_div_mod(b as int, h as int);
    vstd::arithmetic::div_mod::lemma_div_is_ordered(a as int, b as int, h as int);
    if fa == fb {
        if fa > 0 {
            let w = pow2((fa - 1) as nat);
            lemma_pow2_pos((fa - 1) as nat);
            assert((h + ra) * w < (h + rb) * w) by (nonlinear_arith)
                requires
                    ra < rb,
                    w > 0,
            ;
        }
    } else {
        let w = pow2((fb - 1) as nat);
        lemma_pow2_pos((fb - 1) as nat);
        assert((h + rb) * w >= h * w) by (nonlinear_arith);
        if fa == 0 {
            assert(h * w >= h) by (nonlinear_arith)
                requires
                    w >= 1,
            ;
        } else {
            let u = pow2((fa - 1) as nat);
            lemma_pow2_pos((fa - 1) as nat);
            lemma_small_powers();
            lemma_pow2_adds(1, (fa - 1) as nat);
            if fa < fb - 1 {
                lemma_pow2_strictly_increases(fa, (fb - 1) as nat);
            }
            assert(pow2(1) == 2) by {
                vstd::arithmetic::power2::lemma2_to64();
            }
            assert((h + ra) * u < h * w) by (nonlinear_arith)
                requires
                    ra < h,
                    u > 0,
                    2 * u <= w,
            ;
        }
    }
}

/// The magnitude bits of zero stand for zero, and no others do.
pub proof fn lemma_magnitude_zero(a: nat)
    requires
        a <= INFINITE,
    ensures
        mag_value(a) == 0 <==> a == 0,
{
    if a > 0 {
        lemma_magnitude_order(0, a);
    }
    assert(mag_value(0) == 0);
}

/// Where a number stands in numeric order: its magnitude bits, with its sign.
pub open spec fn rank(a: Binary64) -> int {
    if a.negative() {
        -(a.magnitude() as int)
    } else {
        a.magnitude() as int
    }
}

/// Numbers are ordered as their ranks are.
pub proof fn lemma_rank(a: Binary64, b: Binary64)
    requires
        !a.nan(),
        !b.nan(),
    ensures
        a.scaled() < b.scaled() <==> rank(a) < rank(b),
        a.scaled() == b.scaled() <==> rank(a) == rank(b),
{
    let ma = a.magnitude();
    let mb = b.magnitude();
    lemma_magnitude_zero(ma);
    lemma_magnitude_zero(mb);
    if ma < mb {
        lemma_magnitude_order(ma, mb);
    } else if mb < ma {
        lemma_magnitude_order(mb, ma);
    }
}

impl Binary64 {
    fn rank_bits(self) -> (r: i64)
        requires
            !self.nan(),
        ensures
            r == rank(self),
    {
        let mag: u64 = self.magnitude_bits();
        if self.is_negative() {
            -(mag as i64)
        } else {
            mag as i64
        }
    }

    /// `self < other`.
    pub fn lt(self, other: Self) -> (r: bool)
        ensures
            r == less(self, other),
    {
        proof {
            reveal(less);
        }
        if self.is_nan() || other.is_nan() {
            return false;
        }
        proof {
            lemma_rank(self, other);
        }
        self.rank_bits() < other.rank_bits()
    }

    /// `self <= other`.
    pub fn le(self, other: Self) -> (r: bool)
        ensures
            r == at_most(self, other),
    {
        proof {
            reveal(at_most);
        }
        if self.is_nan() || other.is_nan() {
            return false;
        }
        proof {
            lemma_rank(self, other);
        }
        self.rank_bits() <= other.rank_bits()
    }

    /// `self == other` as numbers.
    pub fn equals(self, other: Self) -> (r: bool)
        ensures
            r == same(self, other),
    {
        proof {
            reveal(same);
        }
        if self.is_nan() || other.is_nan() {
            return false;
        }
        proof {
            lemma_rank(self, other);
        }
        self.rank_bits() == other.rank_bits()
    }

    /// The smaller of two numbers, or the one that is a number.
    pub fn min(self, other: Self) -> (r: Self)
        ensures
            r == lesser(self, other),
    {
        if self.is_nan() {
            other
        } else if other.is_nan() || self.le(other) {
            self
        } else {
            other
        }
    }

    /// The larger of two numbers, or the one that is a number.
    pub fn max(self, other: Self) -> (r: Self)
        ensures
            r == greater(self, other),
    {
        if self.is_nan() {
            other
        } else if other.is_nan() || other.le(self) {
            self
        } else {
            other
        }
    }

    /// The number, or the bound of `low..=high` that it lies past.
    pub fn clamp(self, low: Self, high: Self) -> (r: Self)
        ensures
            r == within(self, low, high),
    {
        if self.lt(low) {
            low
        } else if high.lt(self) {
            high
        } else {
            self
        }
    }

    /// The place in the total order of bit patterns.
    pub fn position(self) -> (r: i64)
        ensures
            r == total_position(self),
    {
        let mag: u64 = self.magnitude_bits();
        if self.is_negative() {
            -1 - (mag as i64)
        } else {
            mag as i64
        }
    }
}

} // verus!
