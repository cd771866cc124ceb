//! Whole parts and rounding to whole numbers.

use vstd::arithmetic::div_mod::{
    lemma_fundamental_div_mod, lemma_fundamental_div_mod_converse,
};
use vstd::arithmetic::power2::{
    lemma_pow2_adds, lemma_pow2_pos, lemma_pow2_strictly_increases, pow2,
};
use vstd::prelude::*;

use super::arith::{lemma_nearest_representable, lemma_split, split_of};
use super::model::{
    mag_value, nearest, of_nat, rounded, rounded_down, unit, whole_i64, whole_u64, Binary64, HIDDEN,
    INFINITE, QUANTUM_EXPONENT, SIGN,
};
use super::rounding::{lemma_small_powers, power_of_two};

verus! {

/// A number whose significand counts ones, or more than ones, is whole.
proof fn lemma_whole(mag: nat, m: nat, e: nat)
    requires
        split_of(mag, m, e),
        e >= QUANTUM_EXPONENT,
    ensures
        mag_value(mag) == m * pow2((e - QUANTUM_EXPONENT) as nat) * unit(),
        mag_value(mag) / unit() == m * pow2((e - QUANTUM_EXPONENT) as nat),
        (mag_value(mag) + unit() - 1) as nat / unit() == m * pow2((e - QUANTUM_EXPONENT) as nat),
        (2 * mag_value(mag) + unit()) / (2 * unit()) == m * pow2((e - QUANTUM_EXPONENT) as nat),
{
    let c = pow2((e - QUANTUM_EXPONENT) as nat);
    let u = unit();
    let v = mag_value(mag);
    let q = m * c;
    lemma_pow2_pos(QUANTUM_EXPONENT as nat);
    lemma_pow2_adds((e - QUANTUM_EXPONENT) as nat, QUANTUM_EXPONENT as nat);
    assert(v == q * u) by (nonlinear_arith)
        requires
            v == m * (c * u),
            q == m * c,
    ;
    assert(v == q * u + 0) by (nonlinear_arith)
        requires
            v == q * u,
    ;
    lemma_fundamental_div_mod_converse(v as int, u as int, q as int, 0);
    lemma_fundamental_div_mod_converse(v + u - 1, u as int, q as int, u - 1);
    assert(2 * v + u == q * (2 * u) + u) by (nonlinear_arith)
        requires
            v == q * u,
    ;
    lemma_fundamental_div_mod_converse((2 * v + u) as int, (2 * u) as int, q as int, u as int);
}

/// Below that, the whole part and its two neighbours are quotients of the significand.
proof fn lemma_fraction(mag: nat, m: nat, e: nat)
    requires
        split_of(mag, m, e),
        e < QUANTUM_EXPONENT,
    ensures
        ({
            let w = pow2((QUANTUM_EXPONENT - e) as nat);
            let v = mag_value(mag);
            &&& v / unit() == m / w
            &&& (v + unit() - 1) as nat / unit() == m / w + (if m % w == 0 {
                0nat
            } else {
                1nat
            })
            &&& (2 * v + unit()) / (2 * unit()) == (2 * m + w) / (2 * w)
        }),
{
    let s = (QUANTUM_EXPONENT - e) as nat;
    let w = pow2(s);
    let c = pow2(e);
    let u = unit();
    let v = mag_value(mag);
    lemma_pow2_pos(s);
    lemma_pow2_pos(e);
    lemma_pow2_adds(s, e);
    assert(u == w * c);
    let q = m / w;
    let r = m % w;
    lemma_fundamental_div_mod(m as int, w as int);
    assert(v == q * u + r * c) by (nonlinear_arith)
        requires
            v == m * c,
            m == w * q + r,
            u == w * c,
    ;
    assert(0 <= r * c <= u - c) by (nonlinear_arith)
        requires
            0 <= r <= w - 1,
            u == w * c,
            c > 0,
    ;
    lemma_fundamental_div_mod_converse(v as int, u as int, q as int, (r * c) as int);
    if r == 0 {
        assert(r * c == 0) by (nonlinear_arith)
            requires
                r == 0,
        ;
        lemma_fundamental_div_mod_converse(v + u - 1, u as int, q as int, u - 1);
    } else {
        assert(r * c >= 1) by (nonlinear_arith)
            requires
                r >= 1,
                c >= 1,
        ;
        let q1: int = q as int + 1;
        assert(v + u - 1 == q1 * u + (r * c - 1)) by (nonlinear_arith)
            requires
                v == q * u + r * c,
                q1 == q + 1,
        ;
        lemma_fundamental_div_mod_converse(v + u - 1, u as int, q1, r * c - 1);
    }
    let q2 = (2 * m + w) / (2 * w);
    let r2 = (2 * m + w) % (2 * w);
    lemma_fundamental_div_mod((2 * m + w) as int, (2 * w) as int);
    assert(2 * v + u == q2 * (2 * u) + r2 * c) by (nonlinear_arith)
        requires
            v == m * c,
            2 * m + w == (2 * w) * q2 + r2,
            u == w * c,
    ;
    assert(0 <= r2 * c < 2 * u) by (nonlinear_arith)
        requires
            0 <= r2 < 2 * w,
            u == w * c,
            c > 0,
    ;
    lemma_fundamental_div_mod_converse((2 * v + u) as int, (2 * u) as int, q2 as int, (r2 * c) as int);
}

impl Binary64 {
    /// The whole part of a magnitude, at most `u64::MAX`.
    fn whole_magnitude(mag: u64) -> (r: u64)
        requires
            mag <= INFINITE,
        ensures
            r == (if mag_value(mag as nat) / unit() < u64::MAX {
                mag_value(mag as nat) / unit()
            } else {
                u64::MAX as nat
            }),
    {
        proof {
            lemma_split(mag as nat);
        }
        let field: u64 = mag / HIDDEN;
        let f: u64 = mag % HIDDEN;
        if field < 1075 {
            let m: u64 = if field == 0 {
                f
            } else {
                HIDDEN + f
            };
            let e: u64 = if field == 0 {
                0
            } else {
                field - 1
            };
            proof {
                lemma_fraction(mag as nat, m as nat, e as nat);
            }
            let s: u64 = 1074 - e;
            proof {
                lemma_small_powers();
                lemma_pow2_pos(s as nat);
                if s > 53 {
                    lemma_pow2_strictly_increases(53, s as nat);
                    vstd::arithmetic::div_mod::lemma_basic_div(m as int, pow2(s as nat) as int);
                }
            }
            if s > 53 {
                return 0;
            }
            let w: u128 = power_of_two(s as u32);
            proof {
                vstd::arithmetic::div_mod::lemma_div_is_ordered_by_denominator(
                    m as int,
                    1,
                    w as int,
                );
            }
            (m as u128 / w) as u64
        } else {
            let m: u64 = HIDDEN + f;
            let k: u64 = field - 1075;
            let ghost e = (field - 1) as nat;
            proof {
                lemma_whole(mag as nat, m as nat, e);
                lemma_small_powers();
                lemma_pow2_pos(k as nat);
            }
            if k >= 12 {
                proof {
                    assert(pow2(12) == 4096) by {
                        vstd::arithmetic::power2::lemma2_to64();
                    }
                    if k > 12 {
                        lemma_pow2_strictly_increases(12, k as nat);
                    }
                    assert(m * pow2(k as nat) >= HIDDEN * 4096) by (nonlinear_arith)
                        requires
                            m >= HIDDEN,
                            pow2(k as nat) >= 4096,
                    ;
                }
                return u64::MAX;
            }
            proof {
                assert(pow2(11) == 2048) by {
                    vstd::arithmetic::power2::lemma2_to64();
                }
                if k < 11 {
                    lemma_pow2_strictly_increases(k as nat, 11);
                }
                assert(m * pow2(k as nat) <= (2 * HIDDEN - 1) * 2048) by (nonlinear_arith)
                    requires
                        m <= 2 * HIDDEN - 1,
                        pow2(k as nat) <= 2048,
                ;
                assert(0 <= m * pow2(k as nat)) by (nonlinear_arith);
            }
            let w: u128 = power_of_two(k as u32);
            (m as u128 * w) as u64
        }
    }

    /// The whole part, within `0..=u64::MAX`.
    pub fn to_u64(self) -> (r: u64)
        ensures
            r == whole_u64(self),
    {
        proof {
            reveal(whole_u64);
        }
        if self.is_nan() || self.is_negative() {
            0
        } else {
            Self::whole_magnitude(self.magnitude_bits())
        }
    }

    /// The whole part, within `i64::MIN..=i64::MAX`.
    pub fn to_i64(self) -> (r: i64)
        ensures
            r == whole_i64(self),
    {
        proof {
            reveal(whole_i64);
        }
        if self.is_nan() {
            return 0;
        }
        let whole: u64 = Self::whole_magnitude(self.magnitude_bits());
        if self.is_negative() {
            if whole <= 0x7fff_ffff_ffff_ffff {
                -(whole as i64)
            } else {
                i64::MIN
            }
        } else if whole <= 0x7fff_ffff_ffff_ffff {
            whole as i64
        } else {
            i64::MAX
        }
    }

    /// The magnitude bits of a whole number.
    fn magnitude_of_whole(whole: u64) -> (mag: u64)
        ensures
            mag == nearest(whole as nat * unit(), 1),
            mag <= INFINITE,
    {
        proof {
            reveal(of_nat);
        }
        let r: Binary64 = Self::from_u64(whole);
        assert(nearest(whole as nat * unit(), 1) <= INFINITE);
        r.bits
    }

    /// The largest whole number that is at most this one.
    pub fn floor(self) -> (r: Self)
        ensures
            r == rounded_down(self),
    {
        proof {
            reveal(rounded_down);
        }
        if !self.is_finite() {
            return self;
        }
        let mag: u64 = self.magnitude_bits();
        let (m, e) = Self::split(mag);
        if e >= 1074 {
            proof {
                lemma_whole(mag as nat, m as nat, e as nat);
                lemma_nearest_representable(mag as nat);
            }
            return self;
        }
        let s: u32 = 1074 - e;
        proof {
            lemma_fraction(mag as nat, m as nat, e as nat);
            lemma_small_powers();
            lemma_pow2_pos(s as nat);
            if s > 53 {
                lemma_pow2_strictly_increases(53, s as nat);
                vstd::arithmetic::div_mod::lemma_basic_div(m as int, pow2(s as nat) as int);
                vstd::arithmetic::div_mod::lemma_small_mod(m as nat, pow2(s as nat));
            }
        }
        let mut whole: u64 = 0;
        let mut rest: bool = m != 0;
        if s <= 53 {
            let w: u128 = power_of_two(s);
            proof {
                vstd::arithmetic::div_mod::lemma_div_is_ordered_by_denominator(
                    m as int,
                    1,
                    w as int,
                );
            }
            whole = (m as u128 / w) as u64;
            rest = m as u128 % w != 0;
        }
        if self.is_negative() && rest {
            whole = whole + 1;
        }
        Self::pack(self.is_negative(), Self::magnitude_of_whole(whole))
    }

    /// The nearest whole number, halves away from zero.
    pub fn round(self) -> (r: Self)
        ensures
            r == rounded(self),
    {
        proof {
            reveal(rounded);
        }
        if !self.is_finite() {
            return self;
        }
        let mag: u64 = self.magnitude_bits();
        let (m, e) = Self::split(mag);
        if e >= 1074 {
            proof {
                lemma_whole(mag as nat, m as nat, e as nat);
                lemma_nearest_representable(mag as nat);
            }
            return self;
        }
        let s: u32 = 1074 - e;
        proof {
            lemma_fraction(mag as nat, m as nat, e as nat);
            lemma_small_powers();
            lemma_pow2_pos(s as nat);
            if s > 54 {
                lemma_pow2_strictly_increases(54, s as nat);
                assert(pow2(54) == 4 * HIDDEN) by {
                    vstd::arithmetic::power2::lemma2_to64();
                    vstd::arithmetic::power2::lemma2_to64_rest();
                }
                vstd::arithmetic::div_mod::lemma_basic_div(
                    (2 * m + pow2(s as nat)) as int,
                    2 * pow2(s as nat) as int,
                );
            }
        }
        let mut whole: u64 = 0;
        if s <= 54 {
            let w: u128 = power_of_two(s);
            proof {
                let q = (2 * m + w) as int / (2 * w) as int;
                lemma_fundamental_div_mod((2 * m + w) as int, (2 * w) as int);
                assert(q <= m + 1) by (nonlinear_arith)
                    requires
                        (2 * w) * q <= 2 * m + w,
                        w >= 1,
                        m >= 0,
                ;
                assert(w <= 4 * HIDDEN) by {
                    vstd::arithmetic::power2::lemma2_to64();
                    vstd::arithmetic::power2::lemma2_to64_rest();
                    if s < 54 {
                        lemma_pow2_strictly_increases(s as nat, 54);
                    }
                }
            }
            whole = ((2 * m as u128 + w) / (2 * w)) as u64;
        }
        Self::pack(self.is_negative(), Self::magnitude_of_whole(whole))
    }
}

} // verus!
