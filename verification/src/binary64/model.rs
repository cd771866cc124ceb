//! The mathematical reading of a bit pattern, and what each operation means on it.

use vstd::arithmetic::power2::pow2;
use vstd::prelude::*;

verus! {

/// The weight of the implicit leading bit of a normal significand, two to the 52nd power.
pub const HIDDEN: u64 = 0x10_0000_0000_0000;

/// The magnitude bits of infinity; larger magnitudes are not numbers.
pub const INFINITE: u64 = 0x7ff0_0000_0000_0000;

/// The bit that holds the sign.
pub const SIGN: u64 = 0x8000_0000_0000_0000;

/// The magnitude bits of the value that stands for "not a number" in every result.
pub const QUIET_NAN: u64 = 0x7ff8_0000_0000_0000;

/// The exponent of the smallest positive number, two to the minus 1074th power: every finite
/// number is a whole multiple of it.
pub const QUANTUM_EXPONENT: u64 = 1074;

/// A double-precision number, held as its bit pattern.
///
/// Equality of two values is equality of their bits; numeric comparison is `less`, `at_most` and
/// `same`.
#[derive(Clone, Copy, Debug, PartialEq, Eq, Structural)]
pub struct Binary64 {
    pub bits: u64,
}

impl Binary64 {
    /// The sign bit is set.
    pub open spec fn negative(self) -> bool {
        self.bits >= SIGN
    }

    /// The bits without the sign.
    pub open spec fn magnitude(self) -> nat {
        if self.bits >= SIGN {
            (self.bits - SIGN) as nat
        } else {
            self.bits as nat
        }
    }

    pub open spec fn nan(self) -> bool {
        self.magnitude() > INFINITE
    }

    pub open spec fn infinite(self) -> bool {
        self.magnitude() == INFINITE
    }

    pub open spec fn finite(self) -> bool {
        self.magnitude() < INFINITE
    }

    /// The value, counted in units of the smallest positive number.  It is exact for every
    /// finite number; the infinities are given the first value past the largest finite one.
    pub open spec fn scaled(self) -> int {
        if self.negative() {
            -(mag_value(self.magnitude()) as int)
        } else {
            mag_value(self.magnitude()) as int
        }
    }

    /// Neither positive nor negative, of either sign bit.
    pub open spec fn zero(self) -> bool {
        self.magnitude() == 0
    }
}

/// The value of magnitude bits, counted in units of the smallest positive number.
pub open spec fn mag_value(mag: nat) -> nat {
    let e = mag / (HIDDEN as nat);
    let f = mag % (HIDDEN as nat);
    if e == 0 {
        f
    } else {
        (HIDDEN as nat + f) * pow2((e - 1) as nat)
    }
}

/// How many units of the smallest positive number make one.
pub open spec fn unit() -> nat {
    pow2(QUANTUM_EXPONENT as nat)
}

/// The number with this sign and these magnitude bits.
pub open spec fn encode(negative: bool, mag: nat) -> Binary64 {
    Binary64 {
        bits: if negative {
            (SIGN + mag) as u64
        } else {
            mag as u64
        },
    }
}

/// `n / d` to the nearest whole number, ties to the even one.
pub open spec fn nearest_int(n: nat, d: nat) -> nat
    recommends
        d > 0,
{
    let q = n / d;
    let r = n % d;
    if 2 * r < d || (2 * r == d && q % 2 == 0) {
        q
    } else {
        q + 1
    }
}

/// The exponent of the grid of representable numbers around the whole number `q`: the number of
/// times `q` is halved before it fits in 53 bits.
pub open spec fn grid(q: nat) -> nat
    decreases q,
{
    if q < 2 * HIDDEN {
        0
    } else {
        1 + grid(q / 2)
    }
}

/// The magnitude bits of the representable number nearest to `n / d` units, ties to even;
/// infinity where that lies past the largest finite number.
pub open spec fn nearest(n: nat, d: nat) -> nat {
    let e = grid(n / d);
    let mag = e * HIDDEN as nat + nearest_int(n, d * pow2(e));
    if mag < INFINITE {
        mag
    } else {
        INFINITE as nat
    }
}

/// The result of an operation that has none.
pub open spec fn not_a_number() -> Binary64 {
    encode(false, QUIET_NAN as nat)
}

pub open spec fn abs_nat(x: int) -> nat {
    if x < 0 {
        (-x) as nat
    } else {
        x as nat
    }
}

pub open spec fn opposite(a: Binary64) -> Binary64 {
    encode(!a.negative(), a.magnitude())
}

#[verifier::opaque]
pub open spec fn plus(a: Binary64, b: Binary64) -> Binary64 {
    if a.nan() || b.nan() {
        not_a_number()
    } else if a.infinite() {
        if b.infinite() && a.negative() != b.negative() {
            not_a_number()
        } else {
            a
        }
    } else if b.infinite() {
        b
    } else {
        let s = a.scaled() + b.scaled();
        if s == 0 {
            encode(a.negative() && b.negative(), 0)
        } else {
            encode(s < 0, nearest(abs_nat(s), 1))
        }
    }
}

#[verifier::opaque]
pub open spec fn minus(a: Binary64, b: Binary64) -> Binary64 {
    plus(a, opposite(b))
}

#[verifier::opaque]
pub open spec fn times(a: Binary64, b: Binary64) -> Binary64 {
    let negative = a.negative() != b.negative();
    if a.nan() || b.nan() || (a.infinite() && b.zero()) || (a.zero() && b.infinite()) {
        not_a_number()
    } else if a.infinite() || b.infinite() {
        encode(negative, INFINITE as nat)
    } else {
        encode(negative, nearest(mag_value(a.magnitude()) * mag_value(b.magnitude()), unit()))
    }
}

#[verifier::opaque]
pub open spec fn over(a: Binary64, b: Binary64) -> Binary64 {
    let negative = a.negative() != b.negative();
    if a.nan() || b.nan() || (a.infinite() && b.infinite()) || (a.zero() && b.zero()) {
        not_a_number()
    } else if a.infinite() || b.zero() {
        encode(negative, INFINITE as nat)
    } else if b.infinite() {
        encode(negative, 0)
    } else {
        encode(negative, nearest(mag_value(a.magnitude()) * unit(), mag_value(b.magnitude())))
    }
}

/// The number nearest to the whole number `n`.
#[verifier::opaque]
pub open spec fn of_nat(n: nat) -> Binary64 {
    encode(false, nearest(n * unit(), 1))
}

/// The number nearest to the fraction `n / d`, which is what a decimal literal denotes.
pub open spec fn ratio(n: nat, d: nat) -> Binary64 {
    over(of_nat(n), of_nat(d))
}

/// Numeric order; false where either side is not a number.
#[verifier::opaque]
pub open spec fn less(a: Binary64, b: Binary64) -> bool {
    !a.nan() && !b.nan() && a.scaled() < b.scaled()
}

#[verifier::opaque]
pub open spec fn at_most(a: Binary64, b: Binary64) -> bool {
    !a.nan() && !b.nan() && a.scaled() <= b.scaled()
}

/// Numeric equality, under which the two zeros are equal and nothing equals a NaN.
#[verifier::opaque]
pub open spec fn same(a: Binary64, b: Binary64) -> bool {
    !a.nan() && !b.nan() && a.scaled() == b.scaled()
}

/// The smaller of two numbers, or the one that is a number.
pub open spec fn lesser(a: Binary64, b: Binary64) -> Binary64 {
    if a.nan() {
        b
    } else if b.nan() || at_most(a, b) {
        a
    } else {
        b
    }
}

/// The larger of two numbers, or the one that is a number.
pub open spec fn greater(a: Binary64, b: Binary64) -> Binary64 {
    if a.nan() {
        b
    } else if b.nan() || at_most(b, a) {
        a
    } else {
        b
    }
}

/// `a`, or the bound of `low..=high` that it lies past.
pub open spec fn within(a: Binary64, low: Binary64, high: Binary64) -> Binary64 {
    if less(a, low) {
        low
    } else if less(high, a) {
        high
    } else {
        a
    }
}

pub open spec fn unsigned(a: Binary64) -> Binary64 {
    encode(false, a.magnitude())
}

/// The largest whole number that is at most `a`.
#[verifier::opaque]
pub open spec fn rounded_down(a: Binary64) -> Binary64 {
    if !a.finite() {
        a
    } else {
        let v = mag_value(a.magnitude());
        let whole = if a.negative() {
            (v + unit() - 1) as nat / unit()
        } else {
            v / unit()
        };
        encode(a.negative(), nearest(whole * unit(), 1))
    }
}

/// The whole number nearest to `a`, halves away from zero.
#[verifier::opaque]
pub open spec fn rounded(a: Binary64) -> Binary64 {
    if !a.finite() {
        a
    } else {
        let v = mag_value(a.magnitude());
        encode(a.negative(), nearest((2 * v + unit()) / (2 * unit()) * unit(), 1))
    }
}

/// The whole part, within `0..=u64::MAX`; zero where `a` is not a number.
#[verifier::opaque]
pub open spec fn whole_u64(a: Binary64) -> u64 {
    if a.nan() || a.negative() {
        0
    } else {
        let whole = mag_value(a.magnitude()) / unit();
        if whole < u64::MAX {
            whole as u64
        } else {
            u64::MAX
        }
    }
}

/// The whole part, within `i64::MIN..=i64::MAX`; zero where `a` is not a number.
#[verifier::opaque]
pub open spec fn whole_i64(a: Binary64) -> i64 {
    let whole = mag_value(a.magnitude()) / unit();
    if a.nan() {
        0
    } else if a.negative() {
        if whole <= i64::MAX {
            (-whole) as i64
        } else {
            i64::MIN
        }
    } else if whole <= i64::MAX {
        whole as i64
    } else {
        i64::MAX
    }
}

/// The position of `a` in the total order of bit patterns, in which negative zero comes before
/// zero and every NaN has a place.
pub open spec fn total_position(a: Binary64) -> int {
    if a.negative() {
        -1 - a.magnitude()
    } else {
        a.magnitude() as int
    }
}

} // verus!
