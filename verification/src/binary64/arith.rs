//! Addition, subtraction, multiplication and division.

use vstd::arithmetic::power2::{
    lemma_pow2_adds, lemma_pow2_pos, lemma_pow2_strictly_increases, lemma_pow2_unfold, pow2,
};
use vstd::prelude::*;

use super::model::{
    abs_nat, encode, grid, mag_value, minus, nearest, nearest_int, not_a_number, of_nat, opposite,
    over, plus, ratio, times, unit, unsigned, Binary64, HIDDEN, INFINITE, QUANTUM_EXPONENT,
    QUIET_NAN, SIGN,
};
use super::rounding::{
    bit_length, lemma_grid, lemma_nearest_int_exact, lemma_small_powers, round_magnitude,
    whole_part,
};

verus! {

/// A magnitude split into its significand and the power of two that it counts.
pub open spec fn split_of(mag: nat, m: nat, e: nat) -> bool {
    &&& mag_value(mag) == m * pow2(e)
    &&& m < 2 * HIDDEN
    &&& m >= HIDDEN || e == 0
    &&& mag == e * HIDDEN + m
    &&& mag < INFINITE ==> e <= 2045
}

/// Every magnitude is its significand added to its exponent field.
pub proof fn lemma_split(mag: nat)
    requires
        mag <= INFINITE,
    ensures
        ({
            let field = mag / (HIDDEN as nat);
            let f = mag % (HIDDEN as nat);
            if field == 0 {
                split_of(mag, f, 0)
            } else {
                split_of(mag, HIDDEN as nat + f, (field - 1) as nat)
            }
        }),
{
    lemma_small_powers();
    let field = mag / (HIDDEN as nat);
    let f = mag % (HIDDEN as nat);
    vstd::arithmetic::div_mod::lemma_fundamental_div_mod(mag as int, HIDDEN as int);
    if field == 0 {
        assert(f * pow2(0) == f) by (nonlinear_arith)
            requires
                pow2(0) == 1,
        ;
    } else {
        assert((field - 1) * HIDDEN == field * HIDDEN - HIDDEN) by (nonlinear_arith);
        assert(HIDDEN as nat * field == field * HIDDEN as nat) by (nonlinear_arith);
        if mag < INFINITE && field >= 2047 {
            assert(field * HIDDEN >= 2047 * HIDDEN) by (nonlinear_arith)
                requires
                    field >= 2047,
            ;
        }
    }
}

/// A representable number plus or minus less than a quarter of its last place rounds back to
/// itself.
proof fn lemma_absorbs(mag: nat, m: nat, e: nat, t: nat)
    requires
        split_of(mag, m, e),
        mag < INFINITE,
        4 * t < pow2(e),
    ensures
        nearest(mag_value(mag) + t, 1) == mag,
        t > 0 ==> nearest((mag_value(mag) - t) as nat, 1) == mag,
        m > 0 ==> mag_value(mag) > t,
{
    lemma_small_powers();
    let w = pow2(e);
    let v = mag_value(mag);
    lemma_pow2_pos(e);
    lemma_pow2_adds(52, e);
    lemma_pow2_adds(53, e);
    if m > 0 {
        assert(m * w >= w) by (nonlinear_arith)
            requires
                m >= 1,
        ;
    }
    // Above: the quotient by the grid is `m` and the rest is `t`.
    let up = v + t;
    assert(up < 2 * HIDDEN * w) by (nonlinear_arith)
        requires
            up == m * w + t,
            m + 1 <= 2 * HIDDEN,
            t < w,
    ;
    assert(up / 1 == up);
    if e > 0 {
        assert(up >= HIDDEN * w) by (nonlinear_arith)
            requires
                up >= m * w,
                m >= HIDDEN,
        ;
    } else {
        assert(w == 1);
    }
    lemma_grid(up, e);
    assert(m * w == w * m) by (nonlinear_arith);
    assert(1 * w == w);
    vstd::arithmetic::div_mod::lemma_fundamental_div_mod_converse(
        up as int,
        w as int,
        m as int,
        t as int,
    );
    assert(nearest_int(up, w) == m);
    if t > 0 {
        // Below: the quotient is one less, on the same grid or on the next finer one.
        assert(e >= 2) by {
            if e == 1 {
                assert(pow2(1) == 2);
            }
        }
        let down = (v - t) as nat;
        assert(down / 1 == down);
        if m > HIDDEN {
            assert(down >= HIDDEN * w) by (nonlinear_arith)
                requires
                    down == m * w - t,
                    m >= HIDDEN + 1,
                    t < w,
            ;
            assert(down < 2 * HIDDEN * w) by (nonlinear_arith)
                requires
                    down < m * w,
                    m <= 2 * HIDDEN,
                    w > 0,
            ;
            lemma_grid(down, e);
            assert(down == w * (m - 1) + (w - t)) by (nonlinear_arith)
                requires
                    down == m * w - t,
            ;
            vstd::arithmetic::div_mod::lemma_fundamental_div_mod_converse(
                down as int,
                w as int,
                m - 1,
                w - t,
            );
            assert(nearest_int(down, w) == m);
        } else {
            let e1 = (e - 1) as nat;
            let h = pow2(e1);
            lemma_pow2_unfold(e);
            lemma_pow2_adds(52, e1);
            lemma_pow2_adds(53, e1);
            assert(w == 2 * h);
            assert(down == 2 * HIDDEN * h - t) by (nonlinear_arith)
                requires
                    down == m * w - t,
                    m == HIDDEN,
                    w == 2 * h,
            ;
            assert(down >= HIDDEN * h) by (nonlinear_arith)
                requires
                    down == 2 * HIDDEN * h - t,
                    t < h,
                    HIDDEN >= 1,
            ;
            lemma_grid(down, e1);
            assert(down == h * (2 * HIDDEN - 1) + (h - t)) by (nonlinear_arith)
                requires
                    down == 2 * HIDDEN * h - t,
            ;
            vstd::arithmetic::div_mod::lemma_fundamental_div_mod_converse(
                down as int,
                h as int,
                2 * HIDDEN - 1,
                h - t,
            );
            assert(1 * h == h);
            assert(nearest_int(down, h) == 2 * HIDDEN);
            assert(e1 * HIDDEN + 2 * HIDDEN == e * HIDDEN + HIDDEN) by (nonlinear_arith)
                requires
                    e1 == e - 1,
            ;
        }
    }
}

/// A representable number is its own nearest representable number.
pub proof fn lemma_nearest_representable(mag: nat)
    requires
        mag < INFINITE,
    ensures
        nearest(mag_value(mag), 1) == mag,
{
    lemma_split(mag);
    let field = mag / (HIDDEN as nat);
    let f = mag % (HIDDEN as nat);
    if field == 0 {
        lemma_pow2_pos(0);
        lemma_absorbs(mag, f, 0, 0);
    } else {
        lemma_pow2_pos((field - 1) as nat);
        lemma_absorbs(mag, HIDDEN as nat + f, (field - 1) as nat, 0);
    }
}

/// A significand at an exponent more than 64 below another counts for less than a quarter of the
/// other's last place.
proof fn lemma_far_below(m: nat, low: nat, high: nat)
    requires
        m < 2 * HIDDEN,
        low + 64 < high,
    ensures
        4 * (m * pow2(low)) < pow2(high),
{
    lemma_small_powers();
    lemma_pow2_adds(53, low);
    lemma_pow2_adds(2, 53 + low);
    lemma_pow2_adds(1, 1);
    lemma_pow2_strictly_increases(55 + low, high);
    lemma_pow2_pos(low);
    assert(4 * (m * pow2(low)) < pow2(55 + low)) by (nonlinear_arith)
        requires
            pow2(55 + low) == pow2(2) * pow2(53 + low),
            pow2(53 + low) == pow2(53) * pow2(low),
            pow2(2) == 4,
            pow2(53) == 2 * HIDDEN,
            m < 2 * HIDDEN,
            pow2(low) > 0,
    ;
}

/// Nothing is its own nearest number.
pub proof fn lemma_nearest_zero(d: nat)
    requires
        d > 0,
    ensures
        nearest(0, d) == 0,
{
    lemma_small_powers();
    vstd::arithmetic::div_mod::lemma_basic_div(0, d as int);
    assert(d * pow2(0) == d) by (nonlinear_arith)
        requires
            pow2(0) == 1,
    ;
    lemma_nearest_int_exact(0, d);
    assert(0 * d == 0);
}

/// A whole number is not a NaN.
pub proof fn lemma_of_nat_is_number(n: nat)
    ensures
        !of_nat(n).nan(),
        !of_nat(n).negative(),
{
    reveal(of_nat);
}

/// Zero is the smallest whole number.
pub proof fn lemma_of_nat_zero()
    ensures
        of_nat(0) == (Binary64 { bits: 0 }),
        of_nat(0).scaled() == 0,
        forall|n: nat| #![trigger of_nat(n)] of_nat(n).scaled() >= 0,
{
    reveal(of_nat);
    lemma_nearest_zero(1);
    assert(0 * unit() == 0);
    lemma_split(0);
    assert forall|n: nat| #![trigger of_nat(n)] of_nat(n).scaled() >= 0 by {
        lemma_of_nat_is_number(n);
    }
}

/// Halving brings a whole number within 53 bits in as many steps as its size asks for.
pub(super) proof fn lemma_grid_fits(q: nat, k: nat)
    requires
        q < 2 * HIDDEN * pow2(k),
    ensures
        grid(q) <= k,
        q / pow2(grid(q)) < 2 * HIDDEN,
        grid(q) > 0 ==> q / pow2(grid(q)) >= HIDDEN,
    decreases k,
{
    lemma_small_powers();
    lemma_pow2_pos(k);
    if q < 2 * HIDDEN {
        assert(q / 1 == q);
    } else {
        if k == 0 {
            assert(2 * HIDDEN * pow2(k) == 2 * HIDDEN) by (nonlinear_arith)
                requires
                    pow2(k) == 1,
            ;
        }
        let k1 = (k - 1) as nat;
        lemma_pow2_unfold(k);
        assert(q / 2 < 2 * HIDDEN * pow2(k1)) by (nonlinear_arith)
            requires
                q < 2 * HIDDEN * pow2(k),
                pow2(k) == 2 * pow2(k1),
        ;
        lemma_grid_fits(q / 2, k1);
        let g = grid(q / 2);
        lemma_pow2_pos(g);
        lemma_pow2_unfold(g + 1);
        vstd::arithmetic::div_mod::lemma_div_denominator(q as int, 2, pow2(g) as int);
        assert(2 * pow2(g) == pow2(grid(q)));
        if g == 0 {
            assert(q / 2 >= HIDDEN);
            assert((q / 2) / 1 == q / 2);
        }
    }
}

/// A whole number of 64 bits is a finite number, and zero only where it is zero.
pub proof fn lemma_of_nat_is_finite(n: nat)
    requires
        n < 0x1_0000_0000_0000_0000,
    ensures
        of_nat(n).finite(),
        of_nat(n).zero() <==> n == 0,
{
    reveal(of_nat);
    lemma_nearest_zero(1);
    assert(0 * unit() == 0);
    lemma_small_powers();
    let q = n * unit();
    let u = unit();
    lemma_pow2_pos(QUANTUM_EXPONENT as nat);
    lemma_pow2_adds(11, QUANTUM_EXPONENT as nat);
    assert(pow2(11) == 2048) by {
        vstd::arithmetic::power2::lemma2_to64();
    }
    assert(q < 2 * HIDDEN * pow2(1085)) by (nonlinear_arith)
        requires
            q == n * u,
            n < 0x1_0000_0000_0000_0000,
            pow2(1085) == 2048 * u,
            u > 0,
    ;
    lemma_grid_fits(q, 1085);
    let e = grid(q);
    let w = pow2(e);
    lemma_pow2_pos(e);
    assert(q / 1 == q);
    assert(1 * w == w);
    assert(nearest_int(q, w) <= 2 * HIDDEN);
    assert(e * HIDDEN <= 1085 * HIDDEN) by (nonlinear_arith)
        requires
            e <= 1085,
    ;
    if n > 0 {
        assert(q >= u) by (nonlinear_arith)
            requires
                q == n * u,
                n >= 1,
        ;
        lemma_pow2_strictly_increases(53, QUANTUM_EXPONENT as nat);
        assert(q >= 2 * HIDDEN);
        assert(e >= 1);
        assert(e * HIDDEN >= HIDDEN) by (nonlinear_arith)
            requires
                e >= 1,
        ;
    }
}

/// A fraction of whole numbers of 64 bits, not over zero, is not a NaN.
pub proof fn lemma_ratio_is_number(n: nat, d: nat)
    requires
        n < 0x1_0000_0000_0000_0000,
        0 < d < 0x1_0000_0000_0000_0000,
    ensures
        !ratio(n, d).nan(),
{
    reveal(over);
    lemma_of_nat_is_finite(n);
    lemma_of_nat_is_finite(d);
}

impl Binary64 {
    pub fn is_negative(self) -> (r: bool)
        ensures
            r == self.negative(),
    {
        self.bits >= SIGN
    }

    /// The bits without the sign.
    pub fn magnitude_bits(self) -> (mag: u64)
        ensures
            mag == self.magnitude(),
            mag < SIGN,
    {
        if self.bits >= SIGN {
            self.bits - SIGN
        } else {
            self.bits
        }
    }

    pub fn is_nan(self) -> (r: bool)
        ensures
            r == self.nan(),
    {
        self.magnitude_bits() > INFINITE
    }

    /// Neither infinite nor a NaN.
    pub fn is_finite(self) -> (r: bool)
        ensures
            r == self.finite(),
    {
        self.magnitude_bits() < INFINITE
    }

    /// The number with this sign and these magnitude bits.
    pub(super) fn pack(negative: bool, mag: u64) -> (r: Self)
        requires
            mag < SIGN,
        ensures
            r == encode(negative, mag as nat),
    {
        if negative {
            Binary64 { bits: SIGN + mag }
        } else {
            Binary64 { bits: mag }
        }
    }

    pub fn quiet_nan() -> (r: Self)
        ensures
            r == not_a_number(),
    {
        Binary64 { bits: QUIET_NAN }
    }

    pub fn infinity() -> (r: Self)
        ensures
            r == encode(false, INFINITE as nat),
    {
        Binary64 { bits: INFINITE }
    }

    /// The significand and the exponent of a finite magnitude.
    pub(super) fn split(mag: u64) -> (r: (u64, u32))
        requires
            mag < INFINITE,
        ensures
            split_of(mag as nat, r.0 as nat, r.1 as nat),
            r.1 <= 2045,
            r.0 < 2 * HIDDEN,
            (r.0 == 0) == (mag == 0),
    {
        proof {
            lemma_split(mag as nat);
        }
        let field: u64 = mag / HIDDEN;
        let f: u64 = mag % HIDDEN;
        if field == 0 {
            (f, 0)
        } else {
            (HIDDEN + f, (field - 1) as u32)
        }
    }

    /// The same number with the other sign.
    pub fn neg(self) -> (r: Self)
        ensures
            r == opposite(self),
    {
        Self::pack(!self.is_negative(), self.magnitude_bits())
    }

    /// The number without its sign.
    pub fn abs(self) -> (r: Self)
        ensures
            r == unsigned(self),
    {
        Self::pack(false, self.magnitude_bits())
    }

    /// The sum.
    pub fn add(self, other: Self) -> (r: Self)
        ensures
            r == plus(self, other),
    {
        proof {
            reveal(plus);
        }
        if self.is_nan() || other.is_nan() {
            return Self::quiet_nan();
        }
        if !self.is_finite() {
            if !other.is_finite() && self.is_negative() != other.is_negative() {
                return Self::quiet_nan();
            }
            return self;
        }
        if !other.is_finite() {
            return other;
        }
        let (ma, ea) = Self::split(self.magnitude_bits());
        let (mb, eb) = Self::split(other.magnitude_bits());
        if ea >= eb {
            Self::add_aligned(self, ma, ea, other, mb, eb)
        } else {
            Self::add_aligned(other, mb, eb, self, ma, ea)
        }
    }

    /// The sum of two finite numbers, the one with the larger exponent first.
    fn add_aligned(a: Self, ma: u64, ea: u32, b: Self, mb: u64, eb: u32) -> (r: Self)
        requires
            a.finite(),
            b.finite(),
            split_of(a.magnitude(), ma as nat, ea as nat),
            split_of(b.magnitude(), mb as nat, eb as nat),
            eb <= ea <= 2045,
        ensures
            r == plus(a, b),
            r == plus(b, a),
    {
        proof {
            reveal(plus);
        }
        let ghost s = a.scaled() + b.scaled();
        let ghost va = mag_value(a.magnitude());
        let ghost vb = mag_value(b.magnitude());
        let d: u32 = ea - eb;
        if d > 64 {
            proof {
                // The smaller operand is under a quarter of the last place of the larger.
                lemma_far_below(mb as nat, eb as nat, ea as nat);
                lemma_absorbs(a.magnitude(), ma as nat, ea as nat, vb);
                lemma_pow2_pos(ea as nat);
                lemma_absorbs(a.magnitude(), ma as nat, ea as nat, 0);
                if a.negative() == b.negative() {
                    assert(abs_nat(s) == va + vb);
                } else {
                    assert(abs_nat(s) == va - vb);
                }
            }
            return a;
        }
        proof {
            lemma_small_powers();
            lemma_pow2_adds(d as nat, eb as nat);
            lemma_pow2_pos(d as nat);
            lemma_pow2_pos(eb as nat);
            if d < 64 {
                lemma_pow2_strictly_increases(d as nat, 64);
            }
            assert(ma * pow2(d as nat) <= 2 * HIDDEN * 0x1_0000_0000_0000_0000) by (nonlinear_arith)
                requires
                    ma < 2 * HIDDEN,
                    pow2(d as nat) <= 0x1_0000_0000_0000_0000,
            ;
            assert(0 <= ma * pow2(d as nat)) by (nonlinear_arith);
            assert(va == (ma * pow2(d as nat)) * pow2(eb as nat)) by (nonlinear_arith)
                requires
                    va == ma * (pow2(d as nat) * pow2(eb as nat)),
            ;
        }
        let high: i128 = (ma as u128 * super::rounding::power_of_two(d)) as i128;
        let low: i128 = mb as i128;
        let signed_high: i128 = if a.is_negative() {
            -high
        } else {
            high
        };
        let signed_low: i128 = if b.is_negative() {
            -low
        } else {
            low
        };
        let total: i128 = signed_high + signed_low;
        proof {
            let w = pow2(eb as nat);
            assert(s == total * w) by (nonlinear_arith)
                requires
                    s == (if a.negative() { -(high * w) } else { high * w }) + (if b.negative() {
                        -(low * w)
                    } else {
                        low * w
                    }),
                    total == (if a.negative() { -high } else { high as int }) + (if b.negative() {
                        -low
                    } else {
                        low as int
                    }),
            ;
            assert((total == 0) == (s == 0)) by (nonlinear_arith)
                requires
                    s == total * w,
                    w > 0,
            ;
            assert((total < 0) == (s < 0)) by (nonlinear_arith)
                requires
                    s == total * w,
                    w > 0,
            ;
        }
        if total == 0 {
            return Self::pack(a.is_negative() && b.is_negative(), 0);
        }
        let p: u128 = if total < 0 {
            (-total) as u128
        } else {
            total as u128
        };
        let ghost n = abs_nat(s);
        proof {
            let w = pow2(eb as nat);
            assert(n == p * w) by (nonlinear_arith)
                requires
                    s == total * w,
                    n == abs_nat(s),
                    p == abs_nat(total as int),
                    w > 0,
            ;
            assert(n * pow2(0) == p * (1 * w)) by (nonlinear_arith)
                requires
                    n == p * w,
                    pow2(0) == 1,
            ;
            lemma_exact_part(n, 1, eb as int, p as nat);
        }
        let mag: u64 = round_magnitude(p, eb as i32, false, Ghost(n), Ghost(1));
        Self::pack(total < 0, mag)
    }

    /// The difference.
    pub fn sub(self, other: Self) -> (r: Self)
        ensures
            r == minus(self, other),
    {
        proof {
            reveal(minus);
        }
        self.add(other.neg())
    }

    /// The product.
    pub fn mul(self, other: Self) -> (r: Self)
        ensures
            r == times(self, other),
    {
        proof {
            reveal(times);
        }
        let negative: bool = self.is_negative() != other.is_negative();
        let a: u64 = self.magnitude_bits();
        let b: u64 = other.magnitude_bits();
        if a > INFINITE || b > INFINITE || (a == INFINITE && b == 0) || (a == 0 && b == INFINITE) {
            return Self::quiet_nan();
        }
        if a == INFINITE || b == INFINITE {
            return Self::pack(negative, INFINITE);
        }
        let ghost n = mag_value(a as nat) * mag_value(b as nat);
        let (ma, ea) = Self::split(a);
        let (mb, eb) = Self::split(b);
        proof {
            lemma_pow2_pos(QUANTUM_EXPONENT as nat);
        }
        if ma == 0 || mb == 0 {
            proof {
                assert(n == 0) by {
                    lemma_split(0);
                    assert(mag_value(0) == 0);
                    assert(0 * mag_value(b as nat) == 0);
                    assert(mag_value(a as nat) * 0 == 0);
                }
                lemma_nearest_zero(unit());
            }
            return Self::pack(negative, 0);
        }
        proof {
            assert(0 < ma * mb <= (2 * HIDDEN) * (2 * HIDDEN)) by (nonlinear_arith)
                requires
                    0 < ma <= 2 * HIDDEN,
                    0 < mb <= 2 * HIDDEN,
            ;
        }
        let p: u128 = ma as u128 * mb as u128;
        let k: i32 = ea as i32 + eb as i32 - 1074;
        proof {
            let wa = pow2(ea as nat);
            let wb = pow2(eb as nat);
            lemma_pow2_adds(ea as nat, eb as nat);
            assert(n == p * pow2((ea + eb) as nat)) by (nonlinear_arith)
                requires
                    n == (ma * wa) * (mb * wb),
                    p == ma * mb,
                    pow2((ea + eb) as nat) == wa * wb,
            ;
            if k < 0 {
                lemma_pow2_adds((ea + eb) as nat, (-k) as nat);
                assert(n * pow2((-k) as nat) == p * unit()) by (nonlinear_arith)
                    requires
                        n == p * pow2((ea + eb) as nat),
                        pow2((ea + eb) as nat) * pow2((-k) as nat) == unit(),
                ;
                lemma_small_powers();
                assert(unit() * pow2(0) == unit()) by (nonlinear_arith)
                    requires
                        pow2(0) == 1,
                ;
            } else {
                lemma_pow2_adds(QUANTUM_EXPONENT as nat, k as nat);
                lemma_small_powers();
                assert(n * pow2(0) == n) by (nonlinear_arith)
                    requires
                        pow2(0) == 1,
                ;
            }
            lemma_pow2_pos((ea + eb) as nat);
            lemma_exact_part(n, unit(), k as int, p as nat);
        }
        let mag: u64 = round_magnitude(p, k, false, Ghost(n), Ghost(unit()));
        Self::pack(negative, mag)
    }

    /// The quotient.
    pub fn div(self, other: Self) -> (r: Self)
        ensures
            r == over(self, other),
    {
        proof {
            reveal(over);
        }
        let negative: bool = self.is_negative() != other.is_negative();
        let a: u64 = self.magnitude_bits();
        let b: u64 = other.magnitude_bits();
        if a > INFINITE || b > INFINITE || (a == INFINITE && b == INFINITE) || (a == 0 && b == 0) {
            return Self::quiet_nan();
        }
        if a == INFINITE || b == 0 {
            return Self::pack(negative, INFINITE);
        }
        if b == INFINITE {
            return Self::pack(negative, 0);
        }
        let ghost n = mag_value(a as nat) * unit();
        let ghost d = mag_value(b as nat);
        let (ma, ea) = Self::split(a);
        let (mb, eb) = Self::split(b);
        proof {
            lemma_pow2_pos(eb as nat);
            assert(d > 0) by (nonlinear_arith)
                requires
                    d == mb * pow2(eb as nat),
                    mb > 0,
                    pow2(eb as nat) > 0,
            ;
        }
        if ma == 0 {
            proof {
                lemma_split(0);
                assert(mag_value(0) == 0);
                assert(0 * unit() == 0);
                lemma_nearest_zero(d);
            }
            return Self::pack(negative, 0);
        }
        let (na, za) = normalized(ma);
        let (nb, zb) = normalized(mb);
        let top: u128 = na as u128 * 0x1_0000_0000_0000_0000;
        let p: u128 = top / nb as u128;
        let sticky: bool = top % nb as u128 != 0;
        let k: i32 = ea as i32 - za as i32 - eb as i32 + zb as i32 + 1010;
        proof {
            vstd::arithmetic::div_mod::lemma_fundamental_div_mod(top as int, nb as int);
            assert(nb as nat * (top as nat / nb as nat) == p * nb) by (nonlinear_arith)
                requires
                    p == top as nat / nb as nat,
            ;
            assert(0x40_0000_0000_0000 <= p < 0x100_0000_0000_0000_0000_0000_0000_0000)
                by (nonlinear_arith)
                requires
                    HIDDEN <= na < 2 * HIDDEN,
                    HIDDEN <= nb < 2 * HIDDEN,
                    HIDDEN == 0x10_0000_0000_0000u64,
                    top == na * 0x1_0000_0000_0000_0000,
                    p * nb <= top,
                    top < p * nb + nb,
            ;
            assert((p + 1) * nb == p * nb + nb) by (nonlinear_arith);
            lemma_quotient_part(
                ma as nat,
                ea as nat,
                za as nat,
                na as nat,
                mb as nat,
                eb as nat,
                zb as nat,
                nb as nat,
                p as nat,
                sticky,
            );
        }
        let mag: u64 = round_magnitude(p, k, sticky, Ghost(n), Ghost(d));
        Self::pack(negative, mag)
    }

    /// The number nearest to a whole number.
    pub fn from_u64(value: u64) -> (r: Self)
        ensures
            r == of_nat(value as nat),
    {
        proof {
            reveal(of_nat);
        }
        proof {
            lemma_nearest_zero(1);
            assert(0 * unit() == 0);
        }
        if value == 0 {
            return Binary64 { bits: 0 };
        }
        let ghost n = value as nat * unit();
        proof {
            lemma_pow2_pos(QUANTUM_EXPONENT as nat);
            lemma_small_powers();
            assert(n * pow2(0) == value * (1 * unit())) by (nonlinear_arith)
                requires
                    n == value * unit(),
                    pow2(0) == 1,
            ;
            lemma_exact_part(n, 1, 1074, value as nat);
        }
        let mag: u64 = round_magnitude(value as u128, 1074, false, Ghost(n), Ghost(1));
        Self::pack(false, mag)
    }

    /// The number nearest to the fraction `n / d`.
    pub fn from_ratio(n: u64, d: u64) -> (r: Self)
        ensures
            r == ratio(n as nat, d as nat),
    {
        Self::from_u64(n).div(Self::from_u64(d))
    }
}

proof fn lemma_exact_part(n: nat, d: nat, k: int, p: nat)
    requires
        d > 0,
        n * pow2(if k < 0 { (-k) as nat } else { 0 }) == p * (d * pow2(
            if k < 0 { 0 } else { k as nat },
        )),
    ensures
        whole_part(n, d, k, p, false),
{
    let b: nat = if k < 0 { 0 } else { k as nat };
    lemma_pow2_pos(b);
    assert((p + 1) * (d * pow2(b)) > p * (d * pow2(b))) by (nonlinear_arith)
        requires
            d > 0,
            pow2(b) > 0,
    ;
}

/// The quotient of the normalized significands is the whole part of the quotient of the numbers.
proof fn lemma_quotient_part(
    ma: nat,
    ea: nat,
    za: nat,
    na: nat,
    mb: nat,
    eb: nat,
    zb: nat,
    nb: nat,
    p: nat,
    sticky: bool,
)
    requires
        na == ma * pow2(za),
        nb == mb * pow2(zb),
        p * nb <= na * 0x1_0000_0000_0000_0000 < (p + 1) * nb,
        sticky <==> na * 0x1_0000_0000_0000_0000 != p * nb,
    ensures
        whole_part(
            (ma * pow2(ea)) * unit(),
            mb * pow2(eb),
            ea - za - eb + zb + 1010,
            p,
            sticky,
        ),
{
    lemma_small_powers();
    let k = ea - za - eb + zb + 1010;
    let a: nat = if k < 0 { (-k) as nat } else { 0 };
    let b: nat = if k < 0 { 0 } else { k as nat };
    let n = (ma * pow2(ea)) * unit();
    let d = mb * pow2(eb);
    let x = n * pow2(a);
    let y = d * pow2(b);
    let top = na * 0x1_0000_0000_0000_0000;
    let ix = (ea + 1074 + a) as nat;
    let iy = (eb + b) as nat;
    let jx = (za + 64) as nat;
    lemma_pow2_adds(ea, 1074);
    lemma_pow2_adds((ea + 1074) as nat, a);
    lemma_pow2_adds(eb, b);
    lemma_pow2_adds(za, 64);
    assert(x == ma * pow2(ix)) by (nonlinear_arith)
        requires
            x == ((ma * pow2(ea)) * unit()) * pow2(a),
            pow2(ix) == (pow2(ea) * unit()) * pow2(a),
    ;
    assert(y == mb * pow2(iy)) by (nonlinear_arith)
        requires
            y == (mb * pow2(eb)) * pow2(b),
            pow2(iy) == pow2(eb) * pow2(b),
    ;
    assert(top == ma * pow2(jx)) by (nonlinear_arith)
        requires
            top == (ma * pow2(za)) * 0x1_0000_0000_0000_0000,
            pow2(jx) == pow2(za) * 0x1_0000_0000_0000_0000,
    ;
    assert(ix - iy == jx - zb);
    if iy >= zb {
        let g = (iy - zb) as nat;
        let c = pow2(g);
        lemma_pow2_pos(g);
        lemma_pow2_adds(zb, g);
        lemma_pow2_adds(jx, g);
        assert(x == top * c) by (nonlinear_arith)
            requires
                x == ma * (pow2(jx) * c),
                top == ma * pow2(jx),
        ;
        assert(y == nb * c) by (nonlinear_arith)
            requires
                y == mb * (pow2(zb) * c),
                nb == mb * pow2(zb),
        ;
        assert(p * y <= x < (p + 1) * y) by (nonlinear_arith)
            requires
                x == top * c,
                y == nb * c,
                p * nb <= top < (p + 1) * nb,
                c > 0,
        ;
        assert((x != p * y) == (top != p * nb)) by (nonlinear_arith)
            requires
                x == top * c,
                y == nb * c,
                c > 0,
        ;
    } else {
        let g = (zb - iy) as nat;
        let c = pow2(g);
        lemma_pow2_pos(g);
        lemma_pow2_adds(iy, g);
        lemma_pow2_adds(ix, g);
        assert(top == x * c) by (nonlinear_arith)
            requires
                top == ma * (pow2(ix) * c),
                x == ma * pow2(ix),
        ;
        assert(nb == y * c) by (nonlinear_arith)
            requires
                nb == mb * (pow2(iy) * c),
                y == mb * pow2(iy),
        ;
        assert(p * y <= x < (p + 1) * y) by (nonlinear_arith)
            requires
                top == x * c,
                nb == y * c,
                p * nb <= top < (p + 1) * nb,
                c > 0,
        ;
        assert((x != p * y) == (top != p * nb)) by (nonlinear_arith)
            requires
                top == x * c,
                nb == y * c,
                c > 0,
        ;
    }
}

/// A significand shifted so that its leading bit is the 53rd, and the shift.
fn normalized(m: u64) -> (r: (u64, u32))
    requires
        0 < m < 2 * HIDDEN,
    ensures
        HIDDEN <= r.0 < 2 * HIDDEN,
        r.0 == m * pow2(r.1 as nat),
        r.1 <= 52,
{
    let l: u32 = bit_length(m as u128);
    proof {
        lemma_small_powers();
        if l > 54 {
            lemma_pow2_strictly_increases(53, (l - 1) as nat);
        }
        assert(l <= 53);
        lemma_pow2_adds((l - 1) as nat, (53 - l) as nat);
        lemma_pow2_adds(l as nat, (53 - l) as nat);
        lemma_pow2_pos((53 - l) as nat);
        let w = pow2((53 - l) as nat);
        assert(HIDDEN <= m * w) by (nonlinear_arith)
            requires
                pow2((l - 1) as nat) * w == HIDDEN,
                pow2((l - 1) as nat) <= m,
        ;
        assert(m * w < 2 * HIDDEN) by (nonlinear_arith)
            requires
                pow2(l as nat) * w == 2 * HIDDEN,
                m < pow2(l as nat),
                w > 0,
        ;
    }
    let w: u128 = super::rounding::power_of_two(53 - l);
    ((m as u128 * w) as u64, 53 - l)
}

} // verus!
