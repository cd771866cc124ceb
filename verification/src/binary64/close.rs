//! How far a result lies from the exact one, and that rounding keeps the order of results.

use vstd::arithmetic::div_mod::{
    lemma_div_is_ordered, lemma_fundamental_div_mod, lemma_fundamental_div_mod_converse,
};
use vstd::arithmetic::power2::{lemma_pow2_pos, lemma_pow2_unfold, pow2};
use vstd::prelude::*;

use super::arith::{lemma_grid_fits, lemma_nearest_representable};
use super::model::{
    abs_nat, at_most, encode, greater, grid, lesser, mag_value, minus, nearest, nearest_int, opposite, over, plus,
    ratio, same, times, total_position, unit, Binary64, HIDDEN, INFINITE, QUANTUM_EXPONENT,
};
use super::exact::lemma_whole_is_exact;
use super::order::lemma_magnitude_zero;
use super::rounding::{lemma_nearest_int_scale, lemma_small_powers};

verus! {

/// The distance of two whole numbers.
pub open spec fn apart(a: int, b: int) -> nat {
    abs_nat(a - b)
}

/// A magnitude that is put together from an exponent and a significand stands for their product.
proof fn lemma_put_together(e: nat, m: nat)
    requires
        m <= 2 * HIDDEN,
        e > 0 ==> m >= HIDDEN,
    ensures
        mag_value(e * HIDDEN as nat + m) == m * pow2(e),
{
    let h = HIDDEN as nat;
    let mag = e * h + m;
    lemma_small_powers();
    if m < h {
        assert(mag == 0 * h + m) by (nonlinear_arith)
            requires
                mag == e * h + m,
                e == 0,
        ;
        lemma_fundamental_div_mod_converse(mag as int, h as int, 0, m as int);
        assert(m * pow2(0) == m) by (nonlinear_arith)
            requires
                pow2(0) == 1,
        ;
    } else if m < 2 * h {
        assert(mag == (e + 1) * h + (m - h)) by (nonlinear_arith)
            requires
                mag == e * h + m,
        ;
        lemma_fundamental_div_mod_converse(mag as int, h as int, e as int + 1, m - h);
    } else {
        assert(mag == (e + 2) * h) by (nonlinear_arith)
            requires
                mag == e * h + m,
                m == 2 * h,
        ;
        lemma_fundamental_div_mod_converse(mag as int, h as int, e as int + 2, 0);
        lemma_pow2_unfold(e + 1);
        assert(h * pow2(e + 1) == (2 * h) * pow2(e)) by (nonlinear_arith)
            requires
                pow2(e + 1) == 2 * pow2(e),
        ;
    }
}

/// The nearest whole number is at most half a unit away, and a smaller fraction of the same
/// denominator has no larger one.
proof fn lemma_nearest_int_close(n: nat, d: nat)
    requires
        d > 0,
    ensures
        2 * apart((nearest_int(n, d) * d) as int, n as int) <= d,
{
    let q = n / d;
    let r = n % d;
    lemma_fundamental_div_mod(n as int, d as int);
    assert(q * d == d * q) by (nonlinear_arith);
    assert((q + 1) * d == d * q + d) by (nonlinear_arith);
}

proof fn lemma_nearest_int_ordered(n: nat, m: nat, d: nat)
    requires
        d > 0,
        n <= m,
    ensures
        nearest_int(n, d) <= nearest_int(m, d),
{
    lemma_fundamental_div_mod(n as int, d as int);
    lemma_fundamental_div_mod(m as int, d as int);
    lemma_div_is_ordered(n as int, m as int, d as int);
    if n / d == m / d {
        assert(n % d <= m % d);
    }
}

/// The significand that a fraction is rounded to.
spec fn significand(n: nat, d: nat) -> nat {
    nearest_int(n, d * pow2(grid(n / d)))
}

/// Where the whole part of a fraction lies, its significand has as many bits as it should.
proof fn lemma_significand(n: nat, d: nat)
    requires
        d > 0,
    ensures
        ({
            let e = grid(n / d);
            &&& significand(n, d) <= 2 * HIDDEN
            &&& e > 0 ==> significand(n, d) >= HIDDEN
            &&& e > 0 ==> HIDDEN * (d * pow2(e)) <= n
            &&& d * pow2(e) > 0
        }),
{
    let h = HIDDEN as nat;
    let q = n / d;
    let e = grid(q);
    let w = pow2(e);
    lemma_pow2_pos(e);
    lemma_pow2_pos(q);
    assert(q < 2 * HIDDEN * pow2(q)) by {
        lemma_below_its_power(q);
        assert(2 * HIDDEN * pow2(q) >= pow2(q)) by (nonlinear_arith);
    }
    lemma_grid_fits(q, q);
    let x = q / w;
    lemma_fundamental_div_mod(q as int, w as int);
    lemma_fundamental_div_mod(n as int, d as int);
    assert(d * w > 0) by (nonlinear_arith)
        requires
            d > 0,
            w > 0,
    ;
    assert(n < (2 * h) * (d * w)) by (nonlinear_arith)
        requires
            n < d * q + d,
            q < w * x + w,
            x + 1 <= 2 * h,
            d > 0,
            w > 0,
    ;
    lemma_nearest_int_ordered(n, (2 * h) * (d * w), d * w);
    super::rounding::lemma_nearest_int_exact(2 * h, d * w);
    if e > 0 {
        assert(h * (d * w) <= n) by (nonlinear_arith)
            requires
                n >= d * q,
                q >= w * x,
                x >= h,
                d > 0,
                w > 0,
        ;
        lemma_nearest_int_ordered(h * (d * w), n, d * w);
        super::rounding::lemma_nearest_int_exact(h, d * w);
    }
}

proof fn lemma_below_its_power(q: nat)
    ensures
        q < pow2(q),
    decreases q,
{
    if q == 0 {
        lemma_pow2_pos(0);
    } else {
        lemma_below_its_power((q - 1) as nat);
        lemma_pow2_unfold(q);
    }
}

/// The number nearest to a fraction is off by at most half of its last place; a fraction below
/// two to the 53rd power times `pow2(g)` by at most half of `pow2(g)`.
pub proof fn lemma_nearest_close(n: nat, d: nat, g: nat)
    requires
        d > 0,
        n / d < 2 * HIDDEN * pow2(g),
        g <= 2000,
    ensures
        nearest(n, d) < INFINITE,
        2 * apart((mag_value(nearest(n, d)) * d) as int, n as int) <= d * pow2(g),
{
    let q = n / d;
    let e = grid(q);
    let m = significand(n, d);
    lemma_grid_fits(q, g);
    lemma_significand(n, d);
    lemma_put_together(e, m);
    assert(e * HIDDEN <= 2000 * HIDDEN) by (nonlinear_arith)
        requires
            e <= 2000,
    ;
    lemma_nearest_int_close(n, d * pow2(e));
    assert((m * pow2(e)) * d == m * (d * pow2(e))) by (nonlinear_arith);
    if e < g {
        vstd::arithmetic::power2::lemma_pow2_strictly_increases(e, g);
    }
    assert(d * pow2(e) <= d * pow2(g)) by (nonlinear_arith)
        requires
            pow2(e) <= pow2(g),
    ;
}

/// A larger fraction has no smaller number nearest to it.
pub proof fn lemma_nearest_ordered(n: nat, d: nat, m: nat, c: nat)
    requires
        d > 0,
        c > 0,
        n * c <= m * d,
    ensures
        nearest(n, d) <= nearest(m, c),
{
    let q = n / d;
    let p = m / c;
    lemma_fundamental_div_mod(n as int, d as int);
    lemma_fundamental_div_mod(m as int, c as int);
    assert(q <= p) by (nonlinear_arith)
        requires
            n >= d * q,
            m < c * p + c,
            n * c <= m * d,
            d > 0,
            c > 0,
    ;
    lemma_grid_ordered(q, p);
    lemma_significand(n, d);
    lemma_significand(m, c);
    let e = grid(q);
    let f = grid(p);
    let h = HIDDEN as nat;
    if e == f {
        let w = pow2(e);
        lemma_pow2_pos(e);
        let x = d * w;
        let y = c * w;
        assert(x * y > 0 && x > 0 && y > 0) by (nonlinear_arith)
            requires
                x > 0,
                y > 0,
        ;
        lemma_nearest_int_scale(n, x, y);
        lemma_nearest_int_scale(m, y, x);
        assert(x * y == y * x) by (nonlinear_arith);
        assert(n * y <= m * x) by (nonlinear_arith)
            requires
                n * c <= m * d,
                x == d * w,
                y == c * w,
                w > 0,
        ;
        lemma_nearest_int_ordered(n * y, m * x, x * y);
    } else {
        assert(e * h + 2 * h <= f * h + h) by (nonlinear_arith)
            requires
                e + 1 <= f,
        ;
    }
}

proof fn lemma_grid_ordered(q: nat, p: nat)
    requires
        q <= p,
    ensures
        grid(q) <= grid(p),
    decreases p,
{
    if q >= 2 * HIDDEN {
        lemma_grid_ordered(q / 2, p / 2);
    }
}

/// A magnitude with its sign has its value, with that sign.
proof fn lemma_encoded(negative: bool, mag: nat)
    requires
        mag <= INFINITE,
    ensures
        encode(negative, mag).magnitude() == mag,
        encode(negative, mag).negative() == negative,
        encode(negative, mag).scaled() == if negative {
            -(mag_value(mag) as int)
        } else {
            mag_value(mag) as int
        },
{
}

/// A sum is off by at most half of a unit `pow2(g)`, where it lies below two to the 53rd power of
/// such units, and it has the sign of the exact sum.
pub proof fn lemma_sum_is_close(a: Binary64, b: Binary64, g: nat)
    requires
        a.finite(),
        b.finite(),
        abs_nat(a.scaled() + b.scaled()) < 2 * HIDDEN * pow2(g),
        g <= 2000,
    ensures
        plus(a, b).finite(),
        2 * apart(plus(a, b).scaled(), a.scaled() + b.scaled()) <= pow2(g),
        a.scaled() + b.scaled() >= 0 ==> plus(a, b).scaled() >= 0,
        a.scaled() + b.scaled() <= 0 ==> plus(a, b).scaled() <= 0,
{
    reveal(plus);
    let s = a.scaled() + b.scaled();
    lemma_pow2_pos(g);
    lemma_magnitude_zero(0);
    if s != 0 {
        let n = abs_nat(s);
        assert(n / 1 == n);
        lemma_nearest_close(n, 1, g);
        lemma_encoded(s < 0, nearest(n, 1));
        assert(mag_value(nearest(n, 1)) * 1 == mag_value(nearest(n, 1)));
        assert(1 * pow2(g) == pow2(g));
    }
}

/// A number with its sign turned is as far from zero on the other side.
pub proof fn lemma_opposite(a: Binary64)
    ensures
        opposite(a).scaled() == -a.scaled(),
        opposite(a).finite() == a.finite(),
        opposite(a).nan() == a.nan(),
        opposite(a).infinite() == a.infinite(),
        opposite(opposite(a)) == a,
{
}

/// A difference is off by at most half of a unit `pow2(g)`, where it lies below two to the 53rd
/// power of such units, and it has the sign of the exact difference.
pub proof fn lemma_difference_is_close(a: Binary64, b: Binary64, g: nat)
    requires
        a.finite(),
        b.finite(),
        abs_nat(a.scaled() - b.scaled()) < 2 * HIDDEN * pow2(g),
        g <= 2000,
    ensures
        minus(a, b).finite(),
        2 * apart(minus(a, b).scaled(), a.scaled() - b.scaled()) <= pow2(g),
        a.scaled() - b.scaled() >= 0 ==> minus(a, b).scaled() >= 0,
        a.scaled() - b.scaled() <= 0 ==> minus(a, b).scaled() <= 0,
{
    reveal(minus);
    lemma_opposite(b);
    lemma_sum_is_close(a, opposite(b), g);
}

/// A product of numbers is off by at most half of a unit `pow2(g)`, where it lies below two to the
/// 53rd power of such units.
pub proof fn lemma_product_is_close(a: Binary64, b: Binary64, g: nat)
    requires
        a.finite(),
        b.finite(),
        abs_nat(a.scaled() * b.scaled()) < 2 * HIDDEN * pow2(g) * unit(),
        g <= 2000,
    ensures
        times(a, b).finite(),
        2 * apart(times(a, b).scaled() * unit(), a.scaled() * b.scaled()) <= unit() * pow2(g),
        a.negative() == b.negative() ==> times(a, b).scaled() >= 0,
        a.negative() != b.negative() ==> times(a, b).scaled() <= 0,
{
    reveal(times);
    let u = unit();
    lemma_pow2_pos(QUANTUM_EXPONENT as nat);
    let x = mag_value(a.magnitude());
    let y = mag_value(b.magnitude());
    let n = x * y;
    let limit = 2 * HIDDEN * pow2(g);
    assert(n == abs_nat(a.scaled() * b.scaled())) by {
        assert((-x) * y == -(x * y)) by (nonlinear_arith);
        assert(x * (-y) == -(x * y)) by (nonlinear_arith);
        assert((-x) * (-y) == x * y) by (nonlinear_arith);
        assert(x * y >= 0) by (nonlinear_arith)
            requires
                x >= 0,
                y >= 0,
        ;
    }
    lemma_fundamental_div_mod(n as int, u as int);
    assert(n / u < limit) by (nonlinear_arith)
        requires
            n < limit * u,
            n >= u * (n / u),
            u > 0,
    ;
    lemma_nearest_close(n, u, g);
    let negative = a.negative() != b.negative();
    let mag = nearest(n, u);
    lemma_encoded(negative, mag);
    let v = mag_value(mag);
    assert((-v) * u == -(v * u)) by (nonlinear_arith);
    if negative {
        assert(a.scaled() * b.scaled() == -n) by {
            assert((-x) * y == -(x * y)) by (nonlinear_arith);
            assert(x * (-y) == -(x * y)) by (nonlinear_arith);
        }
    } else {
        assert(a.scaled() * b.scaled() == n) by {
            assert((-x) * (-y) == x * y) by (nonlinear_arith);
        }
    }
}

/// A sum has the sign of the exact sum, however large.
pub proof fn lemma_sum_sign(a: Binary64, b: Binary64)
    requires
        a.finite(),
        b.finite(),
    ensures
        !plus(a, b).nan(),
        a.scaled() + b.scaled() >= 0 ==> plus(a, b).scaled() >= 0,
        a.scaled() + b.scaled() <= 0 ==> plus(a, b).scaled() <= 0,
{
    reveal(plus);
    let s = a.scaled() + b.scaled();
    lemma_magnitude_zero(0);
    if s != 0 {
        lemma_encoded(s < 0, nearest(abs_nat(s), 1));
    }
}

/// A difference has the sign of the exact difference, however large.
pub proof fn lemma_difference_sign(a: Binary64, b: Binary64)
    requires
        a.finite(),
        b.finite(),
    ensures
        !minus(a, b).nan(),
        a.scaled() >= b.scaled() ==> minus(a, b).scaled() >= 0,
        a.scaled() <= b.scaled() ==> minus(a, b).scaled() <= 0,
{
    reveal(minus);
    lemma_opposite(b);
    lemma_sum_sign(a, opposite(b));
}

/// Adding nothing leaves a number as it is.
pub proof fn lemma_adding_nothing(a: Binary64, b: Binary64)
    requires
        !a.nan(),
        b.zero(),
    ensures
        same(plus(a, b), a),
        !a.zero() ==> plus(a, b) == a,
{
    reveal(plus);
    reveal(same);
    lemma_magnitude_zero(0);
    if a.finite() {
        lemma_magnitude_zero(a.magnitude());
        lemma_nearest_representable(a.magnitude());
        lemma_encoded(a.negative(), a.magnitude());
    }
}

/// Nothing, however often, is nothing.
pub proof fn lemma_times_nothing(a: Binary64, b: Binary64)
    requires
        a.zero(),
        b.finite(),
    ensures
        times(a, b).zero(),
        times(b, a).zero(),
{
    reveal(times);
    lemma_magnitude_zero(0);
    let y = mag_value(b.magnitude());
    assert(0 * y == 0) by (nonlinear_arith);
    assert(y * 0 == 0) by (nonlinear_arith);
    lemma_pow2_pos(QUANTUM_EXPONENT as nat);
    super::arith::lemma_nearest_zero(unit());
}

/// A number whose value is zero is one of the two zeros.
pub proof fn lemma_value_zero(a: Binary64)
    requires
        !a.nan(),
    ensures
        a.scaled() == 0 <==> a.zero(),
{
    lemma_magnitude_zero(a.magnitude());
}

/// Of two numbers in order, adding the same number keeps the order.
pub proof fn lemma_sum_ordered(a: Binary64, b: Binary64, c: Binary64)
    requires
        a.finite(),
        b.finite(),
        c.finite(),
        a.scaled() <= b.scaled(),
    ensures
        at_most(plus(a, c), plus(b, c)),
{
    reveal(plus);
    reveal(at_most);
    lemma_magnitude_zero(0);
    let s = a.scaled() + c.scaled();
    let t = b.scaled() + c.scaled();
    lemma_sum_sign(a, c);
    lemma_sum_sign(b, c);
    if s > 0 {
        lemma_nearest_ordered(s as nat, 1, t as nat, 1);
        lemma_values_ordered(nearest(s as nat, 1), nearest(t as nat, 1));
        lemma_encoded(false, nearest(s as nat, 1));
        lemma_encoded(false, nearest(t as nat, 1));
    } else if t < 0 {
        lemma_nearest_ordered((-t) as nat, 1, (-s) as nat, 1);
        lemma_values_ordered(nearest((-t) as nat, 1), nearest((-s) as nat, 1));
        lemma_encoded(true, nearest((-s) as nat, 1));
        lemma_encoded(true, nearest((-t) as nat, 1));
    }
}

/// Larger magnitude bits stand for no smaller value.
proof fn lemma_values_ordered(a: nat, b: nat)
    requires
        a <= b <= INFINITE,
    ensures
        mag_value(a) <= mag_value(b),
{
    if a < b {
        super::order::lemma_magnitude_order(a, b);
    }
}

/// The smaller of a number and a finite one, neither below zero, is finite and as small.
pub proof fn lemma_lesser_is_finite(a: Binary64, b: Binary64)
    requires
        !a.nan(),
        b.finite(),
        a.scaled() >= 0,
        b.scaled() >= 0,
    ensures
        lesser(a, b).finite(),
        lesser(a, b).scaled() == if a.scaled() <= b.scaled() {
            a.scaled()
        } else {
            b.scaled()
        },
{
    reveal(at_most);
    if !a.finite() {
        lemma_magnitude_zero(a.magnitude());
        lemma_magnitude_zero(b.magnitude());
        super::order::lemma_magnitude_order(b.magnitude(), INFINITE as nat);
    }
}

/// Of fractions with one denominator, the one with the larger numerator is no smaller.
pub proof fn lemma_whole_ratio_ordered(a: nat, b: nat, d: nat)
    requires
        a <= b < 2 * HIDDEN,
        0 < d < 2 * HIDDEN,
    ensures
        at_most(ratio(a, d), ratio(b, d)),
{
    reveal(over);
    reveal(at_most);
    lemma_whole_is_exact(a);
    lemma_whole_is_exact(b);
    lemma_whole_is_exact(d);
    let u = unit();
    lemma_pow2_pos(QUANTUM_EXPONENT as nat);
    let x = (a * u) * u;
    let y = (b * u) * u;
    assert(d * u > 0) by (nonlinear_arith)
        requires
            d > 0,
            u > 0,
    ;
    assert(x * (d * u) <= y * (d * u)) by (nonlinear_arith)
        requires
            x == (a * u) * u,
            y == (b * u) * u,
            a <= b,
    ;
    lemma_nearest_ordered(x, d * u, y, d * u);
    lemma_values_ordered(nearest(x, d * u), nearest(y, d * u));
    lemma_encoded(false, nearest(x, d * u));
    lemma_encoded(false, nearest(y, d * u));
}

/// The numbers next to one that is put together are a unit of its exponent away.
proof fn lemma_neighbours(e: nat, m: nat)
    requires
        m <= 2 * HIDDEN,
        e > 0 ==> m >= HIDDEN,
    ensures
        mag_value(e * HIDDEN as nat + m + 1) >= (m + 1) * pow2(e),
        m > HIDDEN || (e == 0 && m > 0) ==> mag_value((e * HIDDEN as nat + m - 1) as nat) == (m
            - 1) * pow2(e),
{
    let h = HIDDEN as nat;
    lemma_pow2_pos(e);
    if m < 2 * h {
        lemma_put_together(e, m + 1);
    } else {
        lemma_pow2_unfold(e + 1);
        assert(e * h + m + 1 == (e + 1) * h + (h + 1)) by (nonlinear_arith)
            requires
                m == 2 * h,
        ;
        lemma_put_together(e + 1, h + 1);
        assert((h + 1) * pow2(e + 1) >= (m + 1) * pow2(e)) by (nonlinear_arith)
            requires
                pow2(e + 1) == 2 * pow2(e),
                m == 2 * h,
                pow2(e) > 0,
        ;
    }
    if m > h || (e == 0 && m > 0) {
        lemma_put_together(e, (m - 1) as nat);
    }
}

/// The number that a fraction is rounded to is the nearest one: no other finite number is nearer, and
/// of two that are as near it is the one whose last bit is zero.
pub proof fn law_nearest(n: nat, d: nat, other: nat)
    requires
        d > 0,
        nearest(n, d) < INFINITE,
        other < INFINITE,
    ensures
        ({
            let own = apart((mag_value(nearest(n, d)) * d) as int, n as int);
            let theirs = apart((mag_value(other) * d) as int, n as int);
            &&& own <= theirs
            &&& own == theirs && other != nearest(n, d) ==> nearest(n, d) % 2 == 0
        }),
{
    let h = HIDDEN as nat;
    let e = grid(n / d);
    let m = significand(n, d);
    let w = pow2(e);
    let x = d * w;
    let mag = nearest(n, d);
    lemma_pow2_pos(e);
    lemma_significand(n, d);
    lemma_put_together(e, m);
    lemma_nearest_int_close(n, x);
    lemma_neighbours(e, m);
    let v = m * w;
    let c = mag_value(other);
    assert(v * d == m * x) by (nonlinear_arith)
        requires
            v == m * w,
            x == d * w,
    ;
    assert(mag % 2 == m % 2) by {
        assert(e * h == 2 * (e * 0x8_0000_0000_0000)) by (nonlinear_arith)
            requires
                h == 0x10_0000_0000_0000,
        ;
    }
    let q = n / x;
    let r = n % x;
    lemma_fundamental_div_mod(n as int, x as int);
    assert(x * q == q * x) by (nonlinear_arith);
    if other > mag {
        lemma_values_ordered(mag + 1, other);
        assert(c * d >= m * x + x) by (nonlinear_arith)
            requires
                c >= (m + 1) * w,
                x == d * w,
                d > 0,
        ;
        if apart(c as int * d as int, n as int) == apart((v * d) as int, n as int) {
            assert(2 * (n - m * x) == x);
            if m == q + 1 {
                assert((q + 1) * x == q * x + x) by (nonlinear_arith);
            }
            assert(m == q);
        }
    } else if other < mag {
        if m > h || (e == 0 && m > 0) {
            lemma_values_ordered(other, (mag - 1) as nat);
            assert(c * d <= m * x - x) by (nonlinear_arith)
                requires
                    c <= (m - 1) * w,
                    x == d * w,
                    d > 0,
            ;
            if apart(c as int * d as int, n as int) == apart((v * d) as int, n as int) {
                assert(2 * (m * x - n) == x);
                assert((q + 1) * x == q * x + x) by (nonlinear_arith);
                assert(m == q + 1);
            }
        } else {
            super::order::lemma_magnitude_order(other, mag);
            assert(c * d < v * d) by (nonlinear_arith)
                requires
                    c < v,
                    d > 0,
            ;
        }
    }
}

/// The smaller and the larger of two numbers are what their names say; where one is not a number it
/// is the other.
pub proof fn law_smaller_and_larger(a: Binary64, b: Binary64)
    ensures
        a.nan() ==> lesser(a, b) == b && greater(a, b) == b,
        b.nan() && !a.nan() ==> lesser(a, b) == a && greater(a, b) == a,
        !a.nan() && !b.nan() ==> {
            &&& lesser(a, b) == a || lesser(a, b) == b
            &&& greater(a, b) == a || greater(a, b) == b
            &&& lesser(a, b).scaled() <= a.scaled() <= greater(a, b).scaled()
            &&& lesser(a, b).scaled() <= b.scaled() <= greater(a, b).scaled()
        },
{
    reveal(at_most);
}

/// The total order of bit patterns orders numbers as their values do.
pub proof fn law_total_order(a: Binary64, b: Binary64)
    requires
        !a.nan(),
        !b.nan(),
    ensures
        a.scaled() < b.scaled() ==> total_position(a) < total_position(b),
        total_position(a) == total_position(b) <==> a == b,
{
    super::order::lemma_rank(a, b);
    lemma_magnitude_zero(a.magnitude());
    lemma_magnitude_zero(b.magnitude());
}

/// A quotient is off by at most half of a unit `pow2(g)`, where it lies below two to the 53rd power of
/// such units, and it has the sign of the exact quotient.
pub proof fn lemma_quotient_is_close(a: Binary64, b: Binary64, g: nat)
    requires
        a.finite(),
        b.finite(),
        !b.zero(),
        mag_value(a.magnitude()) * unit() / mag_value(b.magnitude()) < 2 * HIDDEN * pow2(g),
        g <= 2000,
    ensures
        over(a, b).finite(),
        over(a, b).negative() == (a.negative() != b.negative()),
        2 * apart(
            (mag_value(over(a, b).magnitude()) * mag_value(b.magnitude())) as int,
            (mag_value(a.magnitude()) * unit()) as int,
        ) <= mag_value(b.magnitude()) * pow2(g),
{
    reveal(over);
    lemma_magnitude_zero(b.magnitude());
    let n = mag_value(a.magnitude()) * unit();
    let d = mag_value(b.magnitude());
    lemma_nearest_close(n, d, g);
    let negative = a.negative() != b.negative();
    lemma_encoded(negative, nearest(n, d));
}

} // verus!
