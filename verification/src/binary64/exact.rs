//! Operations on whole numbers, which are exact as long as the results fit in 53 bits.

use vstd::arithmetic::div_mod::{
    lemma_div_denominator, lemma_fundamental_div_mod, lemma_fundamental_div_mod_converse,
};
use vstd::arithmetic::power2::{
    lemma_pow2_adds, lemma_pow2_pos, lemma_pow2_strictly_increases, lemma_pow2_unfold, pow2,
};
use vstd::prelude::*;

use super::arith::{lemma_nearest_representable, lemma_of_nat_zero};
use super::model::{
    abs_nat, encode, grid, less, mag_value, minus, nearest, of_nat, over, plus, ratio, rounded,
    rounded_down, times, unit, unsigned, whole_i64, whole_u64, Binary64, HIDDEN, INFINITE,
    QUANTUM_EXPONENT,
};
use super::rounding::{lemma_nearest_int_scale, lemma_small_powers};

verus! {

/// A fraction that is expanded has the same nearest number.
proof fn lemma_expanded(n: nat, d: nat, c: nat)
    requires
        d > 0,
        c > 0,
    ensures
        nearest(n * c, d * c) == nearest(n, d),
{
    assert((n * c) as nat / (d * c) as nat == n / d) by {
        assert(d * c == c * d) by (nonlinear_arith);
        assert(n * c == c * n) by (nonlinear_arith);
        assert(c * d > 0) by (nonlinear_arith)
            requires
                c > 0,
                d > 0,
        ;
        lemma_div_denominator((c * n) as int, c as int, d as int);
        lemma_fundamental_div_mod_converse((c * n) as int, c as int, n as int, 0);
    }
    let e = grid(n / d);
    let w = pow2(e);
    lemma_pow2_pos(e);
    assert(d * w > 0) by (nonlinear_arith)
        requires
            d > 0,
            w > 0,
    ;
    assert((d * c) * w == (d * w) * c) by (nonlinear_arith);
    lemma_nearest_int_scale(n, d * w, c);
}

/// A whole number below two to the 53rd power is moved up to where its leading bit is hidden.
proof fn lemma_moved_up(n: nat) -> (k: nat)
    requires
        0 < n < 2 * HIDDEN,
    ensures
        HIDDEN <= n * pow2(k) < 2 * HIDDEN,
        k <= 52,
    decreases 2 * HIDDEN - n,
{
    lemma_small_powers();
    if n >= HIDDEN {
        assert(n * pow2(0) == n) by (nonlinear_arith)
            requires
                pow2(0) == 1,
        ;
        0
    } else {
        let j = lemma_moved_up(2 * n);
        let k = j + 1;
        lemma_pow2_unfold(k);
        assert(n * pow2(k) == (2 * n) * pow2(j)) by (nonlinear_arith)
            requires
                pow2(k) == 2 * pow2(j),
        ;
        if k > 52 {
            if k > 53 {
                lemma_pow2_strictly_increases(53, k);
            }
            assert(n * pow2(k) >= pow2(k)) by (nonlinear_arith)
                requires
                    n >= 1,
                    pow2(k) > 0,
            ;
        }
        k
    }
}

/// Two to the power `e` times a full significand is a representable number.
proof fn lemma_full(m: nat, e: nat)
    requires
        HIDDEN <= m < 2 * HIDDEN,
        e <= 1074,
    ensures
        ({
            let mag = (e * HIDDEN + m) as nat;
            &&& mag < INFINITE
            &&& mag_value(mag) == m * pow2(e)
            &&& nearest(m * pow2(e), 1) == mag
        }),
{
    let mag = (e * HIDDEN + m) as nat;
    assert(e * HIDDEN <= 1074 * HIDDEN) by (nonlinear_arith)
        requires
            e <= 1074,
    ;
    assert(mag == (e + 1) * HIDDEN + (m - HIDDEN)) by (nonlinear_arith)
        requires
            mag == e * HIDDEN + m,
    ;
    lemma_fundamental_div_mod_converse(mag as int, HIDDEN as int, e as int + 1, m - HIDDEN);
    lemma_nearest_representable(mag);
}

/// A whole number of at most 53 bits is exact.
pub proof fn lemma_whole_is_exact(n: nat)
    requires
        n < 2 * HIDDEN,
    ensures
        of_nat(n).finite(),
        !of_nat(n).negative(),
        mag_value(of_nat(n).magnitude()) == n * unit(),
        nearest(n * unit(), 1) == of_nat(n).magnitude(),
        of_nat(n).zero() <==> n == 0,
{
    reveal(of_nat);
    if n == 0 {
        lemma_of_nat_zero();
        assert(0 * unit() == 0);
    } else {
        let k = lemma_moved_up(n);
        let e = (QUANTUM_EXPONENT - k) as nat;
        let m = n * pow2(k);
        lemma_full(m, e);
        lemma_pow2_adds(k, e);
        assert(m * pow2(e) == n * unit()) by (nonlinear_arith)
            requires
                m == n * pow2(k),
                pow2(k) * pow2(e) == unit(),
        ;
    }
}

/// The product of whole numbers is exact.
pub proof fn lemma_whole_product(a: nat, b: nat)
    requires
        a < 2 * HIDDEN,
        b < 2 * HIDDEN,
        a * b < 2 * HIDDEN,
    ensures
        times(of_nat(a), of_nat(b)) == of_nat(a * b),
{
    reveal(times);
    lemma_whole_is_exact(a);
    lemma_whole_is_exact(b);
    lemma_whole_is_exact(a * b);
    let u = unit();
    lemma_pow2_pos(QUANTUM_EXPONENT as nat);
    assert((a * u) * (b * u) == ((a * b) * u) * u) by (nonlinear_arith);
    lemma_expanded((a * b) * u, 1, u);
    assert(1 * u == u);
}

/// A whole number is rounded to itself.
pub proof fn lemma_whole_is_round(n: nat)
    requires
        n < 2 * HIDDEN,
    ensures
        rounded(of_nat(n)) == of_nat(n),
{
    reveal(rounded);
    lemma_whole_is_exact(n);
    let u = unit();
    lemma_pow2_pos(QUANTUM_EXPONENT as nat);
    assert(2 * (n * u) + u == n * (2 * u) + u) by (nonlinear_arith);
    lemma_fundamental_div_mod_converse(
        (2 * (n * u) + u) as int,
        (2 * u) as int,
        n as int,
        u as int,
    );
}

/// A multiple of a whole number over that number is exact.
pub proof fn lemma_whole_quotient(a: nat, b: nat)
    requires
        a < 2 * HIDDEN,
        0 < b < 2 * HIDDEN,
        a * b < 2 * HIDDEN,
    ensures
        over(of_nat(a * b), of_nat(b)) == of_nat(a),
{
    reveal(over);
    lemma_whole_is_exact(a);
    lemma_whole_is_exact(b);
    lemma_whole_is_exact(a * b);
    let u = unit();
    lemma_pow2_pos(QUANTUM_EXPONENT as nat);
    assert(b * u > 0) by (nonlinear_arith)
        requires
            b > 0,
            u > 0,
    ;
    assert(((a * b) * u) * u == (a * u) * (b * u)) by (nonlinear_arith);
    lemma_expanded(a * u, 1, b * u);
    assert(1 * (b * u) == b * u);
}

/// A number less itself is zero.
pub proof fn lemma_difference_with_itself(a: Binary64)
    requires
        a.finite(),
    ensures
        minus(a, a) == of_nat(0),
{
    reveal(minus);
    reveal(plus);
    lemma_of_nat_zero();
}

/// Zero is less than the distance from one to the next number.
pub proof fn lemma_zero_is_close()
    ensures
        less(unsigned(of_nat(0)), ratio(1, HIDDEN as nat)),
{
    reveal(less);
    reveal(over);
    lemma_of_nat_zero();
    lemma_whole_is_exact(1);
    lemma_whole_is_exact(HIDDEN as nat);
    lemma_small_powers();
    let h = HIDDEN as nat;
    let u = unit();
    let w = pow2(1022);
    lemma_pow2_pos(QUANTUM_EXPONENT as nat);
    lemma_pow2_adds(52, 1022);
    lemma_pow2_adds(52, 970);
    lemma_pow2_pos(1022);
    assert((1 * u) * u == w * (h * u)) by (nonlinear_arith)
        requires
            u == h * w,
    ;
    assert(h * u > 0) by (nonlinear_arith)
        requires
            h > 0,
            u > 0,
    ;
    lemma_expanded(w, 1, h * u);
    assert(1 * (h * u) == h * u);
    lemma_full(h, 970);
}

/// A number is rounded to the whole number that is at most half away, with its sign.
pub proof fn lemma_rounded(a: Binary64) -> (k: nat)
    requires
        a.finite(),
        mag_value(a.magnitude()) < HIDDEN * unit(),
    ensures
        k <= HIDDEN,
        2 * abs_nat(k * unit() - mag_value(a.magnitude())) <= unit(),
        rounded(a) == encode(a.negative(), of_nat(k).magnitude()),
{
    reveal(rounded);
    let u = unit();
    lemma_pow2_pos(QUANTUM_EXPONENT as nat);
    let v = mag_value(a.magnitude());
    let k = (2 * v + u) / (2 * u);
    lemma_fundamental_div_mod((2 * v + u) as int, (2 * u) as int);
    assert((2 * u) * k == 2 * (k * u)) by (nonlinear_arith);
    assert(k <= HIDDEN) by (nonlinear_arith)
        requires
            2 * (k * u) <= 2 * v + u,
            v < HIDDEN * u,
            u > 0,
    ;
    lemma_whole_is_exact(k);
    k
}

/// A number that is not negative is rounded down to the whole number that it is at or above, by
/// less than one.
pub proof fn lemma_rounded_down(a: Binary64) -> (k: nat)
    requires
        a.finite(),
        !a.negative(),
        mag_value(a.magnitude()) < HIDDEN * unit(),
    ensures
        k < HIDDEN,
        k * unit() <= mag_value(a.magnitude()) < (k + 1) * unit(),
        rounded_down(a) == of_nat(k),
        whole_u64(a) == k,
{
    reveal(rounded_down);
    reveal(of_nat);
    reveal(whole_u64);
    let u = unit();
    lemma_pow2_pos(QUANTUM_EXPONENT as nat);
    let v = mag_value(a.magnitude());
    let k = v / u;
    lemma_fundamental_div_mod(v as int, u as int);
    assert(u * k == k * u) by (nonlinear_arith);
    assert((k + 1) * u == k * u + u) by (nonlinear_arith);
    assert(k < HIDDEN) by (nonlinear_arith)
        requires
            k * u <= v,
            v < HIDDEN * u,
            u > 0,
    ;
    k
}

/// The whole part of a whole number is that number.
pub proof fn lemma_whole_part(k: nat, negative: bool)
    requires
        k < 2 * HIDDEN,
    ensures
        whole_u64(of_nat(k)) == k,
        whole_i64(encode(negative, of_nat(k).magnitude())) == if negative {
            -(k as int)
        } else {
            k as int
        },
{
    reveal(whole_u64);
    reveal(whole_i64);
    lemma_whole_is_exact(k);
    let u = unit();
    lemma_pow2_pos(QUANTUM_EXPONENT as nat);
    lemma_fundamental_div_mod_converse((k * u) as int, u as int, k as int, 0);
}

} // verus!
