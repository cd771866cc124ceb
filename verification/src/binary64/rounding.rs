//! Rounding an exact ratio to the nearest representable number.

use vstd::arithmetic::power2::{
    lemma_pow2_adds, lemma_pow2_pos, lemma_pow2_strictly_increases, lemma_pow2_unfold, pow2,
};
use vstd::prelude::*;

use super::model::{grid, nearest, nearest_int, HIDDEN, INFINITE};

verus! {

/// Scaling both sides of a ratio does not change its nearest whole number.
pub proof fn lemma_nearest_int_scale(n: nat, d: nat, c: nat)
    requires
        d > 0,
        c > 0,
    ensures
        nearest_int(n * c, d * c) == nearest_int(n, d),
{
    let q = n / d;
    let r = n % d;
    assert(d * c > 0) by (nonlinear_arith)
        requires
            d > 0,
            c > 0,
    ;
    assert(n == q * d + r) by {
        vstd::arithmetic::div_mod::lemma_fundamental_div_mod(n as int, d as int);
        assert(q * d == d * q) by (nonlinear_arith);
    }
    assert(n * c == q * (d * c) + r * c) by (nonlinear_arith)
        requires
            n == q * d + r,
    ;
    assert(0 <= r * c < d * c) by (nonlinear_arith)
        requires
            r < d,
            c > 0,
    ;
    vstd::arithmetic::div_mod::lemma_fundamental_div_mod_converse(
        (n * c) as int,
        (d * c) as int,
        q as int,
        (r * c) as int,
    );
    assert((n * c) / (d * c) == q);
    assert((n * c) % (d * c) == r * c);
    assert((2 * (r * c) < d * c) == (2 * r < d)) by (nonlinear_arith)
        requires
            c > 0,
    ;
    assert((2 * (r * c) == d * c) == (2 * r == d)) by (nonlinear_arith)
        requires
            c > 0,
    ;
}

/// A whole number is its own nearest whole number.
pub proof fn lemma_nearest_int_exact(q: nat, d: nat)
    requires
        d > 0,
    ensures
        nearest_int(q * d, d) == q,
{
    assert(q * d == d * q) by (nonlinear_arith);
    vstd::arithmetic::div_mod::lemma_fundamental_div_mod_converse(
        (q * d) as int,
        d as int,
        q as int,
        0,
    );
}

/// The exponent of the grid around a number is fixed by its bit length.
pub proof fn lemma_grid(q: nat, e: nat)
    requires
        e == 0 ==> q < pow2(53),
        e > 0 ==> pow2(52 + e) <= q < pow2(53 + e),
    ensures
        grid(q) == e,
    decreases e,
{
    lemma_small_powers();
    if e > 0 {
        lemma_pow2_unfold(53 + e);
        lemma_pow2_unfold(52 + e);
        assert(pow2(53 + e) == 2 * pow2((52 + e) as nat));
        assert(pow2(52 + e) == 2 * pow2((51 + e) as nat));
        if e > 1 {
            lemma_grid(q / 2, (e - 1) as nat);
            assert(q >= pow2(53)) by {
                if e > 1 {
                    lemma_pow2_strictly_increases(53, 52 + e);
                }
            }
        } else {
            lemma_grid(q / 2, 0);
        }
    }
}

/// Rounding `x / (d * 2^s)` needs only the whole part `p` of `x / d` and whether anything is left.
pub proof fn lemma_nearest_int_sticky(x: nat, d: nat, s: nat, p: nat, sticky: bool)
    requires
        d > 0,
        s > 0,
        p * d <= x < (p + 1) * d,
        sticky <==> x != p * d,
    ensures
        nearest_int(x, d * pow2(s)) == ({
            let q = p / pow2(s);
            let r = p % pow2(s);
            let h = pow2((s - 1) as nat);
            if r < h || (r == h && !sticky && q % 2 == 0) {
                q
            } else {
                q + 1
            }
        }),
{
    let w = pow2(s);
    let h = pow2((s - 1) as nat);
    lemma_pow2_pos(s);
    lemma_pow2_unfold(s);
    assert(w == 2 * h);
    let q = p / w;
    let r = p % w;
    let t = (x - p * d) as nat;
    vstd::arithmetic::div_mod::lemma_fundamental_div_mod(p as int, w as int);
    assert(t < d) by (nonlinear_arith)
        requires
            x < (p + 1) * d,
            t == x - p * d,
    ;
    let rest = r * d + t;
    assert(x == q * (d * w) + rest) by (nonlinear_arith)
        requires
            p == w * q + r,
            x == p * d + t,
            rest == r * d + t,
    ;
    assert(0 <= rest < d * w) by (nonlinear_arith)
        requires
            r < w,
            0 <= t < d,
            rest == r * d + t,
    ;
    assert(d * w > 0);
    assert(q * (d * w) == (d * w) * q) by (nonlinear_arith);
    vstd::arithmetic::div_mod::lemma_fundamental_div_mod_converse(
        x as int,
        (d * w) as int,
        q as int,
        rest as int,
    );
    assert(x / (d * w) == q);
    assert(x % (d * w) == rest);
    assert(d * w == 2 * (h * d)) by (nonlinear_arith)
        requires
            w == 2 * h,
    ;
    if r < h {
        assert(rest < h * d) by (nonlinear_arith)
            requires
                r + 1 <= h,
                0 <= t < d,
                rest == r * d + t,
        ;
    } else if r == h {
        assert(rest == h * d + t);
    } else {
        assert(rest > h * d) by (nonlinear_arith)
            requires
                r >= h + 1,
                0 <= t < d,
                rest == r * d + t,
        ;
    }
}

/// Two to the power `s`.
pub(super) fn power_of_two(s: u32) -> (w: u128)
    requires
        s < 128,
    ensures
        w == pow2(s as nat),
{
    let mut w: u128 = 1;
    let mut i: u32 = 0;
    proof {
        lemma_small_powers();
    }
    while i < s
        invariant
            i <= s < 128,
            w == pow2(i as nat),
        decreases s - i,
    {
        proof {
            lemma_pow2_unfold((i + 1) as nat);
            lemma_power_fits((i + 1) as nat);
        }
        w = w * 2;
        i = i + 1;
    }
    w
}

proof fn lemma_power_fits(s: nat)
    requires
        s < 128,
    ensures
        pow2(s) <= u128::MAX,
{
    lemma_small_powers();
    if s > 64 {
        lemma_pow2_adds(64, 63);
        lemma_pow2_unfold(64);
        if s < 127 {
            lemma_pow2_strictly_increases(s, 127);
        }
        assert(pow2(127) == pow2(64) * pow2(63));
        assert(pow2(64) * pow2(63) == 0x8000_0000_0000_0000_0000_0000_0000_0000) by (nonlinear_arith)
            requires
                pow2(64) == 0x1_0000_0000_0000_0000,
                pow2(63) == 0x8000_0000_0000_0000,
        ;
    } else if s < 64 {
        lemma_pow2_strictly_increases(s, 64);
    }
}

/// The number of bits of `p`.
pub(super) fn bit_length(p: u128) -> (l: u32)
    requires
        p > 0,
    ensures
        0 < l <= 128,
        pow2((l - 1) as nat) <= p < pow2(l as nat),
{
    let mut c: u128 = p;
    let mut l: u32 = 0;
    let ghost mut w: nat = 1;
    proof {
        lemma_small_powers();
    }
    while c > 1
        invariant
            c >= 1,
            l < 128,
            w == pow2(l as nat),
            c * w <= p < (c + 1) * w,
        decreases c,
    {
        proof {
            lemma_pow2_unfold((l + 1) as nat);
            let half = (c / 2) as nat;
            assert(half * (2 * w) <= p < (half + 1) * (2 * w)) by (nonlinear_arith)
                requires
                    c * w <= p < (c + 1) * w,
                    half == c as nat / 2,
            ;
            w = 2 * w;
            if l == 127 {
                lemma_small_powers();
                lemma_pow2_adds(64, 64);
                assert(pow2(64) * pow2(64) == 0x1_0000_0000_0000_0000_0000_0000_0000_0000)
                    by (nonlinear_arith)
                    requires
                        pow2(64) == 0x1_0000_0000_0000_0000,
                ;
                assert(half * w >= w) by (nonlinear_arith)
                    requires
                        half >= 1,
                ;
            }
        }
        c = c / 2;
        l = l + 1;
    }
    proof {
        lemma_pow2_unfold((l + 1) as nat);
        assert(c == 1);
        assert(1 * w <= p < 2 * w) by (nonlinear_arith)
            requires
                c == 1,
                c * w <= p < (c + 1) * w,
        ;
    }
    l + 1
}

/// `p` is the whole part of `n / d` counted in units of `2^k`, and `sticky` says whether it leaves
/// anything out.
pub open spec fn whole_part(n: nat, d: nat, k: int, p: nat, sticky: bool) -> bool {
    let x = n * pow2(if k < 0 { (-k) as nat } else { 0 });
    let y = d * pow2(if k < 0 { 0 } else { k as nat });
    p * y <= x < (p + 1) * y && (sticky <==> x != p * y)
}

/// The bit length of the whole part fixes the grid that `n / d` is rounded on.
proof fn lemma_grid_of_whole_part(n: nat, d: nat, k: int, p: nat, sticky: bool, l: nat)
    requires
        d > 0,
        l > 0,
        whole_part(n, d, k, p, sticky),
        pow2((l - 1) as nat) <= p < pow2(l),
    ensures
        grid(n / d) == (if l + k > 53 { l + k - 53 } else { 0 }),
{
    lemma_small_powers();
    let q = n / d;
    vstd::arithmetic::div_mod::lemma_fundamental_div_mod(n as int, d as int);
    let top: nat = if l + k > 0 { (l + k) as nat } else { 0 };
    lemma_pow2_pos(top);
    if k >= 0 {
        let w = pow2(k as nat);
        lemma_pow2_adds(l, k as nat);
        lemma_pow2_adds((l - 1) as nat, k as nat);
        lemma_pow2_pos(k as nat);
        assert(n * pow2(0) == n);
        assert(n < pow2(l) * w * d) by (nonlinear_arith)
            requires
                n < (p + 1) * (d * w),
                p + 1 <= pow2(l),
                d > 0,
                w > 0,
        ;
        assert(n >= pow2((l - 1) as nat) * w * d) by (nonlinear_arith)
            requires
                n >= p * (d * w),
                p >= pow2((l - 1) as nat),
                d > 0,
                w > 0,
        ;
        lemma_quotient_bounds(n, d, pow2((l - 1) as nat) * w, pow2(l) * w);
        assert(pow2((l + k - 1) as nat) <= q < pow2(top));
    } else {
        let j = (-k) as nat;
        let w = pow2(j);
        lemma_pow2_pos(j);
        assert(d * pow2(0) == d);
        assert(n * w < pow2(l) * d) by (nonlinear_arith)
            requires
                n * w < (p + 1) * d,
                p + 1 <= pow2(l),
                d > 0,
        ;
        assert(n * w >= pow2((l - 1) as nat) * d) by (nonlinear_arith)
            requires
                n * w >= p * d,
                p >= pow2((l - 1) as nat),
                d > 0,
        ;
        if l + k > 0 {
            let high = pow2(top);
            let low = pow2((top - 1) as nat);
            lemma_pow2_adds(top, j);
            lemma_pow2_adds((top - 1) as nat, j);
            assert(n < high * d) by (nonlinear_arith)
                requires
                    n * w < (high * w) * d,
                    w > 0,
            ;
            assert(n >= low * d) by (nonlinear_arith)
                requires
                    n * w >= (low * w) * d,
                    w > 0,
            ;
            lemma_quotient_bounds(n, d, low, high);
        } else {
            if l < j {
                lemma_pow2_strictly_increases(l, j);
            }
            assert(n < 1 * d) by (nonlinear_arith)
                requires
                    n * w < pow2(l) * d,
                    pow2(l) <= w,
                    w > 0,
            ;
            lemma_quotient_bounds(n, d, 0, 1);
        }
    }
    let e: nat = if l + k > 53 { (l + k - 53) as nat } else { 0 };
    if e == 0 && top < 53 {
        lemma_pow2_strictly_increases(top, 53);
    }
    lemma_grid(q, e);
}

proof fn lemma_quotient_bounds(n: nat, d: nat, low: nat, high: nat)
    requires
        d > 0,
        low * d <= n < high * d,
    ensures
        low <= n / d < high,
{
    let q = n / d;
    vstd::arithmetic::div_mod::lemma_fundamental_div_mod(n as int, d as int);
    assert(q < high) by (nonlinear_arith)
        requires
            d > 0,
            n < high * d,
            n >= d * q,
    ;
    assert(low <= q) by (nonlinear_arith)
        requires
            d > 0,
            low * d <= n,
            n < d * q + d,
    ;
}

/// The magnitude bits of the number nearest to `n / d`, of which the whole part `p` in units of
/// `2^k` is known, and whether it is exact.
pub(super) fn round_magnitude(
    p: u128,
    k: i32,
    sticky: bool,
    Ghost(n): Ghost<nat>,
    Ghost(d): Ghost<nat>,
) -> (mag: u64)
    requires
        0 < p < 0x100_0000_0000_0000_0000_0000_0000_0000,
        -4000 <= k <= 4000,
        sticky ==> p >= 0x40_0000_0000_0000,
        d > 0,
        whole_part(n, d, k as int, p as nat, sticky),
    ensures
        mag == nearest(n, d),
        mag <= INFINITE,
{
    let l: u32 = bit_length(p);
    let e: i32 = if l as i32 + k > 53 {
        l as i32 + k - 53
    } else {
        0
    };
    let s: i32 = e - k;
    proof {
        lemma_small_powers();
        lemma_grid_of_whole_part(n, d, k as int, p as nat, sticky, l as nat);
        lemma_pow2_pos(e as nat);
        lemma_pow2_adds(64, 56);
        lemma_pow2_adds(1, 53);
        assert(pow2(120) == 0x100_0000_0000_0000_0000_0000_0000_0000) by {
            vstd::arithmetic::power2::lemma2_to64();
            vstd::arithmetic::power2::lemma2_to64_rest();
            assert(pow2(64) * pow2(56) == 0x100_0000_0000_0000_0000_0000_0000_0000)
                by (nonlinear_arith)
                requires
                    pow2(64) == 0x1_0000_0000_0000_0000,
                    pow2(56) == 0x100_0000_0000_0000,
            ;
        }
        if l > 120 {
            if l > 121 {
                lemma_pow2_strictly_increases(120, (l - 1) as nat);
            }
        }
        assert(l <= 120);
        if sticky && l <= 54 {
            if l < 54 {
                lemma_pow2_strictly_increases(l as nat, 54);
            }
            assert(false);
        }
    }
    if e >= 2047 {
        assert(e * HIDDEN >= INFINITE) by (nonlinear_arith)
            requires
                e >= 2047,
                HIDDEN == 0x10_0000_0000_0000u64,
                INFINITE == 0x7ff0_0000_0000_0000u64,
        ;
        return INFINITE;
    }
    let m: u64;
    if s <= 0 {
        let c: u32 = (-s) as u32;
        proof {
            let w = pow2(c as nat);
            let we = pow2(e as nat);
            lemma_pow2_adds(c as nat, e as nat);
            lemma_pow2_adds(l as nat, c as nat);
            lemma_pow2_pos(c as nat);
            assert(n * pow2(0) == n);
            assert(n == (p * w) * (d * we)) by (nonlinear_arith)
                requires
                    n == p * (d * (w * we)),
            ;
            assert(d * we > 0) by (nonlinear_arith)
                requires
                    d > 0,
                    we > 0,
            ;
            lemma_nearest_int_exact((p * w) as nat, d * we);
            assert(p * w < pow2(l as nat) * w) by (nonlinear_arith)
                requires
                    p < pow2(l as nat),
                    w > 0,
            ;
            if l + c < 53 {
                lemma_pow2_strictly_increases((l + c) as nat, 53);
            }
            lemma_power_fits(c as nat);
        }
        let w: u128 = power_of_two(c);
        m = (p * w) as u64;
    } else {
        let ghost a: nat = if k < 0 { (-k) as nat } else { 0 };
        let ghost b: nat = if k < 0 { 0 } else { k as nat };
        proof {
            let y = d * pow2(b);
            lemma_pow2_pos(a);
            lemma_pow2_pos(b);
            assert(y > 0) by (nonlinear_arith)
                requires
                    d > 0,
                    pow2(b) > 0,
                    y == d * pow2(b),
            ;
            lemma_nearest_int_sticky(n * pow2(a), y, s as nat, p as nat, sticky);
            lemma_pow2_adds(b, s as nat);
            lemma_pow2_adds(e as nat, a);
            assert(b + s == e + a);
            assert(y * pow2(s as nat) == (d * pow2(e as nat)) * pow2(a)) by (nonlinear_arith)
                requires
                    y == d * pow2(b),
                    pow2(b) * pow2(s as nat) == pow2(e as nat) * pow2(a),
            ;
            assert(d * pow2(e as nat) > 0) by (nonlinear_arith)
                requires
                    d > 0,
                    pow2(e as nat) > 0,
            ;
            lemma_nearest_int_scale(n, d * pow2(e as nat), pow2(a));
            lemma_pow2_pos(s as nat);
            lemma_pow2_unfold(s as nat);
        }
        if s > 120 {
            proof {
                if s > 121 {
                    lemma_pow2_strictly_increases(120, (s - 1) as nat);
                }
                vstd::arithmetic::div_mod::lemma_small_mod(p as nat, pow2(s as nat));
                vstd::arithmetic::div_mod::lemma_basic_div(p as int, pow2(s as nat) as int);
            }
            m = 0;
        } else {
            let w: u128 = power_of_two(s as u32);
            let q: u128 = p / w;
            let r: u128 = p % w;
            let h: u128 = w / 2;
            proof {
                lemma_pow2_adds(s as nat, 53);
                if l < s + 53 {
                    lemma_pow2_strictly_increases(l as nat, (s + 53) as nat);
                }
                assert(q < 2 * HIDDEN) by (nonlinear_arith)
                    requires
                        p < w * (2 * HIDDEN),
                        q == p as nat / w as nat,
                        w > 0,
                ;
            }
            m = if r < h || (r == h && !sticky && q % 2 == 0) {
                q as u64
            } else {
                (q + 1) as u64
            };
        }
    }
    assert(m == nearest_int(n, d * pow2(e as nat)));
    assert(m <= 2 * HIDDEN);
    assert(e * HIDDEN <= 2046 * HIDDEN) by (nonlinear_arith)
        requires
            0 <= e <= 2046,
    ;
    let mag: u64 = e as u64 * HIDDEN + m;
    if mag < INFINITE {
        mag
    } else {
        INFINITE
    }
}

pub proof fn lemma_small_powers()
    ensures
        pow2(52) == HIDDEN,
        pow2(53) == 2 * HIDDEN,
        pow2(0) == 1,
        pow2(1) == 2,
        pow2(11) == 2048,
        pow2(64) == 0x1_0000_0000_0000_0000,
{
    vstd::arithmetic::power2::lemma2_to64();
    vstd::arithmetic::power2::lemma2_to64_rest();
}

} // verus!
