//! Sizes, prices and fees of an order.

use vstd::prelude::*;

use crate::binary64::exact::{
    lemma_rounded_down, lemma_whole_is_exact, lemma_whole_part, lemma_whole_product,
    lemma_whole_quotient,
};
use crate::binary64::model::{
    at_most, less, lesser, mag_value, minus, of_nat, over, plus, ratio, rounded_down, same, times,
    unit, whole_u64, HIDDEN,
};
use crate::binary64::Binary64;
use crate::time::{age, now_ms};

verus! {

/// How many shares fit in an amount of money, and in the largest size: none where the price is
/// not above zero and at most one.
pub open spec fn size_of_order(price: Binary64, max_notional: Binary64, max_shares: u64) -> u64 {
    if at_most(of_nat(0), price) && at_most(price, of_nat(1)) && !same(price, of_nat(0)) {
        let whole = whole_u64(rounded_down(over(max_notional, price)));
        if whole <= max_shares {
            whole
        } else {
            max_shares
        }
    } else {
        0
    }
}

/// The fee on `shares` at `price`, before rounding.
pub open spec fn raw_fee(price: Binary64, shares: u64) -> Binary64 {
    times(
        times(times(of_nat(shares as nat), ratio(7, 100)), price),
        minus(of_nat(1), price),
    )
}

/// The expected gain on `shares` is above the fees of both trades.
pub open spec fn covers_fees(entry: Binary64, shares: u64, expected_move: Binary64) -> bool {
    shares != 0 && (at_most(expected_move, of_nat(0)) || less(
        plus(
            raw_fee(entry, shares),
            raw_fee(lesser(plus(entry, expected_move), of_nat(1)), shares),
        ),
        times(expected_move, of_nat(shares as nat)),
    ))
}

/// The largest number with two decimal places that is at most `value`.
pub open spec fn two_places_down(value: Binary64) -> Binary64 {
    over(rounded_down(times(value, of_nat(100))), of_nat(100))
}

/// The price at which `taken` was paid for `made`, where anything was given.
pub open spec fn price_of(taken: Option<Binary64>, made: Option<Binary64>) -> Option<Binary64> {
    match (taken, made) {
        (Some(t), Some(m)) if !at_most(m, of_nat(0)) => Some(over(t, m)),
        _ => None,
    }
}

/// The milliseconds from an earlier moment to a later one; none where the clock went back.
pub fn elapsed_ms(since: u64, now: u64) -> (r: u64)
    ensures
        r == age(now, since),
{
    now.saturating_sub(since)
}

/// The milliseconds from an earlier moment until now.
pub fn elapsed_to_now_ms(since: u64) -> (r: u64)
    ensures
        exists|now: u64| r == age(now, since),
{
    let now: u64 = now_ms();
    elapsed_ms(since, now)
}

/// How many shares to order.
pub fn order_size(price: Binary64, max_notional_usd: Binary64, max_shares: u64) -> (r: u64)
    ensures
        r == size_of_order(price, max_notional_usd, max_shares),
{
    let zero: Binary64 = Binary64::from_u64(0);
    if !(zero.le(price) && price.le(Binary64::from_u64(1))) || price.equals(zero) {
        return 0;
    }
    let whole: u64 = max_notional_usd.div(price).floor().to_u64();
    if whole <= max_shares {
        whole
    } else {
        max_shares
    }
}

/// Whether the expected price move pays for the fees of both trades.
pub fn expected_move_covers_fees(
    entry_price: Binary64,
    shares: u64,
    min_expected_price_move: Binary64,
) -> (r: bool)
    ensures
        r == covers_fees(entry_price, shares, min_expected_price_move),
{
    if shares == 0 {
        return false;
    }
    if min_expected_price_move.le(Binary64::from_u64(0)) {
        return true;
    }
    let exit_price: Binary64 = entry_price.add(min_expected_price_move).min(Binary64::from_u64(1));
    let gross: Binary64 = min_expected_price_move.mul(Binary64::from_u64(shares));
    let fees: Binary64 = fee(entry_price, shares).add(fee(exit_price, shares));
    fees.lt(gross)
}

fn fee(price: Binary64, shares: u64) -> (r: Binary64)
    ensures
        r == raw_fee(price, shares),
{
    Binary64::from_u64(shares).mul(Binary64::from_ratio(7, 100)).mul(price).mul(
        Binary64::from_u64(1).sub(price),
    )
}

/// The amounts that the exchange reports of a placed order: what the order gave and what it got,
/// where they are numbers.
#[derive(Debug, Clone, Copy, PartialEq, Eq, Structural)]
pub struct Amounts {
    pub making: Option<Binary64>,
    pub taking: Option<Binary64>,
}

/// The price of a sale.
pub fn sell_price(amounts: Amounts) -> (r: Option<Binary64>)
    ensures
        r == price_of(amounts.taking, amounts.making),
{
    price_ratio(amounts.taking, amounts.making)
}

/// The shares that a sale gave.
pub fn sell_shares_filled(amounts: Amounts) -> (r: Option<Binary64>)
    ensures
        r == amounts.making,
{
    amounts.making
}

/// The shares that a purchase got.
pub fn buy_shares_filled(amounts: Amounts) -> (r: Option<Binary64>)
    ensures
        r == amounts.taking,
{
    amounts.taking
}

/// The money that a purchase gave.
pub fn buy_notional_spent(amounts: Amounts) -> (r: Option<Binary64>)
    ensures
        r == amounts.making,
{
    amounts.making
}

fn price_ratio(numerator: Option<Binary64>, denominator: Option<Binary64>) -> (r: Option<Binary64>)
    ensures
        r == price_of(numerator, denominator),
{
    match denominator {
        Some(d) => {
            if d.le(Binary64::from_u64(0)) {
                None
            } else {
                match numerator {
                    Some(n) => Some(n.div(d)),
                    None => None,
                }
            }
        },
        None => None,
    }
}

/// The largest number with two decimal places that is at most a value.
pub fn floor_to_2_decimals(value: Binary64) -> (r: Binary64)
    ensures
        r == two_places_down(value),
{
    value.mul(Binary64::from_u64(100)).floor().div(Binary64::from_u64(100))
}

/// No order is larger than the largest size allowed.
pub proof fn law_order_size_capped(price: Binary64, max_notional: Binary64, max_shares: u64)
    ensures
        size_of_order(price, max_notional, max_shares) <= max_shares,
{
}

/// An order is for as many whole shares as the money buys at the price, and for no more than the
/// largest size; a price that is not above zero and at most one buys nothing.
pub proof fn law_order_size(price: Binary64, max_notional: Binary64, max_shares: u64) -> (k: nat)
    requires
        over(max_notional, price).finite(),
        !over(max_notional, price).negative(),
        mag_value(over(max_notional, price).magnitude()) < HIDDEN * unit(),
    ensures
        ({
            let worth = mag_value(over(max_notional, price).magnitude());
            let size = size_of_order(price, max_notional, max_shares);
            let sound = less(of_nat(0), price) && at_most(price, of_nat(1));
            &&& k * unit() <= worth < (k + 1) * unit()
            &&& !sound ==> size == 0
            &&& sound && k <= max_shares ==> size == k
            &&& sound && k > max_shares ==> size == max_shares
        }),
{
    reveal(at_most);
    reveal(less);
    reveal(same);
    crate::binary64::arith::lemma_of_nat_zero();
    let k = lemma_rounded_down(over(max_notional, price));
    lemma_whole_part(k, false);
    k
}

/// A value is cut to the number of hundredths that it holds; a whole number stays as it is.
pub proof fn law_two_places(value: Binary64, n: nat) -> (k: nat)
    requires
        times(value, of_nat(100)).finite(),
        !times(value, of_nat(100)).negative(),
        mag_value(times(value, of_nat(100)).magnitude()) < HIDDEN * unit(),
        n * 100 < HIDDEN,
    ensures
        k * unit() <= mag_value(times(value, of_nat(100)).magnitude()) < (k + 1) * unit(),
        two_places_down(value) == over(of_nat(k), of_nat(100)),
        two_places_down(of_nat(n)) == of_nat(n),
{
    lemma_whole_product(n, 100);
    lemma_whole_quotient(n, 100);
    lemma_whole_is_exact((n * 100) as nat);
    let u = unit();
    vstd::arithmetic::power2::lemma_pow2_pos(1074);
    assert((n * 100) * u < HIDDEN * u) by (nonlinear_arith)
        requires
            n * 100 < HIDDEN,
            u > 0,
    ;
    let j = lemma_rounded_down(of_nat((n * 100) as nat));
    assert(j == n * 100) by (nonlinear_arith)
        requires
            j * u <= (n * 100) * u,
            (n * 100) * u < (j + 1) * u,
            u > 0,
    ;
    lemma_rounded_down(times(value, of_nat(100)))
}

/// An expected move pays for an order exactly where it gains more, on all the shares, than the fees
/// of the entry and of the exit at the price moved, but at most at one; an order of no shares never
/// pays, and one that expects no move is not asked to.
pub proof fn law_fees_are_covered(entry: Binary64, shares: u64, expected_move: Binary64)
    ensures
        shares == 0 ==> !covers_fees(entry, shares, expected_move),
        shares > 0 && at_most(expected_move, of_nat(0)) ==> covers_fees(
            entry,
            shares,
            expected_move,
        ),
        shares > 0 && !at_most(expected_move, of_nat(0)) ==> ({
            let size = of_nat(shares as nat);
            let moved = plus(entry, expected_move);
            let exit = if !moved.nan() && at_most(moved, of_nat(1)) {
                moved
            } else {
                of_nat(1)
            };
            let part = times(size, over(of_nat(7), of_nat(100)));
            let fees = plus(
                times(times(part, entry), minus(of_nat(1), entry)),
                times(times(part, exit), minus(of_nat(1), exit)),
            );
            covers_fees(entry, shares, expected_move) <==> less(fees, times(expected_move, size))
        }),
{
    crate::binary64::arith::lemma_of_nat_is_number(1);
}

/// A price is the money for one share, where any shares changed hands.
pub proof fn law_price_of(money: Binary64, shares: Binary64)
    ensures
        !at_most(shares, of_nat(0)) ==> price_of(Some(money), Some(shares)) == Some(
            over(money, shares),
        ),
        at_most(shares, of_nat(0)) ==> price_of(Some(money), Some(shares)) is None,
        price_of(None, Some(shares)) is None,
        price_of(Some(money), None) is None,
{
}

} // verus!
