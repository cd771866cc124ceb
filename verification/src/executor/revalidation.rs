//! Whether an entry is still worth making.

use vstd::prelude::*;

use super::math::{covers_fees, expected_move_covers_fees, order_size, size_of_order};
use super::types::OrderSide;
use crate::binary64::model::{at_most, less, minus, of_nat, opposite, plus, ratio};
use crate::binary64::Binary64;
use crate::market::MarketClock;
use crate::runtime_config::StrategySnapshot;
use crate::time::age;
use crate::ws::polymarket::{
    BookSnapshot, DepthLevel, DepthSnapshot, MarketLevels, OutcomeBook,
};

verus! {

/// How much two prices or sizes may differ and still count as equal.
pub open spec fn tolerance() -> Binary64 {
    ratio(1, 100_000)
}

pub fn small() -> (r: Binary64)
    ensures
        r == tolerance(),
{
    Binary64::from_ratio(1, 100_000)
}

pub open spec fn book_of(snapshot: BookSnapshot, side: OrderSide) -> OutcomeBook {
    match side {
        OrderSide::BuyYes => snapshot.yes,
        OrderSide::BuyNo => snapshot.no,
    }
}

/// The ask is above the bid by no more than the spread allows.
pub open spec fn spread_fits(bid: Binary64, ask: Binary64, max_spread: Binary64) -> bool {
    !at_most(ask, bid) && !less(plus(max_spread, tolerance()), minus(ask, bid))
}

/// The price and the size of an entry at this moment, where the market's progress, the age of
/// the book, the spread, the price and the expected gain all allow one.
pub open spec fn entry_at(
    book: BookSnapshot,
    now_ms: u64,
    clock: MarketClock,
    config: StrategySnapshot,
    side: OrderSide,
) -> Option<(Binary64, u64)> {
    match (book_of(book, side).bid, book_of(book, side).ask) {
        (Some(bid), Some(ask)) => {
            let shares = size_of_order(ask, config.max_notional_usd, config.max_shares);
            if clock.allows(now_ms, config.min_progress, config.max_progress) && age(
                now_ms,
                book.received_at_ms,
            ) <= config.max_book_age_ms && spread_fits(bid, ask, config.max_spread) && !less(
                ask,
                config.min_price,
            ) && !less(config.max_price, ask) && covers_fees(
                ask,
                shares,
                config.min_expected_price_move,
            ) {
                Some((ask, shares))
            } else {
                None
            }
        },
        _ => None,
    }
}

/// Checks an entry again.
pub fn revalidate_entry(
    book: BookSnapshot,
    now_ms: u64,
    market_clock: &MarketClock,
    config: &StrategySnapshot,
    side: OrderSide,
) -> (r: Option<(Binary64, u64)>)
    ensures
        r == entry_at(book, now_ms, *market_clock, *config, side),
{
    if !market_clock.progress_allowed(now_ms, config.min_progress, config.max_progress)
        || now_ms.saturating_sub(book.received_at_ms) > config.max_book_age_ms {
        return None;
    }
    let outcome: OutcomeBook = outcome_book(book, side);
    if let (Some(bid), Some(ask)) = (outcome.bid, outcome.ask) {
        if !is_spread_fit(bid, ask, config.max_spread) {
            return None;
        }
        if ask.lt(config.min_price) || config.max_price.lt(ask) {
            return None;
        }
        let shares: u64 = order_size(ask, config.max_notional_usd, config.max_shares);
        if !expected_move_covers_fees(ask, shares, config.min_expected_price_move) {
            return None;
        }
        Some((ask, shares))
    } else {
        None
    }
}

pub fn is_spread_fit(bid: Binary64, ask: Binary64, max_spread: Binary64) -> (r: bool)
    ensures
        r == spread_fits(bid, ask, max_spread),
{
    !ask.le(bid) && !max_spread.add(small()).lt(ask.sub(bid))
}

/// The size that stands at or below a price, level by level.
pub open spec fn size_up_to(levels: Seq<DepthLevel>, limit: Binary64) -> Binary64
    decreases levels.len(),
{
    if levels.len() == 0 {
        opposite(of_nat(0))
    } else {
        let rest = size_up_to(levels.drop_last(), limit);
        if at_most(levels.last().price, limit) {
            plus(rest, levels.last().size)
        } else {
            rest
        }
    }
}

pub open spec fn asks_of(depth: MarketLevels, side: OrderSide) -> Seq<DepthLevel> {
    match side {
        OrderSide::BuyYes => depth.yes.asks,
        OrderSide::BuyNo => depth.no.asks,
    }
}

/// Adds up the size that stands at or below a price.
pub fn total_up_to(levels: &Vec<DepthLevel>, limit: Binary64) -> (r: Binary64)
    ensures
        r == size_up_to(levels@, limit),
{
    let mut total: Binary64 = Binary64::from_u64(0).neg();
    let mut i: usize = 0;
    while i < levels.len()
        invariant
            i <= levels@.len(),
            total == size_up_to(levels@.take(i as int), limit),
        decreases levels@.len() - i,
    {
        assert(levels@.take(i + 1).drop_last() == levels@.take(i as int));
        if levels[i].price.le(limit) {
            total = total.add(levels[i].size);
        }
        i += 1;
    }
    assert(levels@.take(levels@.len() as int) == levels@);
    total
}

/// The shares on offer at or below a price.
pub fn executable_ask_shares(depth: &DepthSnapshot, side: OrderSide, limit_price: Binary64) -> (r:
    Binary64)
    ensures
        r == size_up_to(asks_of(depth@, side), limit_price),
{
    match side {
        OrderSide::BuyYes => total_up_to(&depth.yes.asks, limit_price),
        OrderSide::BuyNo => total_up_to(&depth.no.asks, limit_price),
    }
}

pub fn outcome_book(snapshot: BookSnapshot, side: OrderSide) -> (r: OutcomeBook)
    ensures
        r == book_of(snapshot, side),
{
    match side {
        OrderSide::BuyYes => snapshot.yes,
        OrderSide::BuyNo => snapshot.no,
    }
}

/// An entry is made only within the market's progress, at a price within the limits, and for a
/// size above zero and within the largest.
pub proof fn law_entry_within_limits(
    book: BookSnapshot,
    now_ms: u64,
    clock: MarketClock,
    config: StrategySnapshot,
    side: OrderSide,
)
    ensures
        entry_at(book, now_ms, clock, config, side) matches Some((ask, shares)) ==> {
            &&& book_of(book, side).ask == Some(ask)
            &&& 0 < shares <= config.max_shares
            &&& !less(ask, config.min_price)
            &&& !less(config.max_price, ask)
            &&& clock.open_ts_ms <= now_ms <= clock.close_ts_ms
            &&& age(now_ms, book.received_at_ms) <= config.max_book_age_ms
        },
{
}

/// A one-sided book allows no entry.
pub proof fn law_one_sided_book(
    book: BookSnapshot,
    now_ms: u64,
    clock: MarketClock,
    config: StrategySnapshot,
    side: OrderSide,
)
    requires
        book_of(book, side).bid is None || book_of(book, side).ask is None,
    ensures
        entry_at(book, now_ms, clock, config, side) is None,
{
}

/// The size up to a price is the sum, in the order of the levels, of the sizes of those levels whose
/// price is at or below it, and of no others.
pub proof fn law_size_up_to(levels: Seq<DepthLevel>, limit: Binary64)
    ensures
        size_up_to(levels, limit) == levels.filter(
            |level: DepthLevel| at_most(level.price, limit),
        ).fold_left(opposite(of_nat(0)), |sum: Binary64, level: DepthLevel| plus(sum, level.size)),
    decreases levels.len(),
{
    reveal(Seq::filter);
    let within = |level: DepthLevel| at_most(level.price, limit);
    let sum = |sum: Binary64, level: DepthLevel| plus(sum, level.size);
    if levels.len() > 0 {
        let rest = levels.drop_last();
        law_size_up_to(rest, limit);
        if within(levels.last()) {
            let kept = rest.filter(within);
            assert(kept.push(levels.last()).drop_last() == kept);
            reveal_with_fuel(Seq::fold_left, 2);
        }
    }
}

/// What an entry asks of the market is asked of the book of its own side: it is made exactly where
/// that book's ask is above its bid by no more than the widest spread and 0.00001, the ask is
/// within the limits, the book is fresh, the market within its progress, and the expected move
/// pays for the fees; and it is made at that ask.
pub proof fn law_entry_of_own_side(
    book: BookSnapshot,
    now_ms: u64,
    clock: MarketClock,
    config: StrategySnapshot,
    side: OrderSide,
)
    ensures
        ({
            let own = if side == OrderSide::BuyNo {
                book.no
            } else {
                book.yes
            };
            let entry = entry_at(book, now_ms, clock, config, side);
            let ask = own.ask->0;
            let shares = size_of_order(ask, config.max_notional_usd, config.max_shares);
            &&& entry is Some <==> {
                &&& own.bid is Some
                &&& own.ask is Some
                &&& clock.allows(now_ms, config.min_progress, config.max_progress)
                &&& now_ms <= book.received_at_ms + config.max_book_age_ms
                &&& !at_most(ask, own.bid->0)
                &&& !less(
                    plus(config.max_spread, ratio(1, 100_000)),
                    minus(ask, own.bid->0),
                )
                &&& !less(ask, config.min_price)
                &&& !less(config.max_price, ask)
                &&& covers_fees(ask, shares, config.min_expected_price_move)
            }
            &&& entry is Some ==> entry == Some((ask, shares))
        }),
{
}

/// An entry is bought from the asks of its own outcome.
pub proof fn law_asks_of_own_side(depth: MarketLevels, side: OrderSide)
    ensures
        side == OrderSide::BuyYes ==> asks_of(depth, side) == depth.yes.asks,
        side == OrderSide::BuyNo ==> asks_of(depth, side) == depth.no.asks,
{
}

} // verus!
