//! When an open position is closed.

use vstd::prelude::*;

use super::revalidation::{book_of, outcome_book};
use super::types::OrderSide;
use crate::binary64::arith::lemma_of_nat_zero;
use crate::binary64::close::{lemma_opposite, lemma_times_nothing};
use crate::binary64::exact::lemma_difference_with_itself;
use crate::binary64::model::{at_most, less, minus, of_nat, opposite, over, times};
use crate::binary64::Binary64;
use crate::engine::state::{fee_of, five_places, round_5, taker_fee_decimal};
use crate::runtime_config::StrategySnapshot;
use crate::time::age;
use crate::ws::polymarket::BookSnapshot;

verus! {

#[derive(Debug, Clone, Copy)]
pub struct ExitDecision {
    pub reason: &'static str,
    pub decided_at_ms: u64,
    pub held_ms: u64,
    pub exit_momentum_usd: Option<Binary64>,
}

/// What a position would gain if it were sold now.
#[derive(Debug, Clone, Copy, PartialEq, Eq, Structural)]
pub struct ExitMark {
    pub net_pnl: Binary64,
    pub net_pnl_pct: Binary64,
}

/// What the position would gain at the bid, where the book is fresh enough to tell.
pub open spec fn mark_of(
    book: BookSnapshot,
    now_ms: u64,
    side: OrderSide,
    entry_price: Binary64,
    shares: Binary64,
    config: StrategySnapshot,
) -> Option<ExitMark> {
    let notional = times(entry_price, shares);
    match book_of(book, side).bid {
        Some(bid) if age(now_ms, book.received_at_ms) <= config.max_book_age_ms && !at_most(
            notional,
            of_nat(0),
        ) => {
            let net = five_places(
                minus(
                    minus(times(minus(bid, entry_price), shares), fee_of(shares, entry_price)),
                    fee_of(shares, bid),
                ),
            );
            Some(
                ExitMark {
                    net_pnl: net,
                    net_pnl_pct: five_places(times(over(net, notional), of_nat(100))),
                },
            )
        },
        _ => None,
    }
}

/// The underlying price has moved against the position by the threshold.
pub open spec fn adverse(side: OrderSide, momentum: Option<Binary64>, threshold: Binary64) -> bool {
    match momentum {
        Some(m) => match side {
            OrderSide::BuyYes => at_most(m, opposite(threshold)),
            OrderSide::BuyNo => at_most(threshold, m),
        },
        None => false,
    }
}

/// Why a position that has been held for `held_ms` is closed now, if it is: a loss that is too
/// large, then a price that turned, then the time.
pub open spec fn exit_reason(
    mark: Option<ExitMark>,
    turned: bool,
    held_ms: u64,
    config: StrategySnapshot,
) -> Option<&'static str> {
    if mark is Some && at_most(mark->0.net_pnl_pct, config.exit_stop_loss_pct) {
        Some("stop_loss")
    } else if mark is Some && held_ms >= config.exit_min_hold_ms && turned {
        if at_most(config.exit_take_profit_net_usd, mark->0.net_pnl) {
            Some("profit_reversal")
        } else {
            Some("momentum_reversal")
        }
    } else if held_ms >= config.exit_max_hold_ms {
        Some("max_hold")
    } else {
        None
    }
}

/// The decision at one check of a position.
pub open spec fn decision_at(
    side: OrderSide,
    entry_at_ms: u64,
    entry_price: Binary64,
    shares: Binary64,
    config: StrategySnapshot,
    book: BookSnapshot,
    momentum: Option<Binary64>,
    now_ms: u64,
) -> Option<ExitDecision> {
    let held_ms = age(now_ms, entry_at_ms);
    match exit_reason(
        mark_of(book, now_ms, side, entry_price, shares, config),
        adverse(side, momentum, config.exit_reversal_threshold_usd),
        held_ms,
        config,
    ) {
        Some(reason) => Some(
            ExitDecision { reason, decided_at_ms: now_ms, held_ms, exit_momentum_usd: momentum },
        ),
        None => None,
    }
}

/// Checks whether an open position is to be closed.  It is checked anew after every
/// `exit_check_interval_ms`, with the book and the momentum of that moment, until it is.
pub fn exit_decision(
    side: OrderSide,
    entry_at_ms: u64,
    entry_price: Binary64,
    shares: Binary64,
    config: &StrategySnapshot,
    book: BookSnapshot,
    exit_momentum_usd: Option<Binary64>,
    decided_at_ms: u64,
) -> (r: Option<ExitDecision>)
    ensures
        r == decision_at(
            side,
            entry_at_ms,
            entry_price,
            shares,
            *config,
            book,
            exit_momentum_usd,
            decided_at_ms,
        ),
{
    let held_ms: u64 = decided_at_ms.saturating_sub(entry_at_ms);
    let mark: Option<ExitMark> = exit_mark(book, decided_at_ms, side, entry_price, shares, config);
    let is_adverse: bool = adverse_reversal(
        side,
        exit_momentum_usd,
        config.exit_reversal_threshold_usd,
    );
    if let Some(mark) = mark {
        if mark.net_pnl_pct.le(config.exit_stop_loss_pct) {
            return Some(
                ExitDecision { reason: "stop_loss", decided_at_ms, held_ms, exit_momentum_usd },
            );
        }
        if held_ms >= config.exit_min_hold_ms && is_adverse {
            let reason: &'static str = if config.exit_take_profit_net_usd.le(mark.net_pnl) {
                "profit_reversal"
            } else {
                "momentum_reversal"
            };
            return Some(ExitDecision { reason, decided_at_ms, held_ms, exit_momentum_usd });
        }
    }
    if held_ms >= config.exit_max_hold_ms {
        return Some(
            ExitDecision { reason: "max_hold", decided_at_ms, held_ms, exit_momentum_usd },
        );
    }
    None
}

pub fn exit_mark(
    book: BookSnapshot,
    now_ms: u64,
    side: OrderSide,
    entry_price: Binary64,
    shares: Binary64,
    config: &StrategySnapshot,
) -> (r: Option<ExitMark>)
    ensures
        r == mark_of(book, now_ms, side, entry_price, shares, *config),
{
    if now_ms.saturating_sub(book.received_at_ms) > config.max_book_age_ms {
        return None;
    }
    let exit_price: Binary64 = match outcome_book(book, side).bid {
        Some(bid) => bid,
        None => return None,
    };
    let gross_pnl: Binary64 = exit_price.sub(entry_price).mul(shares);
    let entry_fee: Binary64 = taker_fee_decimal(shares, entry_price);
    let exit_fee: Binary64 = taker_fee_decimal(shares, exit_price);
    let entry_notional: Binary64 = entry_price.mul(shares);
    if entry_notional.le(Binary64::from_u64(0)) {
        return None;
    }
    let net_pnl: Binary64 = round_5(gross_pnl.sub(entry_fee).sub(exit_fee));
    Some(
        ExitMark {
            net_pnl,
            net_pnl_pct: round_5(net_pnl.div(entry_notional).mul(Binary64::from_u64(100))),
        },
    )
}

pub fn adverse_reversal(
    side: OrderSide,
    momentum_usd: Option<Binary64>,
    threshold_usd: Binary64,
) -> (r: bool)
    ensures
        r == adverse(side, momentum_usd, threshold_usd),
{
    match momentum_usd {
        Some(momentum_usd) => match side {
            OrderSide::BuyYes => momentum_usd.le(threshold_usd.neg()),
            OrderSide::BuyNo => threshold_usd.le(momentum_usd),
        },
        None => false,
    }
}

/// A position that has been held for the longest time allowed is closed at its next check,
/// whatever the books and the price do.
pub proof fn law_exit_is_reached(
    side: OrderSide,
    entry_at_ms: u64,
    entry_price: Binary64,
    shares: Binary64,
    config: StrategySnapshot,
    book: BookSnapshot,
    momentum: Option<Binary64>,
    now_ms: u64,
)
    requires
        age(now_ms, entry_at_ms) >= config.exit_max_hold_ms,
    ensures
        decision_at(side, entry_at_ms, entry_price, shares, config, book, momentum, now_ms)
            is Some,
{
}

/// A loss at or past the stop is never held on to, however short the position has been held.
pub proof fn law_stop_loss_comes_first(
    mark: ExitMark,
    turned: bool,
    held_ms: u64,
    config: StrategySnapshot,
)
    requires
        at_most(mark.net_pnl_pct, config.exit_stop_loss_pct),
    ensures
        exit_reason(Some(mark), turned, held_ms, config) == Some("stop_loss"),
{
}

/// Before the shortest holding time, nothing but the stop closes a position.
pub proof fn law_min_hold(
    mark: Option<ExitMark>,
    turned: bool,
    held_ms: u64,
    config: StrategySnapshot,
)
    requires
        held_ms < config.exit_min_hold_ms,
        config.exit_min_hold_ms <= config.exit_max_hold_ms,
    ensures
        exit_reason(mark, turned, held_ms, config) matches Some(reason) ==> reason == "stop_loss",
{
}

/// The bid of the outcome that a position was bought in.
pub open spec fn own_bid(book: BookSnapshot, side: OrderSide) -> Option<Binary64> {
    if side == OrderSide::BuyNo {
        book.no.bid
    } else {
        book.yes.bid
    }
}

/// A position is marked by the bid of the outcome that was bought and by no other price: two books
/// that agree on it and on their age give the same mark, a book without it gives none, and the
/// result is what the shares gain between the entry and that bid, less the fees of both trades.
pub proof fn law_mark_is_of_own_outcome(
    book: BookSnapshot,
    other: BookSnapshot,
    now_ms: u64,
    side: OrderSide,
    entry_price: Binary64,
    shares: Binary64,
    config: StrategySnapshot,
)
    ensures
        own_bid(book, side) == own_bid(other, side) && book.received_at_ms == other.received_at_ms
            ==> mark_of(book, now_ms, side, entry_price, shares, config) == mark_of(
            other,
            now_ms,
            side,
            entry_price,
            shares,
            config,
        ),
        own_bid(book, side) is None ==> mark_of(
            book,
            now_ms,
            side,
            entry_price,
            shares,
            config,
        ) is None,
        mark_of(book, now_ms, side, entry_price, shares, config) matches Some(mark) ==> {
            let bid = own_bid(book, side)->0;
            let gained = times(minus(bid, entry_price), shares);
            let paid = times(entry_price, shares);
            &&& own_bid(book, side) is Some
            &&& mark.net_pnl == five_places(
                minus(minus(gained, fee_of(shares, entry_price)), fee_of(shares, bid)),
            )
            &&& mark.net_pnl_pct == five_places(times(over(mark.net_pnl, paid), of_nat(100)))
        },
{
}

/// A position has a mark exactly where its outcome has a bid, the book is no older than allowed
/// and the entry cost something.
pub proof fn law_mark_is_there(
    book: BookSnapshot,
    now_ms: u64,
    side: OrderSide,
    entry_price: Binary64,
    shares: Binary64,
    config: StrategySnapshot,
)
    ensures
        mark_of(book, now_ms, side, entry_price, shares, config) is Some <==> {
            &&& own_bid(book, side) is Some
            &&& now_ms <= book.received_at_ms + config.max_book_age_ms
            &&& !at_most(times(entry_price, shares), of_nat(0))
        },
{
}

/// A position sold at its entry price loses the fees of both trades, and nothing else.
pub proof fn law_mark_at_entry_price(
    book: BookSnapshot,
    now_ms: u64,
    side: OrderSide,
    price: Binary64,
    shares: Binary64,
    config: StrategySnapshot,
)
    requires
        own_bid(book, side) == Some(price),
        price.finite(),
        shares.finite(),
    ensures
        mark_of(book, now_ms, side, price, shares, config) matches Some(mark) ==> exists|
            nothing: Binary64,
        |
            nothing.zero() && mark.net_pnl == #[trigger] five_places(
                minus(minus(nothing, fee_of(shares, price)), fee_of(shares, price)),
            ),
{
    lemma_difference_with_itself(price);
    lemma_of_nat_zero();
    lemma_times_nothing(minus(price, price), shares);
    let nothing = times(minus(price, price), shares);
    assert(nothing.zero());
    assert(five_places(minus(minus(nothing, fee_of(shares, price)), fee_of(shares, price)))
        == five_places(minus(minus(nothing, fee_of(shares, price)), fee_of(shares, price))));
}

/// The underlying price turns against a position that was bought on a rise when it has fallen by
/// the threshold, and against one that was bought on a fall when it has risen by it: what is
/// adverse to one is not to the other, and no move is adverse that is not known.
pub proof fn law_adverse_move(momentum: Binary64, threshold: Binary64)
    requires
        less(of_nat(0), threshold),
    ensures
        adverse(OrderSide::BuyYes, Some(momentum), threshold) <==> !momentum.nan()
            && momentum.scaled() <= -threshold.scaled(),
        adverse(OrderSide::BuyNo, Some(momentum), threshold) <==> !momentum.nan()
            && momentum.scaled() >= threshold.scaled(),
        adverse(OrderSide::BuyYes, Some(opposite(momentum)), threshold) == adverse(
            OrderSide::BuyNo,
            Some(momentum),
            threshold,
        ),
        !(adverse(OrderSide::BuyYes, Some(momentum), threshold) && adverse(
            OrderSide::BuyNo,
            Some(momentum),
            threshold,
        )),
        !adverse(OrderSide::BuyYes, None, threshold),
        !adverse(OrderSide::BuyNo, None, threshold),
{
    reveal(at_most);
    reveal(less);
    lemma_of_nat_zero();
    lemma_opposite(threshold);
    lemma_opposite(momentum);
}

/// Each reason closes a position exactly when it should: the stop at its loss, a reversal after the
/// shortest holding time where neither the stop nor the gain speaks against it, and the longest
/// holding time where no other reason does.
pub proof fn law_exit_reasons(
    side: OrderSide,
    entry_at_ms: u64,
    entry_price: Binary64,
    shares: Binary64,
    config: StrategySnapshot,
    book: BookSnapshot,
    momentum: Option<Binary64>,
    now_ms: u64,
)
    requires
        entry_at_ms <= now_ms,
    ensures
        ({
            let mark = mark_of(book, now_ms, side, entry_price, shares, config);
            let held = now_ms - entry_at_ms;
            let decision = decision_at(
                side,
                entry_at_ms,
                entry_price,
                shares,
                config,
                book,
                momentum,
                now_ms,
            );
            let stop = mark matches Some(m) && at_most(m.net_pnl_pct, config.exit_stop_loss_pct);
            let turned = mark is Some && held >= config.exit_min_hold_ms && adverse(
                side,
                momentum,
                config.exit_reversal_threshold_usd,
            );
            let gain = mark matches Some(m) && at_most(config.exit_take_profit_net_usd, m.net_pnl);
            &&& decision is None <==> !stop && !turned && held < config.exit_max_hold_ms
            &&& decision matches Some(d) ==> {
                &&& d.decided_at_ms == now_ms
                &&& d.held_ms == held
                &&& d.exit_momentum_usd == momentum
                &&& stop ==> d.reason == "stop_loss"
                &&& !stop && turned && gain ==> d.reason == "profit_reversal"
                &&& !stop && turned && !gain ==> d.reason == "momentum_reversal"
                &&& !stop && !turned ==> d.reason == "max_hold"
            }
        }),
{
}

} // verus!
