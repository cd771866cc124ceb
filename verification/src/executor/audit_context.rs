//! The market around an event, for the audit trail.

use vstd::prelude::*;

use super::revalidation::{book_of, outcome_book};
use super::types::OrderSide;
use crate::binary64::model::{of_nat, times};
use crate::binary64::Binary64;
use crate::emitter::audit::AuditBookContext;
use crate::engine::state::{five_places, five_places_some, round_5, round_5_some};
use crate::market::ActiveMarket;
use crate::time::age;
use crate::ws::polymarket::{BookSnapshot, OutcomeBook};

verus! {

/// The token that a side buys.
pub open spec fn token_of(market: ActiveMarket, side: OrderSide) -> String {
    match side {
        OrderSide::BuyYes => market.yes_asset_id,
        OrderSide::BuyNo => market.no_asset_id,
    }
}

/// The money that an order of `shares` asks for: at its limit, else at the ask, else none.
pub open spec fn notional_of(
    shares: u64,
    limit: Option<Binary64>,
    ask: Option<Binary64>,
) -> Binary64 {
    let price = match limit {
        Some(p) => p,
        None => match ask {
            Some(p) => p,
            None => of_nat(0),
        },
    };
    five_places(times(of_nat(shares as nat), price))
}

pub open spec fn context_of(
    book: BookSnapshot,
    now_ms: u64,
    side: OrderSide,
    market: Option<ActiveMarket>,
    entry_slippage: Option<Binary64>,
    entry_limit_price: Option<Binary64>,
    intended_shares: Option<u64>,
) -> AuditBookContext {
    let selected = book_of(book, side);
    AuditBookContext {
        market_slug: match market {
            Some(m) => Some(m.slug),
            None => None,
        },
        token_id: match market {
            Some(m) => Some(token_of(m, side)),
            None => None,
        },
        yes_bid: five_places_some(book.yes.bid),
        yes_ask: five_places_some(book.yes.ask),
        no_bid: five_places_some(book.no.bid),
        no_ask: five_places_some(book.no.ask),
        book_received_at_ms: book.received_at_ms,
        book_source_ts_ms: book.source_ts_ms,
        book_age_ms: age(now_ms, book.received_at_ms),
        selected_bid: five_places_some(selected.bid),
        selected_ask: five_places_some(selected.ask),
        entry_slippage: five_places_some(entry_slippage),
        entry_limit_price: five_places_some(entry_limit_price),
        intended_shares,
        intended_notional_usd: match intended_shares {
            Some(shares) => Some(notional_of(shares, entry_limit_price, selected.ask)),
            None => None,
        },
        available_shares: None,
        required_shares: None,
        exchange_error: None,
        filled_shares: None,
        exit_attempts: None,
        exit_retry_attempts: None,
        exit_attempt_funder_address: None,
        entry_matched_funder_address: None,
        signature_type: None,
        fallback_order_id: None,
        entry_submit_latency_ms: None,
        entry_build_latency_ms: None,
        entry_sign_latency_ms: None,
        entry_post_latency_ms: None,
        gtc_post_success: None,
        gtc_post_status: None,
        gtc_post_making_amount: None,
        gtc_post_taking_amount: None,
        gtc_poll_count: None,
        gtc_poll_status: None,
        gtc_poll_size_matched: None,
        gtc_cancel_confirmed: None,
        gtc_final_status: None,
        gtc_final_size_matched: None,
    }
}

pub open spec fn market_of(market: Option<&ActiveMarket>) -> Option<ActiveMarket> {
    match market {
        Some(m) => Some(*m),
        None => None,
    }
}

/// The token that a side buys.
pub fn token_text(market: &ActiveMarket, side: OrderSide) -> (r: String)
    ensures
        r == token_of(*market, side),
{
    match side {
        OrderSide::BuyYes => market.yes_asset_id.clone(),
        OrderSide::BuyNo => market.no_asset_id.clone(),
    }
}

pub fn audit_context(
    book: BookSnapshot,
    now_ms: u64,
    side: OrderSide,
    market: Option<&ActiveMarket>,
    entry_slippage: Option<Binary64>,
    entry_limit_price: Option<Binary64>,
    intended_shares: Option<u64>,
) -> (r: AuditBookContext)
    ensures
        r == context_of(
            book,
            now_ms,
            side,
            market_of(market),
            entry_slippage,
            entry_limit_price,
            intended_shares,
        ),
{
    let selected: OutcomeBook = outcome_book(book, side);
    let token_id: Option<String> = match market {
        Some(m) => Some(token_text(m, side)),
        None => None,
    };
    let market_slug: Option<String> = match market {
        Some(m) => Some(m.slug.clone()),
        None => None,
    };
    let intended_notional_usd: Option<Binary64> = match intended_shares {
        Some(shares) => {
            let price: Binary64 = match entry_limit_price {
                Some(p) => p,
                None => match selected.ask {
                    Some(p) => p,
                    None => Binary64::from_u64(0),
                },
            };
            Some(round_5(Binary64::from_u64(shares).mul(price)))
        },
        None => None,
    };
    AuditBookContext {
        market_slug,
        token_id,
        yes_bid: round_5_some(book.yes.bid),
        yes_ask: round_5_some(book.yes.ask),
        no_bid: round_5_some(book.no.bid),
        no_ask: round_5_some(book.no.ask),
        book_received_at_ms: book.received_at_ms,
        book_source_ts_ms: book.source_ts_ms,
        book_age_ms: now_ms.saturating_sub(book.received_at_ms),
        selected_bid: round_5_some(selected.bid),
        selected_ask: round_5_some(selected.ask),
        entry_slippage: round_5_some(entry_slippage),
        entry_limit_price: round_5_some(entry_limit_price),
        intended_shares,
        intended_notional_usd,
        available_shares: None,
        required_shares: None,
        exchange_error: None,
        filled_shares: None,
        exit_attempts: None,
        exit_retry_attempts: None,
        exit_attempt_funder_address: None,
        entry_matched_funder_address: None,
        signature_type: None,
        fallback_order_id: None,
        entry_submit_latency_ms: None,
        entry_build_latency_ms: None,
        entry_sign_latency_ms: None,
        entry_post_latency_ms: None,
        gtc_post_success: None,
        gtc_post_status: None,
        gtc_post_making_amount: None,
        gtc_post_taking_amount: None,
        gtc_poll_count: None,
        gtc_poll_status: None,
        gtc_poll_size_matched: None,
        gtc_cancel_confirmed: None,
        gtc_final_status: None,
        gtc_final_size_matched: None,
    }
}

/// What is told of the market around an event: both books as they stand, the book and the token of
/// the side that the event is of, and the money that an order asks for at its limit or else at that
/// side's ask.
pub proof fn law_told_market(
    book: BookSnapshot,
    now_ms: u64,
    side: OrderSide,
    market: Option<ActiveMarket>,
    entry_slippage: Option<Binary64>,
    entry_limit_price: Option<Binary64>,
    intended_shares: Option<u64>,
)
    ensures
        ({
            let told = context_of(
                book,
                now_ms,
                side,
                market,
                entry_slippage,
                entry_limit_price,
                intended_shares,
            );
            let no = side == OrderSide::BuyNo;
            let own = if no {
                book.no
            } else {
                book.yes
            };
            &&& told_price(told.yes_bid, book.yes.bid)
            &&& told_price(told.yes_ask, book.yes.ask)
            &&& told_price(told.no_bid, book.no.bid)
            &&& told_price(told.no_ask, book.no.ask)
            &&& told_price(told.selected_bid, own.bid)
            &&& told_price(told.selected_ask, own.ask)
            &&& told_price(told.entry_slippage, entry_slippage)
            &&& told_price(told.entry_limit_price, entry_limit_price)
            &&& told.book_received_at_ms == book.received_at_ms
            &&& told.book_source_ts_ms == book.source_ts_ms
            &&& book.received_at_ms <= now_ms ==> told.book_age_ms == now_ms - book.received_at_ms
            &&& told.intended_shares == intended_shares
            &&& market matches Some(m) ==> {
                &&& told.market_slug == Some(m.slug)
                &&& no ==> told.token_id == Some(m.no_asset_id)
                &&& !no ==> told.token_id == Some(m.yes_asset_id)
            }
            &&& market is None ==> told.market_slug is None && told.token_id is None
            &&& intended_shares is None ==> told.intended_notional_usd is None
            &&& intended_shares matches Some(n) ==> {
                &&& entry_limit_price matches Some(p) ==> told.intended_notional_usd == Some(
                    five_places(times(of_nat(n as nat), p)),
                )
                &&& entry_limit_price is None ==> (own.ask matches Some(p)
                    ==> told.intended_notional_usd == Some(
                    five_places(times(of_nat(n as nat), p)),
                ))
            }
        }),
{
}

/// A price is told to five places, and a missing one as missing.
pub open spec fn told_price(told: Option<Binary64>, price: Option<Binary64>) -> bool {
    match price {
        Some(p) => told == Some(five_places(p)),
        None => told is None,
    }
}

/// An order asks for its shares at its limit, without one at the ask, and for nothing without either,
/// to five places.
pub proof fn law_asked_money(shares: u64, limit: Binary64, ask: Option<Binary64>)
    ensures
        notional_of(shares, Some(limit), ask) == five_places(
            times(of_nat(shares as nat), limit),
        ),
        notional_of(shares, None, ask) == five_places(
            times(
                of_nat(shares as nat),
                match ask {
                    Some(p) => p,
                    None => of_nat(0),
                },
            ),
        ),
{
}

} // verus!
