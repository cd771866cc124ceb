//! Exits by other policies, simulated beside the real ones.
//!
//! A policy either takes liquidity at once or rests an order one tick above the bid, waits for
//! trades to fill it behind the queue, cancels it and sells what is left.

use vstd::arithmetic::power2::pow2;
use vstd::prelude::*;

use crate::binary64::arith::lemma_of_nat_zero;
use crate::binary64::close::{
    apart, lemma_difference_is_close, lemma_difference_sign, lemma_lesser_is_finite,
};
use crate::binary64::exact::lemma_difference_with_itself;
use crate::binary64::model::{
    at_most, greater, less, lesser, minus, of_nat, over, plus, ratio, times, total_position,
    HIDDEN, INFINITE,
};
use crate::binary64::Binary64;
use crate::config::ShadowConfig;
use crate::engine::state::{fee_of, five_places, round_5, taker_fee_decimal};
use crate::executor::revalidation::{
    asks_of, book_of, outcome_book, size_up_to, small, tolerance, total_up_to,
};
use crate::executor::types::OrderSide;
use crate::text::same_text;
use crate::time::age;
use crate::ws::polymarket::{
    BookSnapshot, DepthLevel, DepthSnapshot, MarketLevels, OutcomeDepth, TradePrint, TradeSide,
};

verus! {

#[derive(Debug, Clone, Copy)]
pub struct ShadowExitRequest {
    pub position_id: u64,
    pub side: OrderSide,
    pub entry_ms: u64,
    pub decision_ms: u64,
    pub exit_reason: &'static str,
    pub entry_price: Binary64,
    pub shares: Binary64,
    pub decision_processing_started_ns: u128,
    pub decision_processing_finished_ns: u128,
    pub event_receive_ns: u128,
    pub event_exchange_timestamp_ms: u64,
    pub book_age_ms: u64,
}

#[derive(Debug, Clone, Copy)]
pub struct ShadowExitRecord {
    pub position_id: u64,
    pub side: &'static str,
    pub entry_ms: u64,
    pub decision_ms: u64,
    pub exit_reason: &'static str,
    pub entry_price: Binary64,
    pub original_shares: Binary64,
    pub entry_notional: Binary64,
    pub entry_fee: Binary64,
    pub baseline_taker_active_ms: u64,
    pub policy_e_maker_active_ms: Option<u64>,
    pub policy_e_maker_timeout_ms: Option<u64>,
    pub policy_e_cancel_effective_ms: Option<u64>,
    pub policy_e_fallback_taker_active_ms: Option<u64>,
    pub policy_d_maker_active_ms: Option<u64>,
    pub policy_d_maker_timeout_ms: Option<u64>,
    pub policy_d_cancel_effective_ms: Option<u64>,
    pub policy_d_fallback_taker_active_ms: Option<u64>,
    pub decision_processing_started_ns: u128,
    pub decision_processing_finished_ns: u128,
    pub event_receive_ns: u128,
    pub event_exchange_timestamp_ms: u64,
    pub book_age_ms: u64,
    pub baseline: ShadowPolicyResult,
    pub policy_e: ShadowPolicyResult,
    pub policy_d: ShadowPolicyResult,
    pub policy_e_diff_vs_baseline: ShadowDiff,
    pub policy_d_diff_vs_baseline: ShadowDiff,
}

#[derive(Debug, Clone, Copy)]
pub struct ShadowPolicyResult {
    pub policy: &'static str,
    pub state: ShadowState,
    pub selected_for_maker: bool,
    pub selection_reason: &'static str,
    pub queue_snapshot_ms: Option<u64>,
    pub queue_ahead: Option<Binary64>,
    pub queue_ratio: Option<Binary64>,
    pub limit_price: Option<Binary64>,
    pub maker_filled_shares: Binary64,
    pub fallback_taker_shares: Binary64,
    pub maker_fill_vwap: Option<Binary64>,
    pub fallback_taker_vwap: Option<Binary64>,
    pub outcome: ShadowOutcome,
    pub pnl: ShadowPnl,
    pub baseline_positive: bool,
    pub policy_positive: bool,
    pub sign_flip: bool,
    pub incremental_diff: Binary64,
    pub worst_adverse_price_move: Option<Binary64>,
    pub decision_to_completion_ms: Option<u64>,
    pub maker_active_to_completion_ms: Option<u64>,
    pub timeline: ShadowPolicyTimeline,
}

#[derive(Debug, Clone, Copy, PartialEq, Eq, Structural)]
pub struct ShadowPolicyTimeline {
    pub maker_active_ms: Option<u64>,
    pub maker_timeout_ms: Option<u64>,
    pub cancel_effective_ms: Option<u64>,
    pub fallback_taker_active_ms: Option<u64>,
}

#[derive(Debug, Clone, Copy, PartialEq, Eq, Structural)]
pub enum ShadowState {
    PendingActivation,
    TakerPending,
    MakerResting,
    CancelPending,
    FallbackTakerPending,
    Completed,
    InsufficientData,
}

#[derive(Debug, Clone, Copy, PartialEq, Eq, Structural)]
pub enum ShadowOutcome {
    TakerBypass,
    FullFillTradeSupported,
    PartialFillTradeSupported,
    ZeroFillTimeoutFallback,
    PostOnlyRejected,
    InsufficientFutureData,
}

#[derive(Debug, Clone, Copy, PartialEq, Eq, Structural)]
pub struct ShadowPnl {
    pub entry_notional: Binary64,
    pub entry_fee: Binary64,
    pub maker_exit_notional: Binary64,
    pub maker_exit_fee: Binary64,
    pub fallback_exit_notional: Binary64,
    pub fallback_exit_fee: Binary64,
    pub total_exit_notional: Binary64,
    pub total_exit_fee: Binary64,
    pub net_pnl: Binary64,
}

#[derive(Debug, Clone, Copy, PartialEq, Eq, Structural)]
pub struct ShadowDiff {
    pub net_pnl_diff: Binary64,
    pub price_component: Binary64,
    pub fee_component: Binary64,
}

/// When a position may rest an order: on a profit that turned, or on any price that turned.
#[derive(Debug, Clone, Copy, PartialEq, Eq, Structural)]
pub enum ShadowPolicy {
    PolicyE,
    PolicyD,
}

// ---------------------------------------------------------------------------------------------
// What the simulation computes.

pub open spec fn no_pnl() -> ShadowPnl {
    let zero = of_nat(0);
    ShadowPnl {
        entry_notional: zero,
        entry_fee: zero,
        maker_exit_notional: zero,
        maker_exit_fee: zero,
        fallback_exit_notional: zero,
        fallback_exit_fee: zero,
        total_exit_notional: zero,
        total_exit_fee: zero,
        net_pnl: zero,
    }
}

pub open spec fn no_timeline() -> ShadowPolicyTimeline {
    ShadowPolicyTimeline {
        maker_active_ms: None,
        maker_timeout_ms: None,
        cancel_effective_ms: None,
        fallback_taker_active_ms: None,
    }
}

impl ShadowPolicy {
    pub open spec fn label(self) -> &'static str {
        match self {
            ShadowPolicy::PolicyE => "policy_e",
            ShadowPolicy::PolicyD => "policy_d",
        }
    }

    pub fn as_str(self) -> (r: &'static str)
        ensures
            r == self.label(),
    {
        match self {
            ShadowPolicy::PolicyE => "policy_e",
            ShadowPolicy::PolicyD => "policy_d",
        }
    }
}

impl Default for ShadowPnl {
    fn default() -> (r: Self)
        ensures
            r == no_pnl(),
    {
        let zero: Binary64 = Binary64::from_u64(0);
        ShadowPnl {
            entry_notional: zero,
            entry_fee: zero,
            maker_exit_notional: zero,
            maker_exit_fee: zero,
            fallback_exit_notional: zero,
            fallback_exit_fee: zero,
            total_exit_notional: zero,
            total_exit_fee: zero,
            net_pnl: zero,
        }
    }
}

impl Default for ShadowDiff {
    fn default() -> (r: Self)
        ensures
            r == (ShadowDiff {
                net_pnl_diff: of_nat(0),
                price_component: of_nat(0),
                fee_component: of_nat(0),
            }),
    {
        let zero: Binary64 = Binary64::from_u64(0);
        ShadowDiff { net_pnl_diff: zero, price_component: zero, fee_component: zero }
    }
}

impl Default for ShadowPolicyTimeline {
    fn default() -> (r: Self)
        ensures
            r == no_timeline(),
    {
        ShadowPolicyTimeline {
            maker_active_ms: None,
            maker_timeout_ms: None,
            cancel_effective_ms: None,
            fallback_taker_active_ms: None,
        }
    }
}

impl ShadowPolicyResult {
    /// A result that nothing is known of yet.
    pub open spec fn blank(policy: &'static str) -> Self {
        ShadowPolicyResult {
            policy,
            state: ShadowState::PendingActivation,
            selected_for_maker: false,
            selection_reason: "taker_baseline",
            queue_snapshot_ms: None,
            queue_ahead: None,
            queue_ratio: None,
            limit_price: None,
            maker_filled_shares: of_nat(0),
            fallback_taker_shares: of_nat(0),
            maker_fill_vwap: None,
            fallback_taker_vwap: None,
            outcome: ShadowOutcome::InsufficientFutureData,
            pnl: no_pnl(),
            baseline_positive: false,
            policy_positive: false,
            sign_flip: false,
            incremental_diff: of_nat(0),
            worst_adverse_price_move: None,
            decision_to_completion_ms: None,
            maker_active_to_completion_ms: None,
            timeline: no_timeline(),
        }
    }

    /// A result that could not be told for lack of data.
    pub open spec fn undecided(self, reason: &'static str) -> Self {
        ShadowPolicyResult {
            outcome: ShadowOutcome::InsufficientFutureData,
            selection_reason: reason,
            state: ShadowState::InsufficientData,
            ..self
        }
    }

    pub fn new(policy: &'static str) -> (r: Self)
        ensures
            r == Self::blank(policy),
    {
        let zero: Binary64 = Binary64::from_u64(0);
        ShadowPolicyResult {
            policy,
            state: ShadowState::PendingActivation,
            selected_for_maker: false,
            selection_reason: "taker_baseline",
            queue_snapshot_ms: None,
            queue_ahead: None,
            queue_ratio: None,
            limit_price: None,
            maker_filled_shares: zero,
            fallback_taker_shares: zero,
            maker_fill_vwap: None,
            fallback_taker_vwap: None,
            outcome: ShadowOutcome::InsufficientFutureData,
            pnl: ShadowPnl::default(),
            baseline_positive: false,
            policy_positive: false,
            sign_flip: false,
            incremental_diff: zero,
            worst_adverse_price_move: None,
            decision_to_completion_ms: None,
            maker_active_to_completion_ms: None,
            timeline: ShadowPolicyTimeline::default(),
        }
    }

    fn set_undecided(&mut self, reason: &'static str)
        ensures
            *final(self) == old(self).undecided(reason),
    {
        self.outcome = ShadowOutcome::InsufficientFutureData;
        self.selection_reason = reason;
        self.state = ShadowState::InsufficientData;
    }
}

pub open spec fn rests(policy: ShadowPolicy, exit_reason: Seq<char>) -> bool {
    match policy {
        ShadowPolicy::PolicyE => exit_reason == "profit_reversal"@,
        ShadowPolicy::PolicyD => exit_reason == "momentum_reversal"@ || exit_reason
            == "profit_reversal"@,
    }
}

/// A trade that fills a resting sell order at `limit`: someone bought the same outcome at that
/// price or above while the order was resting.
pub open spec fn fills(
    trade: TradePrint,
    side: OrderSide,
    limit: Binary64,
    from_ms: u64,
    to_ms: u64,
) -> bool {
    &&& trade.is_yes == (side == OrderSide::BuyYes)
    &&& trade.side == TradeSide::Buy
    &&& at_most(limit, plus(trade.price, tolerance()))
    &&& from_ms <= trade.received_at_ms <= to_ms
}

/// No book came in within the second before.
pub open spec fn stale(received_at_ms: u64, target_ms: u64) -> bool {
    received_at_ms == 0 || age(target_ms, received_at_ms) > 1_000
}

pub open spec fn bids_of(depth: MarketLevels, side: OrderSide) -> Seq<DepthLevel> {
    match side {
        OrderSide::BuyYes => depth.yes.bids,
        OrderSide::BuyNo => depth.no.bids,
    }
}

/// The place of a level in a list that is ordered from the highest price down, behind those of
/// its own price.
pub open spec fn rank_in(sorted: Seq<DepthLevel>, level: DepthLevel, i: int) -> int
    decreases sorted.len() - i,
{
    if i >= sorted.len() {
        sorted.len() as int
    } else if total_position(sorted[i].price) < total_position(level.price) {
        i
    } else {
        rank_in(sorted, level, i + 1)
    }
}

/// The levels from the highest price down, those of one price in the order that they came in.
pub open spec fn ranked(levels: Seq<DepthLevel>) -> Seq<DepthLevel>
    decreases levels.len(),
{
    if levels.len() == 0 {
        Seq::empty()
    } else {
        let rest = ranked(levels.drop_last());
        rest.insert(rank_in(rest, levels.last(), 0), levels.last())
    }
}

/// What is left to sell, and what the sales brought in, after the first `n` levels.
pub open spec fn sold_into(levels: Seq<DepthLevel>, n: int, shares: Binary64) -> (
    Binary64,
    Binary64,
)
    decreases n,
{
    if n <= 0 {
        (shares, of_nat(0))
    } else {
        let (remaining, notional) = sold_into(levels, n - 1, shares);
        if at_most(remaining, of_nat(0)) {
            (remaining, notional)
        } else {
            let filled = lesser(remaining, levels[n - 1].size);
            (minus(remaining, filled), plus(notional, times(filled, levels[n - 1].price)))
        }
    }
}

/// The average price at which `shares` are sold into the bids at once.
pub open spec fn bid_vwap(
    depth: MarketLevels,
    book: BookSnapshot,
    side: OrderSide,
    shares: Binary64,
    active_ms: u64,
) -> Result<Binary64, &'static str> {
    if stale(book.received_at_ms, active_ms) || stale(depth.received_at_ms, active_ms) {
        Err("missing_fallback_book")
    } else if at_most(shares, of_nat(0)) {
        Ok(of_nat(0))
    } else {
        let bids = ranked(bids_of(depth, side));
        let (remaining, notional) = sold_into(bids, bids.len() as int, shares);
        if less(ratio(1, 100_000_000), remaining) {
            Err("missing_fallback_book")
        } else {
            Ok(over(notional, shares))
        }
    }
}

/// The result of an exit in up to two sales.
pub open spec fn pnl_of(
    entry_price: Binary64,
    shares: Binary64,
    maker_shares: Binary64,
    maker_price: Binary64,
    fallback_shares: Binary64,
    fallback_price: Binary64,
) -> ShadowPnl {
    let entry_notional = five_places(times(entry_price, shares));
    let entry_fee = fee_of(shares, entry_price);
    let maker_exit_notional = five_places(times(maker_shares, maker_price));
    let maker_exit_fee = fee_of(maker_shares, maker_price);
    let fallback_exit_notional = five_places(times(fallback_shares, fallback_price));
    let fallback_exit_fee = fee_of(fallback_shares, fallback_price);
    let total_exit_notional = five_places(plus(maker_exit_notional, fallback_exit_notional));
    let total_exit_fee = five_places(plus(maker_exit_fee, fallback_exit_fee));
    ShadowPnl {
        entry_notional,
        entry_fee,
        maker_exit_notional,
        maker_exit_fee,
        fallback_exit_notional,
        fallback_exit_fee,
        total_exit_notional,
        total_exit_fee,
        net_pnl: five_places(
            minus(minus(minus(total_exit_notional, entry_notional), entry_fee), total_exit_fee),
        ),
    }
}

/// How much better a policy did, and by what.
pub open spec fn diff_of(policy: ShadowPnl, baseline: ShadowPnl) -> ShadowDiff {
    ShadowDiff {
        net_pnl_diff: five_places(minus(policy.net_pnl, baseline.net_pnl)),
        price_component: five_places(
            minus(
                minus(policy.total_exit_notional, policy.entry_notional),
                minus(baseline.total_exit_notional, baseline.entry_notional),
            ),
        ),
        fee_component: five_places(
            minus(
                plus(baseline.entry_fee, baseline.total_exit_fee),
                plus(policy.entry_fee, policy.total_exit_fee),
            ),
        ),
    }
}

pub open spec fn later(ms: u64, delay: u64) -> u64 {
    if ms + delay > u64::MAX {
        u64::MAX
    } else {
        (ms + delay) as u64
    }
}

/// The moments of a resting order, one after another.
pub open spec fn timeline_of(decision_ms: u64, config: ShadowConfig) -> ShadowPolicyTimeline {
    let active = later(decision_ms, config.shadow_execution_latency_ms);
    let timeout = later(active, config.shadow_maker_wait_ms);
    let cancel = later(timeout, config.shadow_cancel_latency_ms);
    ShadowPolicyTimeline {
        maker_active_ms: Some(active),
        maker_timeout_ms: Some(timeout),
        cancel_effective_ms: Some(cancel),
        fallback_taker_active_ms: Some(later(cancel, config.shadow_fallback_taker_latency_ms)),
    }
}

/// The result of selling everything at once.
pub open spec fn taken(
    request: ShadowExitRequest,
    policy: &'static str,
    active_ms: u64,
    depth: MarketLevels,
    book: BookSnapshot,
) -> ShadowPolicyResult {
    let blank = ShadowPolicyResult {
        state: ShadowState::TakerPending,
        ..ShadowPolicyResult::blank(policy)
    };
    match bid_vwap(depth, book, request.side, request.shares, active_ms) {
        Ok(vwap) => ShadowPolicyResult {
            fallback_taker_vwap: Some(five_places(vwap)),
            fallback_taker_shares: five_places(request.shares),
            outcome: ShadowOutcome::TakerBypass,
            state: ShadowState::Completed,
            pnl: pnl_of(
                request.entry_price,
                request.shares,
                of_nat(0),
                of_nat(0),
                request.shares,
                vwap,
            ),
            decision_to_completion_ms: Some(age(active_ms, request.decision_ms)),
            ..blank
        },
        Err(_) => blank.undecided("missing_taker_active_book"),
    }
}

/// The result once what the resting order left is sold at once.
pub open spec fn fallen_back(
    result: ShadowPolicyResult,
    request: ShadowExitRequest,
    active_ms: u64,
    depth: MarketLevels,
    book: BookSnapshot,
) -> ShadowPolicyResult {
    let remaining = greater(minus(request.shares, result.maker_filled_shares), of_nat(0));
    match bid_vwap(depth, book, request.side, remaining, active_ms) {
        Ok(vwap) => ShadowPolicyResult {
            fallback_taker_vwap: Some(five_places(vwap)),
            fallback_taker_shares: five_places(remaining),
            outcome: if less(of_nat(0), result.maker_filled_shares) {
                ShadowOutcome::PartialFillTradeSupported
            } else if result.selected_for_maker {
                ShadowOutcome::ZeroFillTimeoutFallback
            } else if result.outcome == ShadowOutcome::PostOnlyRejected {
                ShadowOutcome::PostOnlyRejected
            } else {
                ShadowOutcome::TakerBypass
            },
            state: ShadowState::Completed,
            pnl: pnl_of(
                request.entry_price,
                request.shares,
                result.maker_filled_shares,
                match result.maker_fill_vwap {
                    Some(p) => p,
                    None => of_nat(0),
                },
                remaining,
                vwap,
            ),
            decision_to_completion_ms: Some(age(active_ms, request.decision_ms)),
            maker_active_to_completion_ms: match result.timeline.maker_active_ms {
                Some(ms) => Some(age(active_ms, ms)),
                None => None,
            },
            ..result
        },
        Err(reason) => result.undecided(reason),
    }
}

// ---------------------------------------------------------------------------------------------

fn after_ms(ms: u64, delay: u64) -> (r: u64)
    ensures
        r == later(ms, delay),
{
    ms.saturating_add(delay)
}

pub fn policy_uses_maker(policy: ShadowPolicy, exit_reason: &str) -> (r: bool)
    ensures
        r == rests(policy, exit_reason@),
{
    match policy {
        ShadowPolicy::PolicyE => same_text(exit_reason, "profit_reversal"),
        ShadowPolicy::PolicyD => same_text(exit_reason, "momentum_reversal") || same_text(
            exit_reason,
            "profit_reversal",
        ),
    }
}

pub fn trade_supports_sell_fill(
    trade: TradePrint,
    side: OrderSide,
    limit_price: Binary64,
    maker_active_ms: u64,
    maker_timeout_ms: u64,
) -> (r: bool)
    ensures
        r == fills(trade, side, limit_price, maker_active_ms, maker_timeout_ms),
{
    let selected_is_yes: bool = side == OrderSide::BuyYes;
    trade.is_yes == selected_is_yes && trade.side == TradeSide::Buy && limit_price.le(
        trade.price.add(small()),
    ) && trade.received_at_ms >= maker_active_ms && trade.received_at_ms <= maker_timeout_ms
}

fn stale_at(received_at_ms: u64, target_ms: u64) -> (r: bool)
    ensures
        r == stale(received_at_ms, target_ms),
{
    received_at_ms == 0 || target_ms.saturating_sub(received_at_ms) > 1_000
}

/// The size that stands before an order at a limit.
pub fn ask_queue_ahead(depth: &OutcomeDepth, limit_price: Binary64) -> (r: Binary64)
    ensures
        r == size_up_to(depth@.asks, plus(limit_price, tolerance())),
{
    total_up_to(&depth.asks, limit_price.add(small()))
}

fn sort_by_price(levels: &Vec<DepthLevel>) -> (r: Vec<DepthLevel>)
    ensures
        r@ == ranked(levels@),
{
    let mut sorted: Vec<DepthLevel> = Vec::new();
    let mut i: usize = 0;
    while i < levels.len()
        invariant
            i <= levels@.len(),
            sorted@ == ranked(levels@.take(i as int)),
        decreases levels@.len() - i,
    {
        let level: DepthLevel = levels[i];
        let mut j: usize = 0;
        while j < sorted.len() && !(sorted[j].price.position() < level.price.position())
            invariant
                j <= sorted@.len(),
                rank_in(sorted@, level, 0) == rank_in(sorted@, level, j as int),
            decreases sorted@.len() - j,
        {
            j += 1;
        }
        assert(levels@.take(i + 1).drop_last() == levels@.take(i as int));
        sorted.insert(j, level);
        i += 1;
    }
    assert(levels@.take(levels@.len() as int) == levels@);
    sorted
}

/// The average price at which shares are sold into the bids at once.
pub fn executable_bid_vwap(
    depth: &DepthSnapshot,
    book: BookSnapshot,
    side: OrderSide,
    shares: Binary64,
    active_ms: u64,
) -> (r: Result<Binary64, &'static str>)
    ensures
        r == bid_vwap(depth@, book, side, shares, active_ms),
{
    if stale_at(book.received_at_ms, active_ms) || stale_at(depth.received_at_ms, active_ms) {
        return Err("missing_fallback_book");
    }
    let zero: Binary64 = Binary64::from_u64(0);
    if shares.le(zero) {
        return Ok(zero);
    }
    let sorted: Vec<DepthLevel> = match side {
        OrderSide::BuyYes => sort_by_price(&depth.yes.bids),
        OrderSide::BuyNo => sort_by_price(&depth.no.bids),
    };
    let mut remaining: Binary64 = shares;
    let mut notional: Binary64 = zero;
    let mut i: usize = 0;
    while i < sorted.len()
        invariant
            i <= sorted@.len(),
            zero == of_nat(0),
            (remaining, notional) == sold_into(sorted@, i as int, shares),
        decreases sorted@.len() - i,
    {
        if !remaining.le(zero) {
            let filled: Binary64 = remaining.min(sorted[i].size);
            remaining = remaining.sub(filled);
            notional = notional.add(filled.mul(sorted[i].price));
        }
        i += 1;
    }
    if Binary64::from_ratio(1, 100_000_000).lt(remaining) {
        return Err("missing_fallback_book");
    }
    Ok(notional.div(shares))
}

pub fn pnl(
    entry_price: Binary64,
    shares: Binary64,
    maker_shares: Binary64,
    maker_price: Binary64,
    fallback_shares: Binary64,
    fallback_price: Binary64,
) -> (r: ShadowPnl)
    ensures
        r == pnl_of(
            entry_price,
            shares,
            maker_shares,
            maker_price,
            fallback_shares,
            fallback_price,
        ),
{
    let entry_notional: Binary64 = round_5(entry_price.mul(shares));
    let entry_fee: Binary64 = taker_fee_decimal(shares, entry_price);
    let maker_exit_notional: Binary64 = round_5(maker_shares.mul(maker_price));
    let maker_exit_fee: Binary64 = taker_fee_decimal(maker_shares, maker_price);
    let fallback_exit_notional: Binary64 = round_5(fallback_shares.mul(fallback_price));
    let fallback_exit_fee: Binary64 = taker_fee_decimal(fallback_shares, fallback_price);
    let total_exit_notional: Binary64 = round_5(maker_exit_notional.add(fallback_exit_notional));
    let total_exit_fee: Binary64 = round_5(maker_exit_fee.add(fallback_exit_fee));
    ShadowPnl {
        entry_notional,
        entry_fee,
        maker_exit_notional,
        maker_exit_fee,
        fallback_exit_notional,
        fallback_exit_fee,
        total_exit_notional,
        total_exit_fee,
        net_pnl: round_5(
            total_exit_notional.sub(entry_notional).sub(entry_fee).sub(total_exit_fee),
        ),
    }
}

pub fn diff(policy: &ShadowPnl, baseline: &ShadowPnl) -> (r: ShadowDiff)
    ensures
        r == diff_of(*policy, *baseline),
{
    let price_component: Binary64 = round_5(
        policy.total_exit_notional.sub(policy.entry_notional).sub(
            baseline.total_exit_notional.sub(baseline.entry_notional),
        ),
    );
    let fee_component: Binary64 = round_5(
        baseline.entry_fee.add(baseline.total_exit_fee).sub(
            policy.entry_fee.add(policy.total_exit_fee),
        ),
    );
    ShadowDiff {
        net_pnl_diff: round_5(policy.net_pnl.sub(baseline.net_pnl)),
        price_component,
        fee_component,
    }
}

/// A result held against the baseline.
pub open spec fn annotated(
    result: ShadowPolicyResult,
    baseline_net_pnl: Binary64,
    net_pnl_diff: Binary64,
) -> ShadowPolicyResult {
    let zero = of_nat(0);
    ShadowPolicyResult {
        baseline_positive: less(zero, baseline_net_pnl),
        policy_positive: less(zero, result.pnl.net_pnl),
        sign_flip: less(zero, baseline_net_pnl) && less(result.pnl.net_pnl, zero),
        incremental_diff: net_pnl_diff,
        ..result
    }
}

pub fn annotate_policy(
    result: &mut ShadowPolicyResult,
    baseline_net_pnl: Binary64,
    net_pnl_diff: Binary64,
)
    ensures
        *final(result) == annotated(*old(result), baseline_net_pnl, net_pnl_diff),
{
    let zero: Binary64 = Binary64::from_u64(0);
    result.baseline_positive = zero.lt(baseline_net_pnl);
    result.policy_positive = zero.lt(result.pnl.net_pnl);
    result.sign_flip = result.baseline_positive && result.pnl.net_pnl.lt(zero);
    result.incremental_diff = net_pnl_diff;
}

/// The exits that the engine simulates.
#[derive(Debug, Clone, Copy, PartialEq, Eq, Structural)]
pub struct ShadowExitEngine {
    pub config: ShadowConfig,
}

impl ShadowExitEngine {
    pub fn new(config: ShadowConfig) -> (r: Self)
        ensures
            r.config == config,
    {
        ShadowExitEngine { config }
    }

    pub fn enabled(&self) -> (r: bool)
        ensures
            r == self.config.shadow_exit_enabled,
    {
        self.config.shadow_exit_enabled
    }

    /// When an order that takes liquidity reaches the exchange.
    pub fn taker_active_ms(&self, request: &ShadowExitRequest) -> (r: u64)
        ensures
            r == later(request.decision_ms, self.config.shadow_execution_latency_ms),
    {
        after_ms(request.decision_ms, self.config.shadow_execution_latency_ms)
    }

    /// Sells everything at once, with the books of the moment that the order reaches the
    /// exchange.
    pub fn simulate_taker(
        &self,
        request: &ShadowExitRequest,
        policy: &'static str,
        depth: &DepthSnapshot,
        book: BookSnapshot,
    ) -> (r: ShadowPolicyResult)
        ensures
            r == taken(
                *request,
                policy,
                later(request.decision_ms, self.config.shadow_execution_latency_ms),
                depth@,
                book,
            ),
    {
        let active_ms: u64 = self.taker_active_ms(request);
        let mut result: ShadowPolicyResult = ShadowPolicyResult::new(policy);
        result.state = ShadowState::TakerPending;
        match executable_bid_vwap(depth, book, request.side, request.shares, active_ms) {
            Ok(vwap) => {
                let zero: Binary64 = Binary64::from_u64(0);
                result.fallback_taker_vwap = Some(round_5(vwap));
                result.fallback_taker_shares = round_5(request.shares);
                result.outcome = ShadowOutcome::TakerBypass;
                result.state = ShadowState::Completed;
                result.pnl =
                pnl(request.entry_price, request.shares, zero, zero, request.shares, vwap);
                result.decision_to_completion_ms =
                Some(active_ms.saturating_sub(request.decision_ms));
            },
            Err(_) => {
                result.set_undecided("missing_taker_active_book");
            },
        }
        result
    }

    /// Puts the three simulated exits side by side.
    pub fn simulate(
        &self,
        request: &ShadowExitRequest,
        baseline: ShadowPolicyResult,
        policy_e: ShadowPolicyResult,
        policy_d: ShadowPolicyResult,
    ) -> (r: ShadowExitRecord)
        ensures
            r == record_of(*request, self.config, baseline, policy_e, policy_d),
    {
        let mut baseline: ShadowPolicyResult = baseline;
        let mut policy_e: ShadowPolicyResult = policy_e;
        let mut policy_d: ShadowPolicyResult = policy_d;
        baseline.policy_positive = Binary64::from_u64(0).lt(baseline.pnl.net_pnl);
        baseline.baseline_positive = baseline.policy_positive;
        let policy_e_diff_vs_baseline: ShadowDiff = diff(&policy_e.pnl, &baseline.pnl);
        let policy_d_diff_vs_baseline: ShadowDiff = diff(&policy_d.pnl, &baseline.pnl);
        annotate_policy(
            &mut policy_e,
            baseline.pnl.net_pnl,
            policy_e_diff_vs_baseline.net_pnl_diff,
        );
        annotate_policy(
            &mut policy_d,
            baseline.pnl.net_pnl,
            policy_d_diff_vs_baseline.net_pnl_diff,
        );
        ShadowExitRecord {
            position_id: request.position_id,
            side: request.side.as_str(),
            entry_ms: request.entry_ms,
            decision_ms: request.decision_ms,
            exit_reason: request.exit_reason,
            entry_price: round_5(request.entry_price),
            original_shares: round_5(request.shares),
            entry_notional: round_5(request.entry_price.mul(request.shares)),
            entry_fee: taker_fee_decimal(request.shares, request.entry_price),
            baseline_taker_active_ms: self.taker_active_ms(request),
            policy_e_maker_active_ms: policy_e.timeline.maker_active_ms,
            policy_e_maker_timeout_ms: policy_e.timeline.maker_timeout_ms,
            policy_e_cancel_effective_ms: policy_e.timeline.cancel_effective_ms,
            policy_e_fallback_taker_active_ms: policy_e.timeline.fallback_taker_active_ms,
            policy_d_maker_active_ms: policy_d.timeline.maker_active_ms,
            policy_d_maker_timeout_ms: policy_d.timeline.maker_timeout_ms,
            policy_d_cancel_effective_ms: policy_d.timeline.cancel_effective_ms,
            policy_d_fallback_taker_active_ms: policy_d.timeline.fallback_taker_active_ms,
            decision_processing_started_ns: request.decision_processing_started_ns,
            decision_processing_finished_ns: request.decision_processing_finished_ns,
            event_receive_ns: request.event_receive_ns,
            event_exchange_timestamp_ms: request.event_exchange_timestamp_ms,
            book_age_ms: request.book_age_ms,
            baseline,
            policy_e,
            policy_d,
            policy_e_diff_vs_baseline,
            policy_d_diff_vs_baseline,
        }
    }
}

pub open spec fn record_of(
    request: ShadowExitRequest,
    config: ShadowConfig,
    baseline: ShadowPolicyResult,
    policy_e: ShadowPolicyResult,
    policy_d: ShadowPolicyResult,
) -> ShadowExitRecord {
    let positive = less(of_nat(0), baseline.pnl.net_pnl);
    let e_diff = diff_of(policy_e.pnl, baseline.pnl);
    let d_diff = diff_of(policy_d.pnl, baseline.pnl);
    ShadowExitRecord {
        position_id: request.position_id,
        side: request.side.label(),
        entry_ms: request.entry_ms,
        decision_ms: request.decision_ms,
        exit_reason: request.exit_reason,
        entry_price: five_places(request.entry_price),
        original_shares: five_places(request.shares),
        entry_notional: five_places(times(request.entry_price, request.shares)),
        entry_fee: fee_of(request.shares, request.entry_price),
        baseline_taker_active_ms: later(request.decision_ms, config.shadow_execution_latency_ms),
        policy_e_maker_active_ms: policy_e.timeline.maker_active_ms,
        policy_e_maker_timeout_ms: policy_e.timeline.maker_timeout_ms,
        policy_e_cancel_effective_ms: policy_e.timeline.cancel_effective_ms,
        policy_e_fallback_taker_active_ms: policy_e.timeline.fallback_taker_active_ms,
        policy_d_maker_active_ms: policy_d.timeline.maker_active_ms,
        policy_d_maker_timeout_ms: policy_d.timeline.maker_timeout_ms,
        policy_d_cancel_effective_ms: policy_d.timeline.cancel_effective_ms,
        policy_d_fallback_taker_active_ms: policy_d.timeline.fallback_taker_active_ms,
        decision_processing_started_ns: request.decision_processing_started_ns,
        decision_processing_finished_ns: request.decision_processing_finished_ns,
        event_receive_ns: request.event_receive_ns,
        event_exchange_timestamp_ms: request.event_exchange_timestamp_ms,
        book_age_ms: request.book_age_ms,
        baseline: ShadowPolicyResult {
            policy_positive: positive,
            baseline_positive: positive,
            ..baseline
        },
        policy_e: annotated(policy_e, baseline.pnl.net_pnl, e_diff.net_pnl_diff),
        policy_d: annotated(policy_d, baseline.pnl.net_pnl, d_diff.net_pnl_diff),
        policy_e_diff_vs_baseline: e_diff,
        policy_d_diff_vs_baseline: d_diff,
    }
}

// ---------------------------------------------------------------------------------------------
// One policy, from the decision to its result.

/// What a simulated exit waits for.
#[derive(Debug, Clone, Copy, PartialEq, Eq, Structural)]
pub enum ShadowPhase {
    /// The order that takes liquidity reaches the exchange.
    Taker,
    /// The resting order reaches the exchange.
    Activation,
    /// Trades fill the resting order.
    Maker,
    /// The cancellation takes effect.
    Cancel,
    /// The order for the rest reaches the exchange, at this moment.
    Fallback(u64),
    /// The result is there.
    Done,
}

/// A simulated exit by one policy.
#[derive(Debug, Clone, Copy)]
pub struct PolicyRun {
    pub config: ShadowConfig,
    pub request: ShadowExitRequest,
    pub result: ShadowPolicyResult,
    pub phase: ShadowPhase,
    pub limit_price: Binary64,
    pub queue_ahead: Binary64,
    pub traded_at_or_above: Binary64,
}

impl PolicyRun {
    /// The moments of the run.
    pub open spec fn times(self) -> ShadowPolicyTimeline {
        timeline_of(self.request.decision_ms, self.config)
    }

    pub open spec fn active_ms(self) -> u64 {
        self.times().maker_active_ms->0
    }

    pub open spec fn timeout_ms(self) -> u64 {
        self.times().maker_timeout_ms->0
    }

    pub open spec fn started(
        config: ShadowConfig,
        request: ShadowExitRequest,
        policy: ShadowPolicy,
    ) -> Self {
        let rest = rests(policy, request.exit_reason@);
        PolicyRun {
            config,
            request,
            result: if rest {
                ShadowPolicyResult {
                    timeline: timeline_of(request.decision_ms, config),
                    ..ShadowPolicyResult::blank(policy.label())
                }
            } else {
                ShadowPolicyResult::blank(policy.label())
            },
            phase: if rest {
                ShadowPhase::Activation
            } else {
                ShadowPhase::Taker
            },
            limit_price: of_nat(0),
            queue_ahead: of_nat(0),
            traded_at_or_above: of_nat(0),
        }
    }

    /// The run, over for lack of data.
    pub open spec fn given_up(self, reason: &'static str) -> Self {
        PolicyRun { result: self.result.undecided(reason), phase: ShadowPhase::Done, ..self }
    }

    /// One tick above the bid, at most 0.99.
    pub open spec fn limit_over(bid: Binary64) -> Binary64 {
        five_places(lesser(plus(bid, ratio(1, 100)), ratio(99, 100)))
    }

    /// How the queue before the order compares with the order.
    pub open spec fn queue_ratio(queue: Binary64, shares: Binary64) -> Binary64 {
        if less(of_nat(0), shares) {
            over(queue, shares)
        } else {
            crate::binary64::model::encode(false, INFINITE as nat)
        }
    }

    /// The run once the resting order has reached the exchange with these books: it rests, or it
    /// would have matched at once, or the queue before it is too long.
    pub open spec fn activated(self, book: BookSnapshot, depth: MarketLevels) -> Self {
        let top = book_of(book, self.request.side);
        if stale(book.received_at_ms, self.active_ms()) || top.bid is None {
            self.given_up("missing_taker_active_book")
        } else {
            let limit = Self::limit_over(top.bid->0);
            if top.ask is Some && at_most(top.ask->0, plus(limit, tolerance())) {
                PolicyRun {
                    result: ShadowPolicyResult {
                        limit_price: Some(limit),
                        outcome: ShadowOutcome::PostOnlyRejected,
                        selection_reason: "post_only_rejected",
                        ..self.result
                    },
                    phase: ShadowPhase::Fallback(self.times().fallback_taker_active_ms->0),
                    limit_price: limit,
                    ..self
                }
            } else {
                let queue = size_up_to(
                    asks_of(depth, self.request.side),
                    plus(limit, tolerance()),
                );
                let queue_ratio = Self::queue_ratio(queue, self.request.shares);
                let measured = ShadowPolicyResult {
                    limit_price: Some(limit),
                    queue_snapshot_ms: Some(depth.received_at_ms),
                    queue_ahead: Some(five_places(queue)),
                    queue_ratio: Some(five_places(queue_ratio)),
                    ..self.result
                };
                if less(self.config.shadow_queue_ratio_threshold, queue_ratio) {
                    PolicyRun {
                        result: ShadowPolicyResult {
                            selection_reason: "queue_ratio_above_threshold",
                            outcome: ShadowOutcome::TakerBypass,
                            ..measured
                        },
                        phase: ShadowPhase::Fallback(self.active_ms()),
                        limit_price: limit,
                        queue_ahead: queue,
                        ..self
                    }
                } else {
                    PolicyRun {
                        result: ShadowPolicyResult {
                            selected_for_maker: true,
                            selection_reason: "queue_ratio_within_threshold",
                            state: ShadowState::MakerResting,
                            ..measured
                        },
                        phase: ShadowPhase::Maker,
                        limit_price: limit,
                        queue_ahead: queue,
                        traded_at_or_above: of_nat(0),
                        ..self
                    }
                }
            }
        }
    }

    /// The shares that are filled once `traded` has gone by: what is beyond the queue, at most
    /// the whole order.
    pub open spec fn filled_by(self, traded: Binary64) -> Binary64 {
        lesser(greater(minus(traded, self.queue_ahead), of_nat(0)), self.request.shares)
    }

    /// The run after a trade, while the order rests.
    pub open spec fn after_trade(self, trade: TradePrint) -> Self {
        if !fills(
            trade,
            self.request.side,
            self.limit_price,
            self.active_ms(),
            self.timeout_ms(),
        ) {
            self
        } else {
            let traded = plus(self.traded_at_or_above, trade.size);
            let filled = self.filled_by(traded);
            let counted = ShadowPolicyResult {
                maker_filled_shares: five_places(filled),
                maker_fill_vwap: if less(of_nat(0), filled) {
                    Some(self.limit_price)
                } else {
                    self.result.maker_fill_vwap
                },
                ..self.result
            };
            if at_most(self.request.shares, plus(filled, tolerance())) {
                PolicyRun {
                    traded_at_or_above: traded,
                    phase: ShadowPhase::Done,
                    result: ShadowPolicyResult {
                        outcome: ShadowOutcome::FullFillTradeSupported,
                        state: ShadowState::Completed,
                        pnl: pnl_of(
                            self.request.entry_price,
                            self.request.shares,
                            self.request.shares,
                            self.limit_price,
                            of_nat(0),
                            of_nat(0),
                        ),
                        decision_to_completion_ms: Some(
                            age(trade.received_at_ms, self.request.decision_ms),
                        ),
                        maker_active_to_completion_ms: Some(
                            age(trade.received_at_ms, self.active_ms()),
                        ),
                        ..counted
                    },
                    ..self
                }
            } else {
                PolicyRun { traded_at_or_above: traded, result: counted, ..self }
            }
        }
    }

    /// The moment that the run waits for.
    pub open spec fn deadline(self) -> Option<u64> {
        match self.phase {
            ShadowPhase::Taker => Some(self.active_ms()),
            ShadowPhase::Activation => Some(self.active_ms()),
            ShadowPhase::Maker => Some(self.timeout_ms()),
            ShadowPhase::Cancel => self.times().cancel_effective_ms,
            ShadowPhase::Fallback(ms) => Some(ms),
            ShadowPhase::Done => None,
        }
    }

    /// The run once the moment that it waits for has come, with the books of that moment.
    pub open spec fn after_deadline(self, book: BookSnapshot, depth: MarketLevels) -> Self {
        match self.phase {
            ShadowPhase::Taker => PolicyRun {
                result: taken(self.request, self.result.policy, self.active_ms(), depth, book),
                phase: ShadowPhase::Done,
                ..self
            },
            ShadowPhase::Activation => self.activated(book, depth),
            ShadowPhase::Maker => PolicyRun {
                result: ShadowPolicyResult { state: ShadowState::CancelPending, ..self.result },
                phase: ShadowPhase::Cancel,
                ..self
            },
            ShadowPhase::Cancel => PolicyRun {
                phase: ShadowPhase::Fallback(self.times().fallback_taker_active_ms->0),
                ..self
            },
            ShadowPhase::Fallback(ms) => PolicyRun {
                result: fallen_back(
                    ShadowPolicyResult { state: ShadowState::FallbackTakerPending, ..self.result },
                    self.request,
                    ms,
                    depth,
                    book,
                ),
                phase: ShadowPhase::Done,
                ..self
            },
            ShadowPhase::Done => self,
        }
    }

    fn timeline(&self) -> (r: (u64, u64, u64, u64))
        ensures
            r == (
                self.active_ms(),
                self.timeout_ms(),
                self.times().cancel_effective_ms->0,
                self.times().fallback_taker_active_ms->0,
            ),
    {
        let active: u64 = after_ms(
            self.request.decision_ms,
            self.config.shadow_execution_latency_ms,
        );
        let timeout: u64 = after_ms(active, self.config.shadow_maker_wait_ms);
        let cancel: u64 = after_ms(timeout, self.config.shadow_cancel_latency_ms);
        (active, timeout, cancel, after_ms(cancel, self.config.shadow_fallback_taker_latency_ms))
    }

    /// Begins to simulate an exit by a policy.
    pub fn start(config: ShadowConfig, request: ShadowExitRequest, policy: ShadowPolicy) -> (r:
        Self)
        ensures
            r == Self::started(config, request, policy),
    {
        let zero: Binary64 = Binary64::from_u64(0);
        let rest: bool = policy_uses_maker(policy, request.exit_reason);
        let mut run: PolicyRun = PolicyRun {
            config,
            request,
            result: ShadowPolicyResult::new(policy.as_str()),
            phase: ShadowPhase::Taker,
            limit_price: zero,
            queue_ahead: zero,
            traded_at_or_above: zero,
        };
        if rest {
            let (active, timeout, cancel, fallback) = run.timeline();
            run.result.timeline =
            ShadowPolicyTimeline {
                maker_active_ms: Some(active),
                maker_timeout_ms: Some(timeout),
                cancel_effective_ms: Some(cancel),
                fallback_taker_active_ms: Some(fallback),
            };
            run.phase = ShadowPhase::Activation;
        }
        run
    }

    /// The moment that the run waits for; none once its result is there.
    pub fn wait_until(&self) -> (r: Option<u64>)
        ensures
            r == self.deadline(),
    {
        let (active, timeout, cancel, _) = self.timeline();
        match self.phase {
            ShadowPhase::Taker => Some(active),
            ShadowPhase::Activation => Some(active),
            ShadowPhase::Maker => Some(timeout),
            ShadowPhase::Cancel => Some(cancel),
            ShadowPhase::Fallback(ms) => Some(ms),
            ShadowPhase::Done => None,
        }
    }

    fn give_up(&mut self, reason: &'static str)
        ensures
            *final(self) == old(self).given_up(reason),
    {
        self.result.set_undecided(reason);
        self.phase = ShadowPhase::Done;
    }

    fn activate(&mut self, book: BookSnapshot, depth: &DepthSnapshot)
        ensures
            *final(self) == old(self).activated(book, depth@),
    {
        let (active, _, _, fallback) = self.timeline();
        if stale_at(book.received_at_ms, active) {
            self.give_up("missing_taker_active_book");
            return ;
        }
        let top = outcome_book(book, self.request.side);
        let best_bid: Binary64 = match top.bid {
            Some(bid) => bid,
            None => {
                self.give_up("missing_taker_active_book");
                return ;
            },
        };
        let limit_price: Binary64 = round_5(
            best_bid.add(Binary64::from_ratio(1, 100)).min(Binary64::from_ratio(99, 100)),
        );
        self.limit_price = limit_price;
        self.result.limit_price = Some(limit_price);
        if let Some(ask) = top.ask {
            if ask.le(limit_price.add(small())) {
                self.result.outcome = ShadowOutcome::PostOnlyRejected;
                self.result.selection_reason = "post_only_rejected";
                self.phase = ShadowPhase::Fallback(fallback);
                return ;
            }
        }
        let queue_ahead: Binary64 = match self.request.side {
            OrderSide::BuyYes => ask_queue_ahead(&depth.yes, limit_price),
            OrderSide::BuyNo => ask_queue_ahead(&depth.no, limit_price),
        };
        let queue_ratio: Binary64 = if Binary64::from_u64(0).lt(self.request.shares) {
            queue_ahead.div(self.request.shares)
        } else {
            Binary64::infinity()
        };
        self.queue_ahead = queue_ahead;
        self.result.queue_snapshot_ms = Some(depth.received_at_ms);
        self.result.queue_ahead = Some(round_5(queue_ahead));
        self.result.queue_ratio = Some(round_5(queue_ratio));
        if self.config.shadow_queue_ratio_threshold.lt(queue_ratio) {
            self.result.selection_reason = "queue_ratio_above_threshold";
            self.result.outcome = ShadowOutcome::TakerBypass;
            self.phase = ShadowPhase::Fallback(active);
            return ;
        }
        self.result.selected_for_maker = true;
        self.result.selection_reason = "queue_ratio_within_threshold";
        self.result.state = ShadowState::MakerResting;
        self.traded_at_or_above = Binary64::from_u64(0);
        self.phase = ShadowPhase::Maker;
    }

    /// Goes on once the moment that the run waits for has come.
    pub fn deadline_reached(&mut self, book: BookSnapshot, depth: &DepthSnapshot)
        ensures
            *final(self) == old(self).after_deadline(book, depth@),
    {
        let (active, _, _, fallback) = self.timeline();
        match self.phase {
            ShadowPhase::Taker => {
                let engine: ShadowExitEngine = ShadowExitEngine { config: self.config };
                self.result =
                engine.simulate_taker(&self.request, self.result.policy, depth, book);
                self.phase = ShadowPhase::Done;
            },
            ShadowPhase::Activation => self.activate(book, depth),
            ShadowPhase::Maker => {
                self.result.state = ShadowState::CancelPending;
                self.phase = ShadowPhase::Cancel;
            },
            ShadowPhase::Cancel => {
                self.phase = ShadowPhase::Fallback(fallback);
            },
            ShadowPhase::Fallback(ms) => {
                self.complete_fallback_taker(ms, book, depth);
            },
            ShadowPhase::Done => {},
        }
    }

    /// Takes a trade in, while the order rests.
    pub fn trade(&mut self, trade: TradePrint)
        ensures
            *final(self) == if old(self).phase == ShadowPhase::Maker {
                old(self).after_trade(trade)
            } else {
                *old(self)
            },
    {
        if self.phase != ShadowPhase::Maker {
            return ;
        }
        let (active, timeout, _, _) = self.timeline();
        if !trade_supports_sell_fill(
            trade,
            self.request.side,
            self.limit_price,
            active,
            timeout,
        ) {
            return ;
        }
        let zero: Binary64 = Binary64::from_u64(0);
        self.traded_at_or_above = self.traded_at_or_above.add(trade.size);
        let filled: Binary64 = self.traded_at_or_above.sub(self.queue_ahead).max(zero).min(
            self.request.shares,
        );
        self.result.maker_filled_shares = round_5(filled);
        if zero.lt(filled) {
            self.result.maker_fill_vwap = Some(self.limit_price);
        }
        if self.request.shares.le(filled.add(small())) {
            self.result.outcome = ShadowOutcome::FullFillTradeSupported;
            self.result.state = ShadowState::Completed;
            self.result.pnl =
            pnl(
                self.request.entry_price,
                self.request.shares,
                self.request.shares,
                self.limit_price,
                zero,
                zero,
            );
            self.result.decision_to_completion_ms =
            Some(trade.received_at_ms.saturating_sub(self.request.decision_ms));
            self.result.maker_active_to_completion_ms =
            Some(trade.received_at_ms.saturating_sub(active));
            self.phase = ShadowPhase::Done;
        }
    }

    /// The trades ended, or some were missed, while the order rested.
    pub fn trades_lost(&mut self, closed: bool)
        ensures
            *final(self) == if old(self).phase == ShadowPhase::Maker {
                old(self).given_up(
                    if closed {
                        "trade_stream_closed"
                    } else {
                        "trade_stream_lagged"
                    },
                )
            } else {
                *old(self)
            },
    {
        if self.phase == ShadowPhase::Maker {
            self.give_up(
                if closed {
                    "trade_stream_closed"
                } else {
                    "trade_stream_lagged"
                },
            );
        }
    }

    fn complete_fallback_taker(&mut self, active_ms: u64, book: BookSnapshot, depth: &DepthSnapshot)
        ensures
            *final(self) == (PolicyRun {
                result: fallen_back(
                    ShadowPolicyResult {
                        state: ShadowState::FallbackTakerPending,
                        ..old(self).result
                    },
                    old(self).request,
                    active_ms,
                    depth@,
                    book,
                ),
                phase: ShadowPhase::Done,
                ..*old(self)
            }),
    {
        let zero: Binary64 = Binary64::from_u64(0);
        let remaining: Binary64 = self.request.shares.sub(self.result.maker_filled_shares).max(zero);
        self.phase = ShadowPhase::Done;
        self.result.state = ShadowState::FallbackTakerPending;
        match executable_bid_vwap(depth, book, self.request.side, remaining, active_ms) {
            Ok(vwap) => {
                self.result.fallback_taker_vwap = Some(round_5(vwap));
                self.result.fallback_taker_shares = round_5(remaining);
                self.result.outcome =
                if zero.lt(self.result.maker_filled_shares) {
                    ShadowOutcome::PartialFillTradeSupported
                } else if self.result.selected_for_maker {
                    ShadowOutcome::ZeroFillTimeoutFallback
                } else if self.result.outcome == ShadowOutcome::PostOnlyRejected {
                    ShadowOutcome::PostOnlyRejected
                } else {
                    ShadowOutcome::TakerBypass
                };
                self.result.state = ShadowState::Completed;
                let maker_price: Binary64 = match self.result.maker_fill_vwap {
                    Some(p) => p,
                    None => zero,
                };
                self.result.pnl =
                pnl(
                    self.request.entry_price,
                    self.request.shares,
                    self.result.maker_filled_shares,
                    maker_price,
                    remaining,
                    vwap,
                );
                self.result.decision_to_completion_ms =
                Some(active_ms.saturating_sub(self.request.decision_ms));
                self.result.maker_active_to_completion_ms =
                match self.result.timeline.maker_active_ms {
                    Some(ms) => Some(active_ms.saturating_sub(ms)),
                    None => None,
                };
            },
            Err(reason) => {
                self.result.set_undecided(reason);
            },
        }
    }
}

// ---------------------------------------------------------------------------------------------
// Laws.

/// Sorting keeps every level and orders them from the highest price down.
pub proof fn law_ranked(levels: Seq<DepthLevel>)
    ensures
        ranked(levels).to_multiset() =~= levels.to_multiset(),
        ranked(levels).len() == levels.len(),
        forall|i: int, j: int|
            0 <= i <= j < ranked(levels).len() ==> total_position(
                (#[trigger] ranked(levels)[j]).price,
            ) <= total_position((#[trigger] ranked(levels)[i]).price),
    decreases levels.len(),
{
    if levels.len() == 0 {
        assert(levels =~= Seq::empty());
    } else {
        let rest = ranked(levels.drop_last());
        let last = levels.last();
        law_ranked(levels.drop_last());
        lemma_rank_in(rest, last, 0);
        let k = rank_in(rest, last, 0);
        let s = ranked(levels);
        vstd::seq_lib::to_multiset_insert(rest, k, last);
        vstd::seq_lib::to_multiset_build(levels.drop_last(), last);
        assert(levels =~= levels.drop_last().push(last));
        assert forall|i: int, j: int| 0 <= i <= j < s.len() implies total_position(
            (#[trigger] s[j]).price,
        ) <= total_position((#[trigger] s[i]).price) by {
            let a = if i < k {
                i
            } else {
                i - 1
            };
            let b = if j < k {
                j
            } else {
                j - 1
            };
            assert(i != k ==> s[i] == rest[a]);
            assert(j != k ==> s[j] == rest[b]);
            if i != k && j != k {
                assert(total_position(rest[b].price) <= total_position(rest[a].price));
            } else if i == k && j != k {
                assert(total_position(rest[b].price) <= total_position(rest[k].price));
            } else if i != k && j == k {
                assert(!(total_position(rest[a].price) < total_position(last.price)));
            }
        }
    }
}

proof fn lemma_rank_in(sorted: Seq<DepthLevel>, level: DepthLevel, i: int)
    requires
        0 <= i <= sorted.len(),
    ensures
        i <= rank_in(sorted, level, i) <= sorted.len(),
        rank_in(sorted, level, i) < sorted.len() ==> total_position(
            sorted[rank_in(sorted, level, i)].price,
        ) < total_position(level.price),
        forall|j: int|
            i <= j < rank_in(sorted, level, i) ==> total_position((#[trigger] sorted[j]).price)
                >= total_position(level.price),
    decreases sorted.len() - i,
{
    if i < sorted.len() && !(total_position(sorted[i].price) < total_position(level.price)) {
        lemma_rank_in(sorted, level, i + 1);
    }
}

/// The moments of a resting order come in order.
pub proof fn law_timeline(decision_ms: u64, config: ShadowConfig)
    ensures
        ({
            let t = timeline_of(decision_ms, config);
            decision_ms <= t.maker_active_ms->0 <= t.maker_timeout_ms->0
                <= t.cancel_effective_ms->0 <= t.fallback_taker_active_ms->0
        }),
{
}

/// How many moments a run waits for at most before its result is there.
pub open spec fn moments_left(phase: ShadowPhase) -> nat {
    match phase {
        ShadowPhase::Activation => 4,
        ShadowPhase::Maker => 3,
        ShadowPhase::Cancel => 2,
        ShadowPhase::Fallback(_) => 1,
        ShadowPhase::Taker => 1,
        ShadowPhase::Done => 0,
    }
}

/// Every run ends: each moment that it waits for leaves fewer to wait for, whatever the books.
pub proof fn law_run_ends(run: PolicyRun, book: BookSnapshot, depth: MarketLevels)
    requires
        run.phase != ShadowPhase::Done,
    ensures
        moments_left(run.after_deadline(book, depth).phase) < moments_left(run.phase),
{
}

/// A result is there, or it says that data was missing.
pub open spec fn settled(result: ShadowPolicyResult) -> bool {
    ||| result.state == ShadowState::Completed
    ||| result.state == ShadowState::InsufficientData && result.outcome
        == ShadowOutcome::InsufficientFutureData
}

/// A run that is over has a result or says what was missing, whether a moment that it waited for,
/// a trade or the loss of the trades has ended it.
pub proof fn law_run_result(
    run: PolicyRun,
    book: BookSnapshot,
    depth: MarketLevels,
    trade: TradePrint,
    reason: &'static str,
)
    requires
        run.phase != ShadowPhase::Done,
    ensures
        run.after_deadline(book, depth).phase == ShadowPhase::Done ==> settled(
            run.after_deadline(book, depth).result,
        ),
        run.after_trade(trade).phase == ShadowPhase::Done ==> settled(
            run.after_trade(trade).result,
        ),
        run.given_up(reason).phase == ShadowPhase::Done && settled(run.given_up(reason).result),
{
}

/// However much is traded, the shares that count as filled are at most the order's.
pub proof fn law_fills_are_bounded(run: PolicyRun, traded: Binary64)
    requires
        !run.request.shares.nan(),
    ensures
        at_most(run.filled_by(traded), run.request.shares),
{
    reveal(at_most);
}

/// The profit accounts for a position of `shares` that was sold in two parts: `rested` shares by the
/// resting order and `taken_now` at once, each at its price, and for nothing else.
pub open spec fn accounts_for(
    pnl: ShadowPnl,
    entry_price: Binary64,
    shares: Binary64,
    rested: Binary64,
    rested_price: Binary64,
    taken_now: Binary64,
    taken_price: Binary64,
) -> bool {
    &&& pnl.entry_notional == five_places(times(entry_price, shares))
    &&& pnl.entry_fee == fee_of(shares, entry_price)
    &&& pnl.maker_exit_notional == five_places(times(rested, rested_price))
    &&& pnl.maker_exit_fee == fee_of(rested, rested_price)
    &&& pnl.fallback_exit_notional == five_places(times(taken_now, taken_price))
    &&& pnl.fallback_exit_fee == fee_of(taken_now, taken_price)
    &&& pnl.total_exit_notional == five_places(
        plus(pnl.maker_exit_notional, pnl.fallback_exit_notional),
    )
    &&& pnl.total_exit_fee == five_places(plus(pnl.maker_exit_fee, pnl.fallback_exit_fee))
    &&& pnl.net_pnl == five_places(
        minus(
            minus(minus(pnl.total_exit_notional, pnl.entry_notional), pnl.entry_fee),
            pnl.total_exit_fee,
        ),
    )
}

/// Where the rest of an order is sold at once, the profit accounts for the shares that the result
/// reports: those that the resting order filled, at its fill price, and those that it left, at the
/// reported average; what it left is the position less what it filled.
pub proof fn law_fallback_profit(
    run: PolicyRun,
    active_ms: u64,
    book: BookSnapshot,
    depth: MarketLevels,
)
    requires
        run.phase == ShadowPhase::Fallback(active_ms),
    ensures
        ({
            let r = run.after_deadline(book, depth).result;
            let left = minus(run.request.shares, r.maker_filled_shares);
            let rest = if at_most(of_nat(0), left) {
                left
            } else {
                of_nat(0)
            };
            &&& r.maker_filled_shares == run.result.maker_filled_shares
            &&& r.maker_fill_vwap == run.result.maker_fill_vwap
            &&& r.state == ShadowState::Completed || r.state == ShadowState::InsufficientData
            &&& !left.nan() && r.state == ShadowState::Completed ==> exists|price: Binary64|
                {
                    &&& r.fallback_taker_vwap == Some(#[trigger] five_places(price))
                    &&& r.fallback_taker_shares == five_places(rest)
                    &&& accounts_for(
                        r.pnl,
                        run.request.entry_price,
                        run.request.shares,
                        r.maker_filled_shares,
                        match r.maker_fill_vwap {
                            Some(p) => p,
                            None => of_nat(0),
                        },
                        rest,
                        price,
                    )
                }
        }),
{
    reveal(at_most);
    lemma_of_nat_zero();
    let remaining = greater(
        minus(run.request.shares, run.result.maker_filled_shares),
        of_nat(0),
    );
    if let Ok(price) = bid_vwap(depth, book, run.request.side, remaining, active_ms) {
        assert(five_places(price) == five_places(price));
    }
}

/// The shares that a resting order filled and those that are sold at once add up to the position's
/// shares, but for half of a unit `pow2(g)`, where those lie below two to the 53rd power of such
/// units.
pub proof fn law_sales_add_up(
    run: PolicyRun,
    active_ms: u64,
    book: BookSnapshot,
    depth: MarketLevels,
    g: nat,
)
    requires
        run.phase == ShadowPhase::Fallback(active_ms),
        run.request.shares.finite(),
        run.request.shares.scaled() < 2 * HIDDEN * pow2(g),
        g <= 2000,
        at_most(of_nat(0), run.result.maker_filled_shares),
        at_most(run.result.maker_filled_shares, run.request.shares),
    ensures
        ({
            let r = run.after_deadline(book, depth).result;
            r.state == ShadowState::Completed ==> exists|rest: Binary64|
                {
                    &&& r.fallback_taker_shares == #[trigger] five_places(rest)
                    &&& 2 * apart(
                        r.maker_filled_shares.scaled() + rest.scaled(),
                        run.request.shares.scaled(),
                    ) <= pow2(g)
                }
        }),
{
    reveal(at_most);
    lemma_of_nat_zero();
    let shares = run.request.shares;
    let filled = run.result.maker_filled_shares;
    lemma_lesser_is_finite(filled, shares);
    lemma_difference_is_close(shares, filled, g);
    let rest = greater(minus(shares, filled), of_nat(0));
    assert(rest == minus(shares, filled));
    assert(five_places(rest) == five_places(rest));
}

/// Where a position is sold at once, the profit accounts for all of its shares in that one sale.
pub proof fn law_taker_profit(
    request: ShadowExitRequest,
    policy: &'static str,
    active_ms: u64,
    depth: MarketLevels,
    book: BookSnapshot,
)
    ensures
        ({
            let r = taken(request, policy, active_ms, depth, book);
            &&& r.policy == policy
            &&& r.maker_filled_shares == of_nat(0)
            &&& r.maker_fill_vwap is None
            &&& r.state == ShadowState::Completed || r.state == ShadowState::InsufficientData
            &&& r.state == ShadowState::Completed <==> bid_vwap(
                depth,
                book,
                request.side,
                request.shares,
                active_ms,
            ) is Ok
            &&& bid_vwap(depth, book, request.side, request.shares, active_ms) matches Ok(price)
                ==> {
                &&& r.fallback_taker_vwap == Some(five_places(price))
                &&& r.fallback_taker_shares == five_places(request.shares)
                &&& accounts_for(
                    r.pnl,
                    request.entry_price,
                    request.shares,
                    of_nat(0),
                    of_nat(0),
                    request.shares,
                    price,
                )
                &&& r.outcome == ShadowOutcome::TakerBypass
            }
        }),
{
}

/// Where a resting order is filled whole, the profit accounts for all of its shares at its limit.
pub proof fn law_maker_profit(run: PolicyRun, trade: TradePrint)
    requires
        run.phase == ShadowPhase::Maker,
        run.after_trade(trade).phase == ShadowPhase::Done,
    ensures
        ({
            let r = run.after_trade(trade).result;
            &&& r.state == ShadowState::Completed
            &&& r.outcome == ShadowOutcome::FullFillTradeSupported
            &&& accounts_for(
                r.pnl,
                run.request.entry_price,
                run.request.shares,
                run.request.shares,
                run.limit_price,
                of_nat(0),
                of_nat(0),
            )
            &&& r.fallback_taker_shares == run.result.fallback_taker_shares
        }),
{
}

/// Someone bought the outcome that the position holds, at the limit or above but for 0.00001, while
/// the order was resting.
pub open spec fn supports(
    trade: TradePrint,
    side: OrderSide,
    limit: Binary64,
    from_ms: u64,
    to_ms: u64,
) -> bool {
    &&& side == OrderSide::BuyYes ==> trade.is_yes
    &&& side == OrderSide::BuyNo ==> !trade.is_yes
    &&& trade.side != TradeSide::Sell
    &&& at_most(limit, plus(trade.price, ratio(1, 100_000)))
    &&& from_ms <= trade.received_at_ms
    &&& trade.received_at_ms <= to_ms
}

impl PolicyRun {
    /// The run after the trades, one after another, as far as its order rests.
    pub open spec fn traded(self, trades: Seq<TradePrint>) -> Self
        decreases trades.len(),
    {
        if trades.len() == 0 {
            self
        } else {
            let before = self.traded(trades.drop_last());
            if before.phase == ShadowPhase::Maker {
                before.after_trade(trades.last())
            } else {
                before
            }
        }
    }
}

/// The sizes of the trades that support a fill, added up as they came in.
pub open spec fn supporting_volume(run: PolicyRun, trades: Seq<TradePrint>) -> Binary64 {
    trades.filter(
        |trade: TradePrint|
            supports(trade, run.request.side, run.limit_price, run.active_ms(), run.timeout_ms()),
    ).fold_left(
        of_nat(0),
        |sum: Binary64, trade: TradePrint| plus(sum, trade.size),
    )
}

/// While an order rests, it is filled by what has traded in its support beyond the queue that stood
/// before it, and by no more than it offers; a trade that does not support it changes nothing.
pub proof fn law_fills_behind_queue(run: PolicyRun, trades: Seq<TradePrint>)
    requires
        run.phase == ShadowPhase::Maker,
        run.traded_at_or_above == of_nat(0),
        run.result.maker_filled_shares == of_nat(0),
        run.result.maker_fill_vwap is None,
        run.traded(trades).phase == ShadowPhase::Maker,
    ensures
        ({
            let next = run.traded(trades);
            let volume = supporting_volume(run, trades);
            let beyond = minus(volume, run.queue_ahead);
            let any = exists|i: int|
                0 <= i < trades.len() && supports(
                    #[trigger] trades[i],
                    run.request.side,
                    run.limit_price,
                    run.active_ms(),
                    run.timeout_ms(),
                );
            &&& next.traded_at_or_above == volume
            &&& !any ==> next == run
            &&& any ==> next.result.maker_filled_shares == five_places(
                lesser(greater(beyond, of_nat(0)), run.request.shares),
            )
            &&& next.result.maker_fill_vwap is None || next.result.maker_fill_vwap == Some(
                run.limit_price,
            )
            &&& any && less(of_nat(0), lesser(greater(beyond, of_nat(0)), run.request.shares))
                ==> next.result.maker_fill_vwap == Some(run.limit_price)
            &&& next.request == run.request
            &&& next.config == run.config
            &&& next.limit_price == run.limit_price
            &&& next.queue_ahead == run.queue_ahead
        }),
    decreases trades.len(),
{
    reveal(Seq::filter);
    let supported = |trade: TradePrint|
        supports(trade, run.request.side, run.limit_price, run.active_ms(), run.timeout_ms());
    let sum = |sum: Binary64, trade: TradePrint| plus(sum, trade.size);
    if trades.len() == 0 {
        assert(!exists|i: int| 0 <= i < trades.len() && supports(
            #[trigger] trades[i],
            run.request.side,
            run.limit_price,
            run.active_ms(),
            run.timeout_ms(),
        ));
    } else {
        let rest = trades.drop_last();
        let last = trades.last();
        law_fills_behind_queue(run, rest);
        assert(trades[trades.len() - 1] == last);
        assert forall|i: int| 0 <= i < rest.len() implies rest[i] == #[trigger] trades[i] by {}
        if supported(last) {
            let kept = rest.filter(supported);
            assert(kept.push(last).drop_last() == kept);
            reveal_with_fuel(Seq::fold_left, 2);
        }
        assert(supported(last) == fills(
            last,
            run.request.side,
            run.limit_price,
            run.active_ms(),
            run.timeout_ms(),
        ));
        if exists|i: int| 0 <= i < rest.len() && supported(#[trigger] rest[i]) {
            let i = choose|i: int| 0 <= i < rest.len() && supported(#[trigger] rest[i]);
            assert(supports(
                trades[i],
                run.request.side,
                run.limit_price,
                run.active_ms(),
                run.timeout_ms(),
            ));
        }
    }
}

/// No more trade than the queue before an order, no fill.
pub proof fn law_queue_goes_first(run: PolicyRun, volume: Binary64)
    requires
        volume.finite(),
        run.queue_ahead.finite(),
        at_most(volume, run.queue_ahead),
        !run.request.shares.nan(),
    ensures
        !less(of_nat(0), run.filled_by(volume)),
{
    reveal(at_most);
    reveal(less);
    lemma_of_nat_zero();
    lemma_difference_sign(volume, run.queue_ahead);
}

/// An order rests one tick above the bid of the outcome that is held, at most at 0.99, unless that
/// outcome's ask would meet it; it rests behind the asks up to its limit, unless they are too
/// many for its size.
pub proof fn law_resting_order(run: PolicyRun, book: BookSnapshot, depth: MarketLevels)
    requires
        run.phase == ShadowPhase::Activation,
    ensures
        ({
            let next = run.after_deadline(book, depth);
            let own = if run.request.side == OrderSide::BuyNo {
                book.no
            } else {
                book.yes
            };
            let asks = if run.request.side == OrderSide::BuyNo {
                depth.no.asks
            } else {
                depth.yes.asks
            };
            let active = run.active_ms();
            let fresh = book.received_at_ms != 0 && active <= book.received_at_ms + 1_000;
            let limit = five_places(lesser(plus(own.bid->0, ratio(1, 100)), ratio(99, 100)));
            let reach = plus(limit, ratio(1, 100_000));
            let queue = size_up_to(asks, reach);
            let met = own.ask is Some && at_most(own.ask->0, reach);
            let long = if less(of_nat(0), run.request.shares) {
                less(run.config.shadow_queue_ratio_threshold, over(queue, run.request.shares))
            } else {
                next.phase != ShadowPhase::Maker
            };
            &&& !fresh || own.bid is None ==> {
                &&& next.phase == ShadowPhase::Done
                &&& next.result.state == ShadowState::InsufficientData
            }
            &&& fresh && own.bid is Some ==> {
                &&& next.limit_price == limit
                &&& next.result.limit_price == Some(limit)
                &&& met ==> next.result.outcome == ShadowOutcome::PostOnlyRejected
                    && next.phase == ShadowPhase::Fallback(
                    run.times().fallback_taker_active_ms->0,
                ) && next.result.selected_for_maker == run.result.selected_for_maker
                &&& !met ==> next.queue_ahead == queue && next.result.queue_ahead == Some(
                    five_places(queue),
                ) && next.result.queue_snapshot_ms == Some(depth.received_at_ms)
                &&& !met && long ==> next.phase == ShadowPhase::Fallback(active)
                    && next.result.selected_for_maker == run.result.selected_for_maker
                    && next.result.outcome == ShadowOutcome::TakerBypass
                &&& !met && !long ==> next.phase == ShadowPhase::Maker
                    && next.result.selected_for_maker && next.traded_at_or_above == of_nat(0)
                    && next.result.state == ShadowState::MakerResting
            }
            &&& next.result.maker_filled_shares == run.result.maker_filled_shares
            &&& next.result.maker_fill_vwap == run.result.maker_fill_vwap
            &&& next.request == run.request
            &&& next.config == run.config
        }),
{
}

/// A run begins with an order that rests where its policy rests one, and else with one that takes
/// liquidity: the one policy rests on a profit that turned, the other on any price that turned.
pub proof fn law_policy_begins(config: ShadowConfig, request: ShadowExitRequest)
    ensures
        PolicyRun::started(config, request, ShadowPolicy::PolicyE).phase == (
        if request.exit_reason@ == "profit_reversal"@ {
            ShadowPhase::Activation
        } else {
            ShadowPhase::Taker
        }),
        PolicyRun::started(config, request, ShadowPolicy::PolicyD).phase == (
        if request.exit_reason@ == "profit_reversal"@ || request.exit_reason@
            == "momentum_reversal"@ {
            ShadowPhase::Activation
        } else {
            ShadowPhase::Taker
        }),
        forall|policy: ShadowPolicy|
            {
                let run = #[trigger] PolicyRun::started(config, request, policy);
                &&& run.request == request
                &&& run.config == config
                &&& run.result.maker_filled_shares == of_nat(0)
                &&& run.result.maker_fill_vwap is None
                &&& run.traded_at_or_above == of_nat(0)
                &&& run.queue_ahead == of_nat(0)
                &&& run.limit_price == of_nat(0)
            },
{
}

/// The moments of a resting order follow one another by the delays that are set, as long as they
/// fit in 64 bits.
pub proof fn law_timeline_delays(decision_ms: u64, config: ShadowConfig)
    requires
        decision_ms + config.shadow_execution_latency_ms + config.shadow_maker_wait_ms
            + config.shadow_cancel_latency_ms + config.shadow_fallback_taker_latency_ms
            <= u64::MAX,
    ensures
        ({
            let t = timeline_of(decision_ms, config);
            &&& t.maker_active_ms == Some(
                (decision_ms + config.shadow_execution_latency_ms) as u64,
            )
            &&& t.maker_timeout_ms->0 - t.maker_active_ms->0 == config.shadow_maker_wait_ms
            &&& t.cancel_effective_ms->0 - t.maker_timeout_ms->0
                == config.shadow_cancel_latency_ms
            &&& t.fallback_taker_active_ms->0 - t.cancel_effective_ms->0
                == config.shadow_fallback_taker_latency_ms
        }),
{
}

/// An order that rests is cancelled at its timeout, and what it left is sold once the cancellation
/// and the next order have taken effect; waiting changes neither its fills nor its price.
pub proof fn law_cancel_then_fallback(run: PolicyRun, book: BookSnapshot, depth: MarketLevels)
    requires
        run.phase == ShadowPhase::Maker || run.phase == ShadowPhase::Cancel,
    ensures
        ({
            let t = timeline_of(run.request.decision_ms, run.config);
            let next = run.after_deadline(book, depth);
            &&& run.phase == ShadowPhase::Maker ==> run.deadline() == t.maker_timeout_ms
                && next.phase == ShadowPhase::Cancel
            &&& run.phase == ShadowPhase::Cancel ==> run.deadline() == t.cancel_effective_ms
                && next.phase == ShadowPhase::Fallback(t.fallback_taker_active_ms->0)
            &&& next.result.maker_filled_shares == run.result.maker_filled_shares
            &&& next.result.maker_fill_vwap == run.result.maker_fill_vwap
            &&& next.limit_price == run.limit_price
            &&& next.request == run.request
            &&& next.config == run.config
        }),
{
}

/// The bids of the outcome that a side holds.
pub open spec fn own_bids(depth: MarketLevels, side: OrderSide) -> Seq<DepthLevel> {
    if side == OrderSide::BuyNo {
        depth.no.bids
    } else {
        depth.yes.bids
    }
}

/// Shares that the highest bid of their outcome takes whole are sold at that bid, on books of the
/// last second.
pub proof fn law_best_bid_takes_first(
    depth: MarketLevels,
    book: BookSnapshot,
    side: OrderSide,
    shares: Binary64,
    active_ms: u64,
    i: int,
)
    requires
        book.received_at_ms != 0,
        depth.received_at_ms != 0,
        active_ms <= book.received_at_ms + 1_000,
        active_ms <= depth.received_at_ms + 1_000,
        shares.finite(),
        less(of_nat(0), shares),
        0 <= i < own_bids(depth, side).len(),
        forall|j: int|
            0 <= j < own_bids(depth, side).len() && j != i ==> total_position(
                (#[trigger] own_bids(depth, side)[j]).price,
            ) < total_position(own_bids(depth, side)[i].price),
        at_most(shares, own_bids(depth, side)[i].size),
    ensures
        bid_vwap(depth, book, side, shares, active_ms) == Ok::<Binary64, &'static str>(
            over(plus(of_nat(0), times(shares, own_bids(depth, side)[i].price)), shares),
        ),
{
    reveal(at_most);
    reveal(less);
    lemma_of_nat_zero();
    let bids = own_bids(depth, side);
    assert(bids == bids_of(depth, side));
    let sorted = ranked(bids);
    law_ranked(bids);
    lemma_highest_is_first(bids, i);
    lemma_difference_with_itself(shares);
    lemma_first_takes_all(sorted, sorted.len() as int, shares);
    lemma_small_is_above_zero();
}

/// Nothing is sold into a book that is older than a second or into an empty one.
pub proof fn law_nothing_to_sell_into(
    depth: MarketLevels,
    book: BookSnapshot,
    side: OrderSide,
    shares: Binary64,
    active_ms: u64,
)
    ensures
        book.received_at_ms == 0 || depth.received_at_ms == 0 || active_ms > book.received_at_ms
            + 1_000 || active_ms > depth.received_at_ms + 1_000 ==> bid_vwap(
            depth,
            book,
            side,
            shares,
            active_ms,
        ) is Err,
        own_bids(depth, side).len() == 0 && less(ratio(1, 100_000_000), shares) ==> bid_vwap(
            depth,
            book,
            side,
            shares,
            active_ms,
        ) is Err,
{
    reveal(at_most);
    reveal(less);
    lemma_of_nat_zero();
    lemma_small_is_above_zero();
    assert(own_bids(depth, side) == bids_of(depth, side));
    law_ranked(bids_of(depth, side));
}

proof fn lemma_small_is_above_zero()
    ensures
        !less(ratio(1, 100_000_000), of_nat(0)),
{
    reveal(less);
    reveal(at_most);
    lemma_of_nat_zero();
    reveal(over);
    crate::binary64::exact::lemma_whole_is_exact(1);
    crate::binary64::exact::lemma_whole_is_exact(100_000_000);
}

proof fn lemma_highest_is_first(bids: Seq<DepthLevel>, i: int)
    requires
        0 <= i < bids.len(),
        forall|j: int|
            0 <= j < bids.len() && j != i ==> total_position((#[trigger] bids[j]).price)
                < total_position(bids[i].price),
    ensures
        ranked(bids)[0] == bids[i],
{
    law_ranked(bids);
    let sorted = ranked(bids);
    broadcast use vstd::seq_lib::group_to_multiset_ensures;

    assert(bids.contains(bids[i]));
    assert(sorted.to_multiset().count(bids[i]) > 0);
    assert(sorted.contains(bids[i]));
    let k = choose|k: int| 0 <= k < sorted.len() && sorted[k] == bids[i];
    assert(total_position(sorted[k].price) <= total_position(sorted[0].price));
    assert(sorted.contains(sorted[0]));
    assert(bids.to_multiset().count(sorted[0]) > 0);
    assert(bids.contains(sorted[0]));
    let j = choose|j: int| 0 <= j < bids.len() && bids[j] == sorted[0];
    if j != i {
        assert(total_position(bids[j].price) < total_position(bids[i].price));
    }
}

proof fn lemma_first_takes_all(levels: Seq<DepthLevel>, n: int, shares: Binary64)
    requires
        1 <= n <= levels.len(),
        shares.finite(),
        less(of_nat(0), shares),
        at_most(shares, levels[0].size),
        minus(shares, shares) == of_nat(0),
    ensures
        sold_into(levels, n, shares) == (
            of_nat(0),
            plus(of_nat(0), times(shares, levels[0].price)),
        ),
    decreases n,
{
    reveal(at_most);
    reveal(less);
    lemma_of_nat_zero();
    if n > 1 {
        lemma_first_takes_all(levels, n - 1, shares);
    } else {
        assert(sold_into(levels, 0, shares) == (shares, of_nat(0)));
    }
}

/// A policy is held against the baseline: it did better by the difference of the two results, of
/// the prices less what was paid, and of the fees that it saved; its result flips the sign where
/// the baseline gains and it loses.
pub proof fn law_compared_policies(
    request: ShadowExitRequest,
    config: ShadowConfig,
    baseline: ShadowPolicyResult,
    policy_e: ShadowPolicyResult,
    policy_d: ShadowPolicyResult,
)
    ensures
        ({
            let r = record_of(request, config, baseline, policy_e, policy_d);
            &&& compares(r.policy_e, r.policy_e_diff_vs_baseline, policy_e.pnl, baseline.pnl)
            &&& compares(r.policy_d, r.policy_d_diff_vs_baseline, policy_d.pnl, baseline.pnl)
            &&& r.baseline.pnl == baseline.pnl
            &&& r.baseline.baseline_positive == less(of_nat(0), baseline.pnl.net_pnl)
            &&& r.baseline.policy_positive == less(of_nat(0), baseline.pnl.net_pnl)
            &&& r.position_id == request.position_id
            &&& r.entry_price == five_places(request.entry_price)
            &&& r.original_shares == five_places(request.shares)
            &&& r.entry_notional == five_places(times(request.entry_price, request.shares))
            &&& r.entry_fee == fee_of(request.shares, request.entry_price)
            &&& r.exit_reason == request.exit_reason
            &&& r.decision_ms == request.decision_ms
            &&& r.entry_ms == request.entry_ms
            &&& request.decision_ms + config.shadow_execution_latency_ms <= u64::MAX
                ==> r.baseline_taker_active_ms == request.decision_ms
                + config.shadow_execution_latency_ms
            &&& r.policy_e_maker_active_ms == policy_e.timeline.maker_active_ms
            &&& r.policy_e_maker_timeout_ms == policy_e.timeline.maker_timeout_ms
            &&& r.policy_e_cancel_effective_ms == policy_e.timeline.cancel_effective_ms
            &&& r.policy_e_fallback_taker_active_ms == policy_e.timeline.fallback_taker_active_ms
            &&& r.policy_d_maker_active_ms == policy_d.timeline.maker_active_ms
            &&& r.policy_d_maker_timeout_ms == policy_d.timeline.maker_timeout_ms
            &&& r.policy_d_cancel_effective_ms == policy_d.timeline.cancel_effective_ms
            &&& r.policy_d_fallback_taker_active_ms == policy_d.timeline.fallback_taker_active_ms
        }),
{
}

/// The result of a policy says how it compares with the baseline's.
pub open spec fn compares(
    told: ShadowPolicyResult,
    diff: ShadowDiff,
    policy: ShadowPnl,
    baseline: ShadowPnl,
) -> bool {
    &&& told.pnl == policy
    &&& diff.net_pnl_diff == five_places(minus(policy.net_pnl, baseline.net_pnl))
    &&& told.incremental_diff == diff.net_pnl_diff
    &&& diff.price_component == five_places(
        minus(
            minus(policy.total_exit_notional, policy.entry_notional),
            minus(baseline.total_exit_notional, baseline.entry_notional),
        ),
    )
    &&& diff.fee_component == five_places(
        minus(
            plus(baseline.entry_fee, baseline.total_exit_fee),
            plus(policy.entry_fee, policy.total_exit_fee),
        ),
    )
    &&& told.baseline_positive == less(of_nat(0), baseline.net_pnl)
    &&& told.policy_positive == less(of_nat(0), policy.net_pnl)
    &&& told.sign_flip == (less(of_nat(0), baseline.net_pnl) && less(policy.net_pnl, of_nat(0)))
}

/// How a fallback came about is told: a part that the resting order filled, a resting order that was
/// not filled, one that was refused, or none; with how long it took from the decision and from the
/// moment that the order rested.
pub proof fn law_fallback_outcome(
    run: PolicyRun,
    active_ms: u64,
    book: BookSnapshot,
    depth: MarketLevels,
)
    requires
        run.phase == ShadowPhase::Fallback(active_ms),
        run.request.decision_ms <= active_ms,
    ensures
        ({
            let r = run.after_deadline(book, depth).result;
            let filled = less(of_nat(0), run.result.maker_filled_shares);
            &&& r.state == ShadowState::Completed ==> {
                &&& filled ==> r.outcome == ShadowOutcome::PartialFillTradeSupported
                &&& !filled && run.result.selected_for_maker ==> r.outcome
                    == ShadowOutcome::ZeroFillTimeoutFallback
                &&& !filled && !run.result.selected_for_maker && run.result.outcome
                    == ShadowOutcome::PostOnlyRejected ==> r.outcome
                    == ShadowOutcome::PostOnlyRejected
                &&& !filled && !run.result.selected_for_maker && run.result.outcome
                    != ShadowOutcome::PostOnlyRejected ==> r.outcome == ShadowOutcome::TakerBypass
                &&& r.decision_to_completion_ms == Some(
                    (active_ms - run.request.decision_ms) as u64,
                )
                &&& run.result.timeline.maker_active_ms matches Some(ms) ==> (ms <= active_ms
                    ==> r.maker_active_to_completion_ms == Some((active_ms - ms) as u64))
            }
            &&& r.state != ShadowState::Completed ==> {
                &&& r.state == ShadowState::InsufficientData
                &&& r.outcome == ShadowOutcome::InsufficientFutureData
                &&& r.pnl == run.result.pnl
            }
            &&& r.queue_ahead == run.result.queue_ahead
            &&& r.limit_price == run.result.limit_price
            &&& r.timeline == run.result.timeline
            &&& r.policy == run.result.policy
            &&& run.after_deadline(book, depth).phase == ShadowPhase::Done
        }),
{
}

/// Selling into a list of bids, each level takes what is left to sell, but no more than its size, at
/// its own price; once nothing is left, no further level sells.
pub proof fn law_level_takes(levels: Seq<DepthLevel>, n: int, shares: Binary64)
    requires
        0 <= n < levels.len(),
    ensures
        ({
            let (left, brought) = sold_into(levels, n, shares);
            let (next_left, next_brought) = sold_into(levels, n + 1, shares);
            let size = levels[n].size;
            let goes = if left.nan() || (!size.nan() && !at_most(left, size)) {
                size
            } else {
                left
            };
            &&& at_most(left, of_nat(0)) ==> next_left == left && next_brought == brought
            &&& !at_most(left, of_nat(0)) ==> {
                &&& next_left == minus(left, goes)
                &&& next_brought == plus(brought, times(goes, levels[n].price))
            }
        }),
        sold_into(levels, 0, shares) == (shares, of_nat(0)),
{
    reveal(at_most);
}

/// The average price is what all the bids of the outcome, the highest first, bring in for each share;
/// there is none where they leave more than a hundred-millionth of the shares.
pub proof fn law_average_price(
    depth: MarketLevels,
    book: BookSnapshot,
    side: OrderSide,
    shares: Binary64,
    active_ms: u64,
)
    requires
        book.received_at_ms != 0,
        depth.received_at_ms != 0,
        active_ms <= book.received_at_ms + 1_000,
        active_ms <= depth.received_at_ms + 1_000,
        !at_most(shares, of_nat(0)),
    ensures
        ({
            let sorted = ranked(own_bids(depth, side));
            let (left, brought) = sold_into(sorted, sorted.len() as int, shares);
            let average = bid_vwap(depth, book, side, shares, active_ms);
            &&& less(ratio(1, 100_000_000), left) <==> average is Err
            &&& average is Ok ==> average == Ok::<Binary64, &'static str>(over(brought, shares))
            &&& sorted.to_multiset() == own_bids(depth, side).to_multiset()
        }),
{
    assert(own_bids(depth, side) == bids_of(depth, side));
    law_ranked(own_bids(depth, side));
}

/// A run waits for the moments of its timeline: its orders reach the exchange when the decision and
/// the delay of an order have gone by.
pub proof fn law_awaited_moments(run: PolicyRun, ms: u64)
    ensures
        ({
            let t = timeline_of(run.request.decision_ms, run.config);
            &&& run.phase == ShadowPhase::Taker || run.phase == ShadowPhase::Activation
                ==> run.deadline() == t.maker_active_ms
            &&& run.phase == ShadowPhase::Maker ==> run.deadline() == t.maker_timeout_ms
            &&& run.phase == ShadowPhase::Cancel ==> run.deadline() == t.cancel_effective_ms
            &&& run.phase == ShadowPhase::Fallback(ms) ==> run.deadline() == Some(ms)
            &&& run.phase == ShadowPhase::Done ==> run.deadline() is None
            &&& Some(run.active_ms()) == t.maker_active_ms
            &&& Some(run.timeout_ms()) == t.maker_timeout_ms
        }),
{
}

/// A queue is measured by the shares that wait behind it, to five places.
pub proof fn law_measured_queue(run: PolicyRun, book: BookSnapshot, depth: MarketLevels)
    requires
        run.phase == ShadowPhase::Activation,
        run.after_deadline(book, depth).phase == ShadowPhase::Maker,
        less(of_nat(0), run.request.shares),
    ensures
        ({
            let next = run.after_deadline(book, depth);
            let ratio_told = over(next.queue_ahead, run.request.shares);
            &&& next.result.queue_ratio == Some(five_places(ratio_told))
            &&& next.result.queue_ahead == Some(five_places(next.queue_ahead))
            &&& !less(run.config.shadow_queue_ratio_threshold, ratio_told)
        }),
{
}

/// A resting order is filled as soon as what was traded beyond its queue is all of its shares but for
/// 0.00001, and rests on before.
pub proof fn law_filled_at_last(run: PolicyRun, trade: TradePrint)
    requires
        run.phase == ShadowPhase::Maker,
        supports(trade, run.request.side, run.limit_price, run.active_ms(), run.timeout_ms()),
    ensures
        ({
            let next = run.after_trade(trade);
            let beyond = minus(plus(run.traded_at_or_above, trade.size), run.queue_ahead);
            let filled = lesser(greater(beyond, of_nat(0)), run.request.shares);
            let all = at_most(run.request.shares, plus(filled, ratio(1, 100_000)));
            &&& next.phase == if all {
                ShadowPhase::Done
            } else {
                ShadowPhase::Maker
            }
            &&& next.traded_at_or_above == plus(run.traded_at_or_above, trade.size)
            &&& all ==> next.result.decision_to_completion_ms == Some(
                if trade.received_at_ms >= run.request.decision_ms {
                    (trade.received_at_ms - run.request.decision_ms) as u64
                } else {
                    0
                },
            )
            &&& all ==> next.result.maker_active_to_completion_ms == Some(
                (trade.received_at_ms - run.active_ms()) as u64,
            )
        }),
{
}

/// A result begins with nothing sold, nothing earned and nothing known.
pub proof fn law_nothing_is_known_at_first(policy: &'static str, reason: &'static str)
    ensures
        ({
            let r = ShadowPolicyResult::blank(policy);
            let zero = of_nat(0);
            &&& r.policy == policy
            &&& r.state == ShadowState::PendingActivation
            &&& !r.selected_for_maker
            &&& r.selection_reason == "taker_baseline"
            &&& r.queue_snapshot_ms is None && r.queue_ahead is None && r.queue_ratio is None
            &&& r.limit_price is None
            &&& r.maker_filled_shares == zero && r.fallback_taker_shares == zero
            &&& r.maker_fill_vwap is None && r.fallback_taker_vwap is None
            &&& r.outcome == ShadowOutcome::InsufficientFutureData
            &&& !r.baseline_positive && !r.policy_positive && !r.sign_flip
            &&& r.incremental_diff == zero
            &&& r.pnl.entry_notional == zero && r.pnl.entry_fee == zero
            &&& r.pnl.maker_exit_notional == zero && r.pnl.maker_exit_fee == zero
            &&& r.pnl.fallback_exit_notional == zero && r.pnl.fallback_exit_fee == zero
            &&& r.pnl.total_exit_notional == zero && r.pnl.total_exit_fee == zero
            &&& r.pnl.net_pnl == zero
            &&& r.worst_adverse_price_move is None
            &&& r.decision_to_completion_ms is None && r.maker_active_to_completion_ms is None
            &&& r.timeline.maker_active_ms is None && r.timeline.maker_timeout_ms is None
            &&& r.undecided(reason).state == ShadowState::InsufficientData
            &&& r.undecided(reason).outcome == ShadowOutcome::InsufficientFutureData
            &&& r.undecided(reason).selection_reason == reason
        }),
{
}

/// To sell nothing takes no bids, and its price is nothing; it is still not told where the book or its
/// levels are from too long before.
pub proof fn law_nothing_to_sell(
    depth: MarketLevels,
    book: BookSnapshot,
    side: OrderSide,
    shares: Binary64,
    active_ms: u64,
)
    requires
        at_most(shares, of_nat(0)),
    ensures
        bid_vwap(depth, book, side, shares, active_ms) matches Ok(price) ==> price == of_nat(0),
        bid_vwap(depth, book, side, shares, active_ms) is Ok <==> !stale(
            book.received_at_ms,
            active_ms,
        ) && !stale(depth.received_at_ms, active_ms),
        bid_vwap(depth, book, side, shares, active_ms) matches Err(why) ==> why
            == "missing_fallback_book",
{
}

} // verus!
