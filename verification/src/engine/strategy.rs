//! Momentum over a window of prices.

use std::collections::VecDeque;
use vstd::prelude::*;

use crate::binary64::close::{lemma_opposite, lemma_sum_sign};
use crate::binary64::model::{less, minus, of_nat, opposite, plus, unsigned};
use crate::binary64::Binary64;
use crate::config::StrategyConfig;
use crate::executor::types::OrderSide;
use crate::time::age;
use crate::ws::binance::PriceTick;

verus! {

#[derive(Debug, Clone, Copy, PartialEq, Eq, Structural)]
pub struct StrategySignal {
    pub side: OrderSide,
    pub momentum_usd: Binary64,
    pub binance_price: Binary64,
    pub signal_ts_ms: u64,
}

/// The time of a tick: when it was traded, or when it was received.
pub open spec fn tick_time(tick: PriceTick, by_trade: bool) -> u64 {
    if by_trade {
        tick.trade_time_ms
    } else {
        tick.received_at_ms
    }
}

/// The prices from the last one at or before `cutoff` on: an earlier price is of no more use.
pub open spec fn kept(prices: Seq<PriceTick>, cutoff: u64, by_trade: bool) -> Seq<PriceTick>
    decreases prices.len(),
{
    if prices.len() > 1 && tick_time(prices[1], by_trade) <= cutoff {
        kept(prices.skip(1), cutoff, by_trade)
    } else {
        prices
    }
}

fn time_of(tick: PriceTick, by_trade: bool) -> (r: u64)
    ensures
        r == tick_time(tick, by_trade),
{
    if by_trade {
        tick.trade_time_ms
    } else {
        tick.received_at_ms
    }
}

fn discard_old(prices: &mut VecDeque<PriceTick>, cutoff: u64, by_trade: bool)
    ensures
        final(prices)@ == kept(old(prices)@, cutoff, by_trade),
        old(prices)@.len() > 0 ==> final(prices)@.len() > 0,
{
    while prices.len() > 1 && time_of(prices[1], by_trade) <= cutoff
        invariant
            kept(old(prices)@, cutoff, by_trade) == kept(prices@, cutoff, by_trade),
            old(prices)@.len() > 0 ==> prices@.len() > 0,
        decreases prices@.len(),
    {
        let ghost before = prices@;
        let _ = prices.pop_front();
        assert(prices@ == before.skip(1));
    }
}

/// The latest prices of the underlying asset, as long as they are of use.
#[derive(Debug)]
pub struct BtcPriceHistory {
    pub prices: VecDeque<PriceTick>,
    pub retain_ms: u64,
}

/// The prices that the momentum over `window_ms` is told by.
pub open spec fn windowed(prices: Seq<PriceTick>, window_ms: u64) -> Seq<PriceTick> {
    if prices.len() == 0 {
        prices
    } else {
        kept(prices, age(prices.last().received_at_ms, window_ms), false)
    }
}

/// How far the price moved over the last `window_ms`, where there is a price that old.
pub open spec fn momentum_over(prices: Seq<PriceTick>, window_ms: u64) -> Option<Binary64> {
    let w = windowed(prices, window_ms);
    if prices.len() == 0 || w[0].received_at_ms > age(prices.last().received_at_ms, window_ms) {
        None
    } else {
        Some(minus(prices.last().price, w[0].price))
    }
}

impl BtcPriceHistory {
    pub fn new(retain_ms: u64) -> (r: Self)
        ensures
            r.prices@ == Seq::<PriceTick>::empty(),
            r.retain_ms == retain_ms,
    {
        BtcPriceHistory { prices: VecDeque::with_capacity(512), retain_ms }
    }

    /// Adds a price, and drops those that are too old.
    pub fn record(&mut self, tick: PriceTick)
        ensures
            final(self).prices@ == kept(
                old(self).prices@.push(tick),
                age(tick.received_at_ms, old(self).retain_ms),
                false,
            ),
            final(self).retain_ms == old(self).retain_ms,
    {
        self.prices.push_back(tick);
        let cutoff: u64 = tick.received_at_ms.saturating_sub(self.retain_ms);
        discard_old(&mut self.prices, cutoff, false);
    }

    /// How far the price moved over the last `window_ms`.  Prices from before the window are
    /// dropped.
    pub fn recent_momentum(&mut self, window_ms: u64) -> (r: Option<Binary64>)
        ensures
            r == momentum_over(old(self).prices@, window_ms),
            final(self).prices@ == windowed(old(self).prices@, window_ms),
            final(self).retain_ms == old(self).retain_ms,
    {
        if self.prices.len() == 0 {
            return None;
        }
        let latest: PriceTick = self.prices[self.prices.len() - 1];
        let cutoff: u64 = latest.received_at_ms.saturating_sub(window_ms);
        discard_old(&mut self.prices, cutoff, false);
        let baseline: PriceTick = self.prices[0];
        if baseline.received_at_ms > cutoff {
            return None;
        }
        Some(latest.price.sub(baseline.price))
    }
}

/// What a strategy makes of a price.
pub trait Strategy: Send {
    fn on_binance_tick(&mut self, tick: PriceTick, received_at_ms: u64) -> (r: Option<
        StrategySignal,
    >);
}

/// Signals when the price has moved far enough within a window.
#[derive(Debug)]
pub struct MomentumStrategy {
    pub window_ms: u64,
    pub buy_yes_threshold_usd: Binary64,
    pub buy_no_threshold_usd: Binary64,
    pub prices: VecDeque<PriceTick>,
}

/// What the momentum strategy goes by.
#[verifier::ext_equal]
pub struct Momentum {
    pub window_ms: u64,
    pub buy_yes_threshold_usd: Binary64,
    pub buy_no_threshold_usd: Binary64,
    pub prices: Seq<PriceTick>,
}

impl View for MomentumStrategy {
    type V = Momentum;

    open spec fn view(&self) -> Momentum {
        Momentum {
            window_ms: self.window_ms,
            buy_yes_threshold_usd: self.buy_yes_threshold_usd,
            buy_no_threshold_usd: self.buy_no_threshold_usd,
            prices: self.prices@,
        }
    }
}

impl Momentum {
    /// The strategy before the first price.
    pub open spec fn fresh(window_ms: u64, yes: Binary64, no: Binary64) -> Self {
        Momentum {
            window_ms,
            buy_yes_threshold_usd: yes,
            buy_no_threshold_usd: no,
            prices: Seq::empty(),
        }
    }

    /// The strategy once `tick` has come in.
    pub open spec fn after(self, tick: PriceTick) -> Self {
        Momentum {
            prices: kept(self.prices.push(tick), age(tick.trade_time_ms, self.window_ms), true),
            ..self
        }
    }

    /// What the move since `baseline` makes of `tick`: a signal where it reaches the threshold of
    /// its direction.
    pub open spec fn signal_since(
        self,
        baseline: PriceTick,
        tick: PriceTick,
        received_at_ms: u64,
    ) -> Option<StrategySignal> {
        let momentum = minus(tick.price, baseline.price);
        let side = if less(of_nat(0), momentum) {
            OrderSide::BuyYes
        } else {
            OrderSide::BuyNo
        };
        let threshold = match side {
            OrderSide::BuyYes => self.buy_yes_threshold_usd,
            OrderSide::BuyNo => self.buy_no_threshold_usd,
        };
        if less(unsigned(momentum), threshold) {
            None
        } else {
            Some(
                StrategySignal {
                    side,
                    momentum_usd: momentum,
                    binance_price: tick.price,
                    signal_ts_ms: received_at_ms,
                },
            )
        }
    }

    /// The signal that `tick` gives: the price has moved by the threshold of its direction since
    /// the last price that is at least a window old.
    pub open spec fn signal(self, tick: PriceTick, received_at_ms: u64) -> Option<
        StrategySignal,
    > {
        let baseline = self.after(tick).prices[0];
        if baseline.trade_time_ms > age(tick.trade_time_ms, self.window_ms) {
            None
        } else {
            self.signal_since(baseline, tick, received_at_ms)
        }
    }
}

impl MomentumStrategy {
    pub fn new(config: &StrategyConfig) -> (r: Self)
        ensures
            r@ == Momentum::fresh(
                config.momentum_window_ms,
                config.buy_yes_momentum_threshold_usd,
                config.buy_no_momentum_threshold_usd,
            ),
    {
        Self::with_params(
            config.momentum_window_ms,
            config.buy_yes_momentum_threshold_usd,
            config.buy_no_momentum_threshold_usd,
        )
    }

    pub fn with_params(
        window_ms: u64,
        buy_yes_threshold_usd: Binary64,
        buy_no_threshold_usd: Binary64,
    ) -> (r: Self)
        ensures
            r@ == Momentum::fresh(window_ms, buy_yes_threshold_usd, buy_no_threshold_usd),
    {
        MomentumStrategy {
            window_ms,
            buy_yes_threshold_usd,
            buy_no_threshold_usd,
            prices: VecDeque::with_capacity(512),
        }
    }
}

impl Strategy for MomentumStrategy {
    fn on_binance_tick(&mut self, tick: PriceTick, received_at_ms: u64) -> (r: Option<
        StrategySignal,
    >)
        ensures
            r == old(self)@.signal(tick, received_at_ms),
            final(self)@ == old(self)@.after(tick),
    {
        self.prices.push_back(tick);
        let cutoff: u64 = tick.trade_time_ms.saturating_sub(self.window_ms);
        discard_old(&mut self.prices, cutoff, true);
        let baseline: PriceTick = self.prices[0];
        if baseline.trade_time_ms > cutoff {
            return None;
        }
        let momentum_usd: Binary64 = tick.price.sub(baseline.price);
        let side: OrderSide = if Binary64::from_u64(0).lt(momentum_usd) {
            OrderSide::BuyYes
        } else {
            OrderSide::BuyNo
        };
        let threshold_usd: Binary64 = match side {
            OrderSide::BuyYes => self.buy_yes_threshold_usd,
            OrderSide::BuyNo => self.buy_no_threshold_usd,
        };
        if momentum_usd.abs().lt(threshold_usd) {
            return None;
        }
        Some(
            StrategySignal {
                side,
                momentum_usd,
                binance_price: tick.price,
                signal_ts_ms: received_at_ms,
            },
        )
    }
}

/// Dropping old prices leaves the end of the list, never empties it, and leaves no price that a
/// later one at or before the cutoff makes useless.
pub proof fn law_kept_prices(prices: Seq<PriceTick>, cutoff: u64, by_trade: bool)
    requires
        prices.len() > 0,
    ensures
        ({
            let k = kept(prices, cutoff, by_trade);
            &&& 0 < k.len() <= prices.len()
            &&& k == prices.skip(prices.len() - k.len())
            &&& k.last() == prices.last()
            &&& k.len() > 1 ==> tick_time(k[1], by_trade) > cutoff
        }),
    decreases prices.len(),
{
    if prices.len() > 1 && tick_time(prices[1], by_trade) <= cutoff {
        let rest = prices.skip(1);
        law_kept_prices(rest, cutoff, by_trade);
        let k = kept(rest, cutoff, by_trade);
        assert(rest.skip(rest.len() - k.len()) == prices.skip(prices.len() - k.len()));
    } else {
        assert(prices.skip(0) == prices);
    }
}

/// The times of the ticks do not go back.
pub open spec fn in_time(ticks: Seq<PriceTick>, by_trade: bool) -> bool {
    forall|i: int, j: int|
        0 <= i <= j < ticks.len() ==> tick_time(#[trigger] ticks[i], by_trade) <= tick_time(
            #[trigger] ticks[j],
            by_trade,
        )
}

/// The last tick at or before `cutoff`, where there is one.
pub open spec fn last_by(ticks: Seq<PriceTick>, cutoff: u64, by_trade: bool) -> Option<int>
    decreases ticks.len(),
{
    if ticks.len() == 0 {
        None
    } else if tick_time(ticks.last(), by_trade) <= cutoff {
        Some(ticks.len() - 1)
    } else {
        last_by(ticks.drop_last(), cutoff, by_trade)
    }
}

/// Where the ticks that are of use begin.
spec fn base(ticks: Seq<PriceTick>, cutoff: u64, by_trade: bool) -> int {
    match last_by(ticks, cutoff, by_trade) {
        Some(i) => i,
        None => 0,
    }
}

/// Of the ticks at or before the cutoff, `last_by` is the last.
pub proof fn law_last_by(ticks: Seq<PriceTick>, cutoff: u64, by_trade: bool)
    ensures
        match last_by(ticks, cutoff, by_trade) {
            Some(i) => {
                &&& 0 <= i < ticks.len()
                &&& tick_time(ticks[i], by_trade) <= cutoff
                &&& forall|j: int|
                    i < j < ticks.len() ==> tick_time(#[trigger] ticks[j], by_trade) > cutoff
            },
            None => forall|j: int|
                0 <= j < ticks.len() ==> tick_time(#[trigger] ticks[j], by_trade) > cutoff,
        },
    decreases ticks.len(),
{
    if ticks.len() > 0 && tick_time(ticks.last(), by_trade) > cutoff {
        let rest = ticks.drop_last();
        law_last_by(rest, cutoff, by_trade);
        assert forall|j: int| 0 <= j < rest.len() implies rest[j] == #[trigger] ticks[j] by {}
    }
}

/// Where the times do not go back, the prices that are kept begin with the last one at or before
/// the cutoff.
proof fn lemma_kept_base(ticks: Seq<PriceTick>, cutoff: u64, by_trade: bool)
    requires
        ticks.len() > 0,
        in_time(ticks, by_trade),
    ensures
        kept(ticks, cutoff, by_trade) == ticks.skip(base(ticks, cutoff, by_trade)),
        0 <= base(ticks, cutoff, by_trade) < ticks.len(),
    decreases ticks.len(),
{
    law_last_by(ticks, cutoff, by_trade);
    if ticks.len() > 1 && tick_time(ticks[1], by_trade) <= cutoff {
        let rest = ticks.skip(1);
        assert forall|i: int, j: int| 0 <= i <= j < rest.len() implies tick_time(
            #[trigger] rest[i],
            by_trade,
        ) <= tick_time(#[trigger] rest[j], by_trade) by {
            assert(rest[i] == ticks[i + 1] && rest[j] == ticks[j + 1]);
        }
        lemma_kept_base(rest, cutoff, by_trade);
        law_last_by(rest, cutoff, by_trade);
        let b = base(ticks, cutoff, by_trade);
        let c = base(rest, cutoff, by_trade);
        assert(rest[0] == ticks[1]);
        assert(rest[c] == ticks[c + 1]);
        if b < c + 1 {
            assert(tick_time(ticks[c + 1], by_trade) > cutoff);
        }
        if b > c + 1 {
            assert(rest[b - 1] == ticks[b]);
        }
        assert(rest.skip(c) == ticks.skip(b));
    } else {
        let b = base(ticks, cutoff, by_trade);
        if b > 0 {
            assert(tick_time(ticks[1], by_trade) <= tick_time(ticks[b], by_trade));
        }
        assert(ticks.skip(0) == ticks);
    }
}

/// Dropping by an earlier cutoff first leaves what dropping by the later one alone leaves.
proof fn lemma_kept_again(ticks: Seq<PriceTick>, earlier: u64, later: u64, n: int, by_trade: bool)
    requires
        0 < n <= ticks.len(),
        in_time(ticks, by_trade),
        earlier <= later,
    ensures
        ({
            let from = base(ticks.take(n), earlier, by_trade);
            &&& 0 <= from < n
            &&& kept(ticks.skip(from), later, by_trade) == ticks.skip(
                base(ticks, later, by_trade),
            )
        }),
{
    let first = ticks.take(n);
    law_last_by(first, earlier, by_trade);
    law_last_by(ticks, later, by_trade);
    let from = base(first, earlier, by_trade);
    let rest = ticks.skip(from);
    assert forall|i: int, j: int| 0 <= i <= j < rest.len() implies tick_time(
        #[trigger] rest[i],
        by_trade,
    ) <= tick_time(#[trigger] rest[j], by_trade) by {
        assert(rest[i] == ticks[i + from] && rest[j] == ticks[j + from]);
    }
    lemma_kept_base(rest, later, by_trade);
    law_last_by(rest, later, by_trade);
    let b = base(ticks, later, by_trade);
    let c = base(rest, later, by_trade);
    assert(first[from] == ticks[from]);
    assert(rest[c] == ticks[c + from]);
    if from > 0 {
        assert(tick_time(ticks[from], by_trade) <= later);
        assert(rest[0] == ticks[from]);
    }
    if b > c + from {
        assert(rest[b - from] == ticks[b]);
        assert(tick_time(ticks[b], by_trade) <= later);
    }
    if b < c + from {
        assert(last_by(rest, later, by_trade) is Some || c == 0);
    }
    assert(rest.skip(c) == ticks.skip(b));
}

/// The prices that are held after the ticks have come in, one after another, where each drops
/// what is of no more use for the window that ends with it.
pub open spec fn held_after(ticks: Seq<PriceTick>, window_ms: u64, by_trade: bool) -> Seq<
    PriceTick,
>
    decreases ticks.len(),
{
    if ticks.len() == 0 {
        ticks
    } else {
        kept(
            held_after(ticks.drop_last(), window_ms, by_trade).push(ticks.last()),
            age(tick_time(ticks.last(), by_trade), window_ms),
            by_trade,
        )
    }
}

/// After ticks whose times do not go back, those from the last one at or before the cutoff on
/// are held.
proof fn lemma_held_after(ticks: Seq<PriceTick>, window_ms: u64, by_trade: bool)
    requires
        ticks.len() > 0,
        in_time(ticks, by_trade),
    ensures
        ({
            let cutoff = age(tick_time(ticks.last(), by_trade), window_ms);
            &&& held_after(ticks, window_ms, by_trade) == ticks.skip(
                base(ticks, cutoff, by_trade),
            )
            &&& 0 <= base(ticks, cutoff, by_trade) < ticks.len()
        }),
    decreases ticks.len(),
{
    let tick = ticks.last();
    let rest = ticks.drop_last();
    let cutoff = age(tick_time(tick, by_trade), window_ms);
    let before = held_after(rest, window_ms, by_trade);
    if rest.len() == 0 {
        assert(before.push(tick) == ticks);
        lemma_kept_base(ticks, cutoff, by_trade);
    } else {
        assert forall|i: int, j: int| 0 <= i <= j < rest.len() implies tick_time(
            #[trigger] rest[i],
            by_trade,
        ) <= tick_time(#[trigger] rest[j], by_trade) by {
            assert(rest[i] == ticks[i] && rest[j] == ticks[j]);
        }
        lemma_held_after(rest, window_ms, by_trade);
        let earlier = age(tick_time(rest.last(), by_trade), window_ms);
        let n = rest.len() as int;
        assert(rest.last() == ticks[n - 1]);
        assert(tick_time(ticks[n - 1], by_trade) <= tick_time(ticks[n], by_trade));
        assert(ticks.take(n) == rest);
        lemma_kept_again(ticks, earlier, cutoff, n, by_trade);
        let from = base(rest, earlier, by_trade);
        assert(before.push(tick) == ticks.skip(from));
        law_last_by(ticks, cutoff, by_trade);
    }
}

impl Momentum {
    /// The strategy once the ticks have come in, one after another.
    pub open spec fn fed(self, ticks: Seq<PriceTick>) -> Self
        decreases ticks.len(),
    {
        if ticks.len() == 0 {
            self
        } else {
            self.fed(ticks.drop_last()).after(ticks.last())
        }
    }
}

proof fn lemma_fed(strategy: Momentum, ticks: Seq<PriceTick>)
    requires
        strategy.prices.len() == 0,
    ensures
        strategy.fed(ticks) == (Momentum {
            prices: held_after(ticks, strategy.window_ms, true),
            ..strategy
        }),
    decreases ticks.len(),
{
    if ticks.len() == 0 {
        assert(strategy.prices == ticks);
    } else {
        lemma_fed(strategy, ticks.drop_last());
    }
}

/// Of all the ticks that came in, a signal is told by the last one that is at least a window old.
/// Where none is, there is no signal.
pub proof fn law_signal_baseline(
    strategy: Momentum,
    ticks: Seq<PriceTick>,
    tick: PriceTick,
    received_at_ms: u64,
)
    requires
        strategy.prices.len() == 0,
        in_time(ticks.push(tick), true),
    ensures
        ({
            let all = ticks.push(tick);
            strategy.fed(ticks).signal(tick, received_at_ms) == match last_by(
                all,
                age(tick.trade_time_ms, strategy.window_ms),
                true,
            ) {
                Some(i) => strategy.signal_since(all[i], tick, received_at_ms),
                None => None,
            }
        }),
{
    let all = ticks.push(tick);
    let cutoff = age(tick.trade_time_ms, strategy.window_ms);
    assert(all.drop_last() == ticks);
    lemma_fed(strategy, ticks);
    lemma_held_after(all, strategy.window_ms, true);
    law_last_by(all, cutoff, true);
    let b = base(all, cutoff, true);
    assert(strategy.fed(ticks).after(tick).prices[0] == all[b]);
}

/// Of all the prices that were recorded, the momentum over a window is told by the last one that
/// is at least the window old, as long as prices are retained for that window.  Where none is that
/// old, there is no momentum.
pub proof fn law_recent_momentum(ticks: Seq<PriceTick>, retain_ms: u64, window_ms: u64)
    requires
        ticks.len() > 0,
        in_time(ticks, false),
        window_ms <= retain_ms,
    ensures
        momentum_over(held_after(ticks, retain_ms, false), window_ms) == match last_by(
            ticks,
            age(ticks.last().received_at_ms, window_ms),
            false,
        ) {
            Some(i) => Some(minus(ticks.last().price, ticks[i].price)),
            None => None,
        },
{
    let n = ticks.len() as int;
    let earlier = age(ticks.last().received_at_ms, retain_ms);
    let cutoff = age(ticks.last().received_at_ms, window_ms);
    lemma_held_after(ticks, retain_ms, false);
    assert(ticks.take(n) == ticks);
    lemma_kept_again(ticks, earlier, cutoff, n, false);
    law_last_by(ticks, cutoff, false);
}

/// Ticks that all came in less than a window ago give no signal.
pub proof fn law_no_signal_within_window(
    strategy: Momentum,
    ticks: Seq<PriceTick>,
    tick: PriceTick,
    received_at_ms: u64,
)
    requires
        strategy.prices.len() == 0,
        in_time(ticks.push(tick), true),
        ticks.push(tick)[0].trade_time_ms > age(tick.trade_time_ms, strategy.window_ms),
    ensures
        strategy.fed(ticks).signal(tick, received_at_ms) is None,
{
    let all = ticks.push(tick);
    let cutoff = age(tick.trade_time_ms, strategy.window_ms);
    law_signal_baseline(strategy, ticks, tick, received_at_ms);
    law_last_by(all, cutoff, true);
    if let Some(i) = last_by(all, cutoff, true) {
        assert(tick_time(all[0], true) <= tick_time(all[i], true));
    }
}

/// Every signal's side is the direction of its momentum, and its momentum reaches the threshold
/// of that side.
pub proof fn law_signal_direction(strategy: Momentum, tick: PriceTick, at: u64)
    ensures
        strategy.signal(tick, at) matches Some(s) ==> {
            &&& s.side == OrderSide::BuyYes <==> less(of_nat(0), s.momentum_usd)
            &&& s.side == OrderSide::BuyYes ==> !less(
                unsigned(s.momentum_usd),
                strategy.buy_yes_threshold_usd,
            )
            &&& s.side == OrderSide::BuyNo ==> !less(
                unsigned(s.momentum_usd),
                strategy.buy_no_threshold_usd,
            )
            &&& s.signal_ts_ms == at
            &&& s.binance_price == tick.price
        },
{
}

/// A move since the baseline is a signal exactly where it reaches the threshold of its direction: a
/// rise that of buying yes, and everything else that of buying no.  The signal is the move itself.
pub proof fn law_signal_since(
    strategy: Momentum,
    baseline: PriceTick,
    tick: PriceTick,
    received_at_ms: u64,
)
    ensures
        ({
            let moved = minus(tick.price, baseline.price);
            let rises = less(of_nat(0), moved);
            let threshold = if rises {
                strategy.buy_yes_threshold_usd
            } else {
                strategy.buy_no_threshold_usd
            };
            let signal = strategy.signal_since(baseline, tick, received_at_ms);
            &&& signal is Some <==> !less(unsigned(moved), threshold)
            &&& signal matches Some(s) ==> {
                &&& s.momentum_usd == moved
                &&& rises ==> s.side == OrderSide::BuyYes
                &&& !rises ==> s.side == OrderSide::BuyNo
                &&& s.binance_price == tick.price
                &&& s.signal_ts_ms == received_at_ms
            }
        }),
{
}

/// A strategy counts the time of its ticks by their trades, and the price history by their arrival.
pub proof fn law_tick_times(tick: PriceTick)
    ensures
        tick_time(tick, true) == tick.trade_time_ms,
        tick_time(tick, false) == tick.received_at_ms,
{
}

/// A price that falls as far as another rises signals the other way, where both thresholds are the
/// same.
pub proof fn law_signals_mirror(
    strategy: Momentum,
    baseline: PriceTick,
    tick: PriceTick,
    received_at_ms: u64,
)
    requires
        baseline.price.finite(),
        tick.price.finite(),
        strategy.buy_yes_threshold_usd == strategy.buy_no_threshold_usd,
        tick.price.scaled() != baseline.price.scaled(),
    ensures
        ({
            let there = strategy.signal_since(baseline, tick, received_at_ms);
            let back = strategy.signal_since(tick, baseline, received_at_ms);
            &&& there is Some <==> back is Some
            &&& there is Some ==> there->0.side != back->0.side
        }),
{
    reveal(minus);
    reveal(plus);
    reveal(less);
    crate::binary64::arith::lemma_of_nat_zero();
    let a = tick.price;
    let b = baseline.price;
    lemma_opposite(a);
    lemma_opposite(b);
    lemma_sum_sign(a, opposite(b));
    lemma_sum_sign(b, opposite(a));
    let s = a.scaled() - b.scaled();
    let n = crate::binary64::model::abs_nat(s);
    lemma_nonzero_sum(n);
}

proof fn lemma_nonzero_sum(n: nat)
    requires
        n > 0,
    ensures
        crate::binary64::model::nearest(n, 1) > 0,
        crate::binary64::model::mag_value(crate::binary64::model::nearest(n, 1)) > 0,
{
    crate::binary64::close::lemma_nearest_ordered(1, 1, n, 1);
    crate::binary64::order::lemma_magnitude_zero(1);
    crate::binary64::arith::lemma_nearest_representable(1);
    assert(crate::binary64::model::mag_value(1) == 1);
    crate::binary64::order::lemma_magnitude_zero(crate::binary64::model::nearest(n, 1));
}

} // verus!
