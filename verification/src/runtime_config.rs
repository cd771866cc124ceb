//! The strategy's settings while the engine runs.

use vstd::prelude::*;
use vstd::utf8::encode_utf8;

use crate::binary64::model::{at_most, less, of_nat, ratio};
use crate::binary64::Binary64;
use crate::config::{in_range, RiskConfig, StrategyConfig};
use crate::engine::state::next_count;
use crate::text::{blank, byte_len, is_blank, same_text};

verus! {

/// The settings that the control plane sends.
#[derive(Debug, Clone)]
pub struct JavaStrategyConfig {
    pub config_version: String,
    pub momentum_window_ms: u64,
    pub momentum_threshold_usd: Binary64,
    pub buy_yes_momentum_threshold_usd: Binary64,
    pub buy_no_momentum_threshold_usd: Binary64,
    pub execution_latency_ms: u64,
    pub hold_ms: u64,
    pub min_expected_price_move: Binary64,
    pub entry_slippage: Binary64,
    pub entry_confirmation_ms: u64,
    pub min_entry_bid_improvement: Binary64,
    pub min_exchange_shares: u64,
    pub min_progress: Binary64,
    pub max_progress: Binary64,
    pub max_spread: Binary64,
    pub min_price: Binary64,
    pub max_price: Binary64,
    pub max_notional_usd: Binary64,
    pub max_shares: u64,
    pub daily_loss_limit_usd: Binary64,
    pub up_outcome: String,
    pub down_outcome: String,
}

/// A version is named, in at most 128 bytes.
pub open spec fn valid_version(version: Seq<char>) -> bool {
    !blank(version) && encode_utf8(version).len() <= 128
}

pub fn valid_config_version(value: &str) -> (r: bool)
    ensures
        r == valid_version(value@),
{
    !is_blank(value) && byte_len(value) <= 128
}

pub open spec fn is_positive_finite(value: Binary64) -> bool {
    value.finite() && less(of_nat(0), value)
}

fn positive_finite(value: Binary64) -> (r: bool)
    ensures
        r == is_positive_finite(value),
{
    value.is_finite() && Binary64::from_u64(0).lt(value)
}

/// A range within zero and one that is not empty.
pub open spec fn unit_range(low: Binary64, high: Binary64) -> bool {
    &&& low.finite()
    &&& high.finite()
    &&& !less(low, of_nat(0))
    &&& !less(of_nat(1), high)
    &&& !at_most(high, low)
}

fn is_unit_range(low: Binary64, high: Binary64) -> (r: bool)
    ensures
        r == unit_range(low, high),
{
    low.is_finite() && high.is_finite() && !low.lt(Binary64::from_u64(0)) && !Binary64::from_u64(
        1,
    ).lt(high) && !high.le(low)
}

/// Zero to a fifth.
pub open spec fn up_to_a_fifth(value: Binary64) -> bool {
    value.finite() && in_range(value, of_nat(0), ratio(20, 100))
}

fn is_up_to_a_fifth(value: Binary64) -> (r: bool)
    ensures
        r == up_to_a_fifth(value),
{
    value.is_finite() && Binary64::from_u64(0).le(value) && value.le(Binary64::from_ratio(20, 100))
}

impl JavaStrategyConfig {
    pub open spec fn limits_sound(self) -> bool {
        &&& self.momentum_window_ms != 0
        &&& self.hold_ms != 0
        &&& is_positive_finite(self.momentum_threshold_usd)
        &&& is_positive_finite(self.buy_yes_momentum_threshold_usd)
        &&& is_positive_finite(self.buy_no_momentum_threshold_usd)
        &&& is_positive_finite(self.max_notional_usd)
        &&& is_positive_finite(self.daily_loss_limit_usd)
        &&& self.max_shares != 0
    }

    pub open spec fn confirmation_sound(self) -> bool {
        &&& self.entry_confirmation_ms != 0
        &&& up_to_a_fifth(self.min_entry_bid_improvement)
        &&& self.min_exchange_shares != 0
    }

    pub open spec fn zero_or_more(value: Binary64) -> bool {
        value.finite() && !less(value, of_nat(0))
    }

    /// The first setting that is not acceptable.
    pub open spec fn verdict(self) -> Result<(), &'static str> {
        if !valid_version(self.config_version@) {
            Err("invalid_config_version")
        } else if !self.limits_sound() {
            Err("invalid_strategy_limits")
        } else if !Self::zero_or_more(self.min_expected_price_move) {
            Err("invalid_min_expected_price_move")
        } else if !up_to_a_fifth(self.entry_slippage) {
            Err("invalid_entry_slippage")
        } else if !self.confirmation_sound() {
            Err("invalid_entry_confirmation")
        } else if !unit_range(self.min_progress, self.max_progress) {
            Err("invalid_progress_range")
        } else if !Self::zero_or_more(self.max_spread) {
            Err("invalid_max_spread")
        } else if !unit_range(self.min_price, self.max_price) {
            Err("invalid_price_range")
        } else if self.up_outcome@ != "YES"@ || self.down_outcome@ != "NO"@ {
            Err("invalid_outcome_mapping")
        } else {
            Ok(())
        }
    }

    pub fn validate(&self) -> (r: Result<(), &'static str>)
        ensures
            r == self.verdict(),
    {
        let zero: Binary64 = Binary64::from_u64(0);
        if !valid_config_version(self.config_version.as_str()) {
            return Err("invalid_config_version");
        }
        if self.momentum_window_ms == 0 || self.hold_ms == 0 || !positive_finite(
            self.momentum_threshold_usd,
        ) || !positive_finite(self.buy_yes_momentum_threshold_usd) || !positive_finite(
            self.buy_no_momentum_threshold_usd,
        ) || !positive_finite(self.max_notional_usd) || !positive_finite(self.daily_loss_limit_usd)
            || self.max_shares == 0 {
            return Err("invalid_strategy_limits");
        }
        if !self.min_expected_price_move.is_finite() || self.min_expected_price_move.lt(zero) {
            return Err("invalid_min_expected_price_move");
        }
        if !is_up_to_a_fifth(self.entry_slippage) {
            return Err("invalid_entry_slippage");
        }
        if self.entry_confirmation_ms == 0 || !is_up_to_a_fifth(self.min_entry_bid_improvement)
            || self.min_exchange_shares == 0 {
            return Err("invalid_entry_confirmation");
        }
        if !is_unit_range(self.min_progress, self.max_progress) {
            return Err("invalid_progress_range");
        }
        if !self.max_spread.is_finite() || self.max_spread.lt(zero) {
            return Err("invalid_max_spread");
        }
        if !is_unit_range(self.min_price, self.max_price) {
            return Err("invalid_price_range");
        }
        if !same_text(self.up_outcome.as_str(), "YES") || !same_text(
            self.down_outcome.as_str(),
            "NO",
        ) {
            return Err("invalid_outcome_mapping");
        }
        Ok(())
    }
}

/// Settings as they are sent, some of which may be left out.
#[derive(Debug, Clone)]
pub struct PartialStrategyConfig {
    pub config_version: String,
    pub momentum_window_ms: u64,
    pub momentum_threshold_usd: Binary64,
    pub buy_yes_momentum_threshold_usd: Option<Binary64>,
    pub buy_no_momentum_threshold_usd: Option<Binary64>,
    pub execution_latency_ms: u64,
    pub hold_ms: u64,
    pub min_expected_price_move: Option<Binary64>,
    pub entry_slippage: Option<Binary64>,
    pub entry_confirmation_ms: Option<u64>,
    pub min_entry_bid_improvement: Option<Binary64>,
    pub min_exchange_shares: Option<u64>,
    pub min_progress: Binary64,
    pub max_progress: Binary64,
    pub max_spread: Binary64,
    pub min_price: Option<Binary64>,
    pub max_price: Option<Binary64>,
    pub max_notional_usd: Binary64,
    pub max_shares: u64,
    pub daily_loss_limit_usd: Option<Binary64>,
    pub up_outcome: String,
    pub down_outcome: String,
}

/// A value, or another where there is none.
pub open spec fn or<T>(value: Option<T>, other: T) -> T {
    match value {
        Some(value) => value,
        None => other,
    }
}

impl PartialStrategyConfig {
    /// The settings with what they are where they were left out.  The threshold of a direction is
    /// then that of both.
    pub open spec fn completed(self) -> JavaStrategyConfig {
        JavaStrategyConfig {
            config_version: self.config_version,
            momentum_window_ms: self.momentum_window_ms,
            momentum_threshold_usd: self.momentum_threshold_usd,
            buy_yes_momentum_threshold_usd: or(self.buy_yes_momentum_threshold_usd, self.momentum_threshold_usd),
            buy_no_momentum_threshold_usd: or(self.buy_no_momentum_threshold_usd, self.momentum_threshold_usd),
            execution_latency_ms: self.execution_latency_ms,
            hold_ms: self.hold_ms,
            min_expected_price_move: or(self.min_expected_price_move, ratio(5, 100)),
            entry_slippage: or(self.entry_slippage, ratio(2, 100)),
            entry_confirmation_ms: or(self.entry_confirmation_ms, 1_000),
            min_entry_bid_improvement: or(self.min_entry_bid_improvement, ratio(1, 100)),
            min_exchange_shares: or(self.min_exchange_shares, 5),
            min_progress: self.min_progress,
            max_progress: self.max_progress,
            max_spread: self.max_spread,
            min_price: or(self.min_price, ratio(5, 100)),
            max_price: or(self.max_price, ratio(95, 100)),
            max_notional_usd: self.max_notional_usd,
            max_shares: self.max_shares,
            daily_loss_limit_usd: or(self.daily_loss_limit_usd, of_nat(500)),
            up_outcome: self.up_outcome,
            down_outcome: self.down_outcome,
        }
    }

    /// Completes the settings.
    pub fn complete(self) -> (r: JavaStrategyConfig)
        ensures
            r == self.completed(),
    {
        JavaStrategyConfig {
            config_version: self.config_version,
            momentum_window_ms: self.momentum_window_ms,
            momentum_threshold_usd: self.momentum_threshold_usd,
            buy_yes_momentum_threshold_usd: self.buy_yes_momentum_threshold_usd.unwrap_or(self.momentum_threshold_usd),
            buy_no_momentum_threshold_usd: self.buy_no_momentum_threshold_usd.unwrap_or(self.momentum_threshold_usd),
            execution_latency_ms: self.execution_latency_ms,
            hold_ms: self.hold_ms,
            min_expected_price_move: self.min_expected_price_move.unwrap_or(Binary64::from_ratio(5, 100)),
            entry_slippage: self.entry_slippage.unwrap_or(Binary64::from_ratio(2, 100)),
            entry_confirmation_ms: self.entry_confirmation_ms.unwrap_or(1_000),
            min_entry_bid_improvement: self.min_entry_bid_improvement.unwrap_or(Binary64::from_ratio(1, 100)),
            min_exchange_shares: self.min_exchange_shares.unwrap_or(5),
            min_progress: self.min_progress,
            max_progress: self.max_progress,
            max_spread: self.max_spread,
            min_price: self.min_price.unwrap_or(Binary64::from_ratio(5, 100)),
            max_price: self.max_price.unwrap_or(Binary64::from_ratio(95, 100)),
            max_notional_usd: self.max_notional_usd,
            max_shares: self.max_shares,
            daily_loss_limit_usd: self.daily_loss_limit_usd.unwrap_or(Binary64::from_u64(500)),
            up_outcome: self.up_outcome,
            down_outcome: self.down_outcome,
        }
    }
}

/// The settings that the strategy goes by, all of one update.
#[derive(Debug, Clone, Copy, PartialEq, Eq, Structural)]
pub struct StrategySnapshot {
    pub generation: u64,
    pub momentum_window_ms: u64,
    pub momentum_threshold_usd: Binary64,
    pub buy_yes_momentum_threshold_usd: Binary64,
    pub buy_no_momentum_threshold_usd: Binary64,
    pub execution_latency_ms: u64,
    pub hold_ms: u64,
    pub exit_max_hold_ms: u64,
    pub exit_min_hold_ms: u64,
    pub exit_check_interval_ms: u64,
    pub exit_reversal_window_ms: u64,
    pub exit_reversal_threshold_usd: Binary64,
    pub exit_take_profit_net_usd: Binary64,
    pub exit_stop_loss_pct: Binary64,
    pub min_expected_price_move: Binary64,
    pub entry_slippage: Binary64,
    pub entry_confirmation_ms: u64,
    pub min_entry_bid_improvement: Binary64,
    pub min_exchange_shares: u64,
    pub min_progress: Binary64,
    pub max_progress: Binary64,
    pub max_spread: Binary64,
    pub min_price: Binary64,
    pub max_price: Binary64,
    pub max_notional_usd: Binary64,
    pub max_shares: u64,
    pub max_book_age_ms: u64,
}

impl StrategySnapshot {
    /// The settings before the first update.
    pub open spec fn initial(defaults: StrategyConfig, risk: RiskConfig) -> Self {
        StrategySnapshot {
            generation: 0,
            momentum_window_ms: defaults.momentum_window_ms,
            momentum_threshold_usd: defaults.momentum_threshold_usd,
            buy_yes_momentum_threshold_usd: defaults.buy_yes_momentum_threshold_usd,
            buy_no_momentum_threshold_usd: defaults.buy_no_momentum_threshold_usd,
            execution_latency_ms: defaults.execution_latency_ms,
            hold_ms: defaults.hold_ms,
            exit_max_hold_ms: defaults.exit_max_hold_ms,
            exit_min_hold_ms: defaults.exit_min_hold_ms,
            exit_check_interval_ms: defaults.exit_check_interval_ms,
            exit_reversal_window_ms: defaults.exit_reversal_window_ms,
            exit_reversal_threshold_usd: defaults.exit_reversal_threshold_usd,
            exit_take_profit_net_usd: defaults.exit_take_profit_net_usd,
            exit_stop_loss_pct: defaults.exit_stop_loss_pct,
            min_expected_price_move: defaults.min_expected_price_move,
            entry_slippage: defaults.entry_slippage,
            entry_confirmation_ms: 0,
            min_entry_bid_improvement: of_nat(0),
            min_exchange_shares: 1,
            min_progress: defaults.min_market_progress,
            max_progress: defaults.max_market_progress,
            max_spread: risk.max_spread,
            min_price: ratio(5, 100),
            max_price: ratio(95, 100),
            max_notional_usd: risk.max_notional_usd,
            max_shares: risk.max_shares,
            max_book_age_ms: defaults.max_book_age_ms,
        }
    }

    /// The settings after an update: what it does not speak of, the exit rules and the age of a
    /// book, stays.
    pub open spec fn updated(self, config: JavaStrategyConfig) -> Self {
        StrategySnapshot {
            generation: next_count(self.generation),
            momentum_window_ms: config.momentum_window_ms,
            momentum_threshold_usd: config.momentum_threshold_usd,
            buy_yes_momentum_threshold_usd: config.buy_yes_momentum_threshold_usd,
            buy_no_momentum_threshold_usd: config.buy_no_momentum_threshold_usd,
            execution_latency_ms: config.execution_latency_ms,
            hold_ms: config.hold_ms,
            min_expected_price_move: config.min_expected_price_move,
            entry_slippage: config.entry_slippage,
            entry_confirmation_ms: config.entry_confirmation_ms,
            min_entry_bid_improvement: config.min_entry_bid_improvement,
            min_exchange_shares: config.min_exchange_shares,
            min_progress: config.min_progress,
            max_progress: config.max_progress,
            max_spread: config.max_spread,
            min_price: config.min_price,
            max_price: config.max_price,
            max_notional_usd: config.max_notional_usd,
            max_shares: config.max_shares,
            ..self
        }
    }
}

/// The settings, and the version that they were sent under.
#[derive(Debug)]
pub struct StrategyStore {
    pub current: StrategySnapshot,
    pub configured: bool,
    pub config_version: Option<String>,
}

impl StrategyStore {
    /// The settings that are in force: none before the first update.
    pub open spec fn active(self) -> Option<StrategySnapshot> {
        if self.configured {
            Some(self.current)
        } else {
            None
        }
    }

    pub open spec fn has_version(self, expected: Seq<char>) -> bool {
        self.config_version matches Some(v) && v@ == expected
    }

    pub fn new(defaults: &StrategyConfig, risk: &RiskConfig) -> (r: Self)
        ensures
            r == (StrategyStore {
                current: StrategySnapshot::initial(*defaults, *risk),
                configured: false,
                config_version: None,
            }),
    {
        StrategyStore {
            current: StrategySnapshot {
                generation: 0,
                momentum_window_ms: defaults.momentum_window_ms,
                momentum_threshold_usd: defaults.momentum_threshold_usd,
                buy_yes_momentum_threshold_usd: defaults.buy_yes_momentum_threshold_usd,
                buy_no_momentum_threshold_usd: defaults.buy_no_momentum_threshold_usd,
                execution_latency_ms: defaults.execution_latency_ms,
                hold_ms: defaults.hold_ms,
                exit_max_hold_ms: defaults.exit_max_hold_ms,
                exit_min_hold_ms: defaults.exit_min_hold_ms,
                exit_check_interval_ms: defaults.exit_check_interval_ms,
                exit_reversal_window_ms: defaults.exit_reversal_window_ms,
                exit_reversal_threshold_usd: defaults.exit_reversal_threshold_usd,
                exit_take_profit_net_usd: defaults.exit_take_profit_net_usd,
                exit_stop_loss_pct: defaults.exit_stop_loss_pct,
                min_expected_price_move: defaults.min_expected_price_move,
                entry_slippage: defaults.entry_slippage,
                entry_confirmation_ms: 0,
                min_entry_bid_improvement: Binary64::from_u64(0),
                min_exchange_shares: 1,
                min_progress: defaults.min_market_progress,
                max_progress: defaults.max_market_progress,
                max_spread: risk.max_spread,
                min_price: Binary64::from_ratio(5, 100),
                max_price: Binary64::from_ratio(95, 100),
                max_notional_usd: risk.max_notional_usd,
                max_shares: risk.max_shares,
                max_book_age_ms: defaults.max_book_age_ms,
            },
            configured: false,
            config_version: None,
        }
    }

    /// Puts valid settings in force, and returns how many updates there were.
    pub fn update(&mut self, config: &JavaStrategyConfig) -> (r: Result<u64, &'static str>)
        ensures
            match config.verdict() {
                Ok(_) => {
                    &&& r == Ok::<u64, &'static str>(next_count(old(self).current.generation))
                    &&& *final(self) == (StrategyStore {
                        current: old(self).current.updated(*config),
                        configured: true,
                        config_version: Some(config.config_version),
                    })
                },
                Err(e) => {
                    &&& r == Err::<u64, &'static str>(e)
                    &&& *final(self) == *old(self)
                },
            },
    {
        match config.validate() {
            Ok(_) => {},
            Err(e) => return Err(e),
        }
        let generation: u64 = if self.current.generation == u64::MAX {
            0
        } else {
            self.current.generation + 1
        };
        self.current =
        StrategySnapshot {
            generation,
            momentum_window_ms: config.momentum_window_ms,
            momentum_threshold_usd: config.momentum_threshold_usd,
            buy_yes_momentum_threshold_usd: config.buy_yes_momentum_threshold_usd,
            buy_no_momentum_threshold_usd: config.buy_no_momentum_threshold_usd,
            execution_latency_ms: config.execution_latency_ms,
            hold_ms: config.hold_ms,
            min_expected_price_move: config.min_expected_price_move,
            entry_slippage: config.entry_slippage,
            entry_confirmation_ms: config.entry_confirmation_ms,
            min_entry_bid_improvement: config.min_entry_bid_improvement,
            min_exchange_shares: config.min_exchange_shares,
            min_progress: config.min_progress,
            max_progress: config.max_progress,
            max_spread: config.max_spread,
            min_price: config.min_price,
            max_price: config.max_price,
            max_notional_usd: config.max_notional_usd,
            max_shares: config.max_shares,
            ..self.current
        };
        self.config_version = Some(config.config_version.clone());
        self.configured = true;
        Ok(generation)
    }

    /// The settings that are in force.
    pub fn load(&self) -> (r: Option<StrategySnapshot>)
        ensures
            r == self.active(),
    {
        if self.configured {
            Some(self.current)
        } else {
            None
        }
    }

    /// The version that is in force.
    pub fn version(&self) -> (r: Option<String>)
        ensures
            r == self.config_version,
    {
        match &self.config_version {
            Some(v) => Some(v.clone()),
            None => None,
        }
    }

    pub fn version_matches(&self, expected: &str) -> (r: bool)
        ensures
            r == self.has_version(expected@),
    {
        match &self.config_version {
            Some(v) => same_text(v.as_str(), expected),
            None => false,
        }
    }
}

/// After an accepted update the store loads that update's settings and answers to its version,
/// and to no other.
pub proof fn law_update_publishes(store: StrategyStore, config: JavaStrategyConfig)
    requires
        config.verdict() is Ok,
    ensures
        ({
            let next = StrategyStore {
                current: store.current.updated(config),
                configured: true,
                config_version: Some(config.config_version),
            };
            &&& next.active() == Some(store.current.updated(config))
            &&& next.has_version(config.config_version@)
            &&& forall|other: Seq<char>|
                other != config.config_version@ ==> !next.has_version(other)
            &&& next.current.max_book_age_ms == store.current.max_book_age_ms
            &&& next.current.exit_max_hold_ms == store.current.exit_max_hold_ms
        }),
{
}

/// What an accepted update puts in force is within the limits that every entry is checked
/// against: prices and progress within zero and one, and sizes above zero.
pub proof fn law_accepted_settings_are_sound(config: JavaStrategyConfig)
    requires
        config.verdict() is Ok,
    ensures
        at_most(of_nat(0), config.min_price),
        less(config.min_price, config.max_price),
        at_most(config.max_price, of_nat(1)),
        at_most(of_nat(0), config.min_progress),
        less(config.min_progress, config.max_progress),
        at_most(config.max_progress, of_nat(1)),
        less(of_nat(0), config.max_notional_usd),
        config.max_shares > 0,
        config.min_exchange_shares > 0,
        config.entry_confirmation_ms > 0,
{
    reveal(less);
    reveal(at_most);
    crate::binary64::arith::lemma_of_nat_is_number(0);
    crate::binary64::arith::lemma_of_nat_is_number(1);
}

/// A number above zero that is not infinite.
pub open spec fn above_zero(value: Binary64) -> bool {
    value.finite() && value.scaled() > 0
}

/// A number of zero or more that is not infinite.
pub open spec fn not_below_zero(value: Binary64) -> bool {
    value.finite() && value.scaled() >= 0
}

/// A number from zero to a fifth.
pub open spec fn small_part(value: Binary64) -> bool {
    not_below_zero(value) && at_most(value, ratio(20, 100))
}

/// A lower and a higher number, both from zero to one.
pub open spec fn parts_of_one(low: Binary64, high: Binary64) -> bool {
    not_below_zero(low) && high.finite() && low.scaled() < high.scaled() && high.scaled()
        <= of_nat(1).scaled()
}

/// Settings are accepted exactly where every one of them makes sense.
pub proof fn law_accepted_settings(config: JavaStrategyConfig)
    ensures
        config.verdict() is Ok <==> {
            &&& !blank(config.config_version@)
            &&& encode_utf8(config.config_version@).len() <= 128
            &&& config.momentum_window_ms > 0
            &&& config.hold_ms > 0
            &&& above_zero(config.momentum_threshold_usd)
            &&& above_zero(config.buy_yes_momentum_threshold_usd)
            &&& above_zero(config.buy_no_momentum_threshold_usd)
            &&& above_zero(config.max_notional_usd)
            &&& above_zero(config.daily_loss_limit_usd)
            &&& config.max_shares > 0
            &&& not_below_zero(config.min_expected_price_move)
            &&& small_part(config.entry_slippage)
            &&& config.entry_confirmation_ms > 0
            &&& small_part(config.min_entry_bid_improvement)
            &&& config.min_exchange_shares > 0
            &&& parts_of_one(config.min_progress, config.max_progress)
            &&& not_below_zero(config.max_spread)
            &&& parts_of_one(config.min_price, config.max_price)
            &&& config.up_outcome@ == "YES"@
            &&& config.down_outcome@ == "NO"@
        },
{
    reveal(less);
    reveal(at_most);
    crate::binary64::arith::lemma_of_nat_zero();
    crate::binary64::arith::lemma_of_nat_is_number(0);
    crate::binary64::arith::lemma_of_nat_is_number(1);
    crate::binary64::arith::lemma_ratio_is_number(20, 100);
}

/// An update puts each of its settings in force under its own name, counts one update more, and
/// leaves the rules of the exit and the age of a book as they were.
pub proof fn law_updated_settings(s: StrategySnapshot, config: JavaStrategyConfig)
    ensures
        ({
            let next = s.updated(config);
            &&& s.generation < u64::MAX ==> next.generation == s.generation + 1
            &&& next.generation != s.generation
            &&& next.momentum_window_ms == config.momentum_window_ms
            &&& next.momentum_threshold_usd == config.momentum_threshold_usd
            &&& next.buy_yes_momentum_threshold_usd == config.buy_yes_momentum_threshold_usd
            &&& next.buy_no_momentum_threshold_usd == config.buy_no_momentum_threshold_usd
            &&& next.execution_latency_ms == config.execution_latency_ms
            &&& next.hold_ms == config.hold_ms
            &&& next.min_expected_price_move == config.min_expected_price_move
            &&& next.entry_slippage == config.entry_slippage
            &&& next.entry_confirmation_ms == config.entry_confirmation_ms
            &&& next.min_entry_bid_improvement == config.min_entry_bid_improvement
            &&& next.min_exchange_shares == config.min_exchange_shares
            &&& next.min_progress == config.min_progress
            &&& next.max_progress == config.max_progress
            &&& next.max_spread == config.max_spread
            &&& next.min_price == config.min_price
            &&& next.max_price == config.max_price
            &&& next.max_notional_usd == config.max_notional_usd
            &&& next.max_shares == config.max_shares
            &&& next.exit_max_hold_ms == s.exit_max_hold_ms
            &&& next.exit_min_hold_ms == s.exit_min_hold_ms
            &&& next.exit_check_interval_ms == s.exit_check_interval_ms
            &&& next.exit_reversal_window_ms == s.exit_reversal_window_ms
            &&& next.exit_reversal_threshold_usd == s.exit_reversal_threshold_usd
            &&& next.exit_take_profit_net_usd == s.exit_take_profit_net_usd
            &&& next.exit_stop_loss_pct == s.exit_stop_loss_pct
            &&& next.max_book_age_ms == s.max_book_age_ms
        }),
{
}

/// Before the first update the settings are those of the configuration, each under its own name.
pub proof fn law_initial_settings(defaults: StrategyConfig, risk: RiskConfig)
    ensures
        ({
            let s = StrategySnapshot::initial(defaults, risk);
            &&& s.generation == 0
            &&& s.momentum_window_ms == defaults.momentum_window_ms
            &&& s.buy_yes_momentum_threshold_usd == defaults.buy_yes_momentum_threshold_usd
            &&& s.buy_no_momentum_threshold_usd == defaults.buy_no_momentum_threshold_usd
            &&& s.momentum_threshold_usd == defaults.momentum_threshold_usd
            &&& s.execution_latency_ms == defaults.execution_latency_ms
            &&& s.hold_ms == defaults.hold_ms
            &&& s.exit_max_hold_ms == defaults.exit_max_hold_ms
            &&& s.exit_min_hold_ms == defaults.exit_min_hold_ms
            &&& s.exit_check_interval_ms == defaults.exit_check_interval_ms
            &&& s.exit_reversal_window_ms == defaults.exit_reversal_window_ms
            &&& s.exit_reversal_threshold_usd == defaults.exit_reversal_threshold_usd
            &&& s.exit_take_profit_net_usd == defaults.exit_take_profit_net_usd
            &&& s.exit_stop_loss_pct == defaults.exit_stop_loss_pct
            &&& s.min_expected_price_move == defaults.min_expected_price_move
            &&& s.entry_slippage == defaults.entry_slippage
            &&& s.min_progress == defaults.min_market_progress
            &&& s.max_progress == defaults.max_market_progress
            &&& s.max_spread == risk.max_spread
            &&& s.max_notional_usd == risk.max_notional_usd
            &&& s.max_shares == risk.max_shares
            &&& s.max_book_age_ms == defaults.max_book_age_ms
            &&& s.entry_confirmation_ms == 0
            &&& s.min_entry_bid_improvement == of_nat(0)
            &&& s.min_exchange_shares == 1
            &&& s.min_price == ratio(5, 100)
            &&& s.max_price == ratio(95, 100)
        }),
{
}

/// Completing settings keeps every one that was sent, and gives the others what they are by default.
pub proof fn law_completed_settings(sent: PartialStrategyConfig)
    ensures
        ({
            let c = sent.completed();
            &&& c.config_version == sent.config_version
            &&& c.momentum_window_ms == sent.momentum_window_ms
            &&& c.momentum_threshold_usd == sent.momentum_threshold_usd
            &&& c.execution_latency_ms == sent.execution_latency_ms
            &&& c.hold_ms == sent.hold_ms
            &&& c.min_progress == sent.min_progress
            &&& c.max_progress == sent.max_progress
            &&& c.max_spread == sent.max_spread
            &&& c.max_notional_usd == sent.max_notional_usd
            &&& c.max_shares == sent.max_shares
            &&& c.up_outcome == sent.up_outcome
            &&& c.down_outcome == sent.down_outcome
            &&& sent.buy_yes_momentum_threshold_usd matches Some(x)
                ==> c.buy_yes_momentum_threshold_usd == x
            &&& sent.buy_no_momentum_threshold_usd matches Some(x)
                ==> c.buy_no_momentum_threshold_usd == x
            &&& sent.min_expected_price_move matches Some(x) ==> c.min_expected_price_move == x
            &&& sent.entry_slippage matches Some(x) ==> c.entry_slippage == x
            &&& sent.entry_confirmation_ms matches Some(x) ==> c.entry_confirmation_ms == x
            &&& sent.min_entry_bid_improvement matches Some(x) ==> c.min_entry_bid_improvement == x
            &&& sent.min_exchange_shares matches Some(x) ==> c.min_exchange_shares == x
            &&& sent.min_price matches Some(x) ==> c.min_price == x
            &&& sent.max_price matches Some(x) ==> c.max_price == x
            &&& sent.daily_loss_limit_usd matches Some(x) ==> c.daily_loss_limit_usd == x
            &&& sent.buy_yes_momentum_threshold_usd is None ==> c.buy_yes_momentum_threshold_usd
                == sent.momentum_threshold_usd
            &&& sent.buy_no_momentum_threshold_usd is None ==> c.buy_no_momentum_threshold_usd
                == sent.momentum_threshold_usd
            &&& sent.min_expected_price_move is None ==> c.min_expected_price_move == ratio(5, 100)
            &&& sent.entry_slippage is None ==> c.entry_slippage == ratio(2, 100)
            &&& sent.entry_confirmation_ms is None ==> c.entry_confirmation_ms == 1_000
            &&& sent.min_entry_bid_improvement is None ==> c.min_entry_bid_improvement == ratio(
                1,
                100,
            )
            &&& sent.min_exchange_shares is None ==> c.min_exchange_shares == 5
            &&& sent.min_price is None ==> c.min_price == ratio(5, 100)
            &&& sent.max_price is None ==> c.max_price == ratio(95, 100)
            &&& sent.daily_loss_limit_usd is None ==> c.daily_loss_limit_usd == of_nat(500)
        }),
{
}

} // verus!
