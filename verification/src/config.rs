//! The engine's configuration.

use vstd::prelude::*;

use crate::binary64::model::{at_most, less, of_nat, opposite, ratio};
use crate::binary64::Binary64;
use crate::text::{
    blank, characters, compose, is_blank, lower_case, lowered, same_text, trim, trimmed,
};

verus! {

#[derive(Debug, Clone, Copy, PartialEq, Eq, Structural)]
pub enum ExecutionMode {
    DryRun,
    Live,
}

impl ExecutionMode {
    pub open spec fn label(self) -> &'static str {
        match self {
            ExecutionMode::DryRun => "dry_run",
            ExecutionMode::Live => "live",
        }
    }

    pub fn as_str(self) -> (r: &'static str)
        ensures
            r == self.label(),
    {
        match self {
            ExecutionMode::DryRun => "dry_run",
            ExecutionMode::Live => "live",
        }
    }
}

#[derive(Debug, Clone)]
pub struct MarketConfig {
    pub gamma_base_url: String,
    pub slug_prefix: String,
    pub interval_seconds: u64,
    pub discovery_poll_ms: u64,
}

#[derive(Debug, Clone, Copy, PartialEq, Eq, Structural)]
pub struct StrategyConfig {
    pub momentum_window_ms: u64,
    pub momentum_threshold_usd: Binary64,
    pub buy_yes_momentum_threshold_usd: Binary64,
    pub buy_no_momentum_threshold_usd: Binary64,
    pub execution_latency_ms: u64,
    pub hold_ms: u64,
    pub exit_max_hold_ms: u64,
    pub exit_min_hold_ms: u64,
    pub exit_check_interval_ms: u64,
    pub exit_reversal_window_ms: u64,
    pub exit_reversal_threshold_usd: Binary64,
    pub exit_take_profit_net_usd: Binary64,
    pub exit_stop_loss_pct: Binary64,
    pub min_expected_price_move: Binary64,
    pub entry_slippage: Binary64,
    pub min_market_progress: Binary64,
    pub max_market_progress: Binary64,
    pub max_book_age_ms: u64,
}

#[derive(Debug, Clone, Copy, PartialEq, Eq, Structural)]
pub struct RiskConfig {
    pub max_spread: Binary64,
    pub max_notional_usd: Binary64,
    pub max_shares: u64,
    pub max_open_positions: usize,
    pub daily_loss_limit_usd: Binary64,
}

#[derive(Debug, Clone)]
pub struct IntegrationConfig {
    pub java_audit_endpoint: Option<String>,
}

#[derive(Debug, Clone)]
pub struct ControlConfig {
    pub bind_addr: String,
}

/// How exits by other policies are simulated beside the real ones.
#[derive(Debug, Clone, Copy, PartialEq, Eq, Structural)]
pub struct ShadowConfig {
    pub shadow_exit_enabled: bool,
    pub shadow_execution_latency_ms: u64,
    pub shadow_maker_wait_ms: u64,
    pub shadow_cancel_latency_ms: u64,
    pub shadow_fallback_taker_latency_ms: u64,
    pub shadow_queue_ratio_threshold: Binary64,
}

#[derive(Debug, Clone)]
pub struct EngineConfig {
    pub execution_mode: ExecutionMode,
    pub market: MarketConfig,
    pub strategy: StrategyConfig,
    pub risk: RiskConfig,
    pub integration: IntegrationConfig,
    pub control: ControlConfig,
}

/// `low <= value <= high`, which no NaN is.
pub open spec fn in_range(value: Binary64, low: Binary64, high: Binary64) -> bool {
    at_most(low, value) && at_most(value, high)
}

impl MarketConfig {
    pub open spec fn sound(self) -> bool {
        &&& self.gamma_base_url@.len() > 0
        &&& self.slug_prefix@.len() > 0
        &&& self.interval_seconds != 0
        &&& self.discovery_poll_ms != 0
    }

    fn is_sound(&self) -> (r: bool)
        ensures
            r == self.sound(),
    {
        !self.gamma_base_url.as_str().is_empty() && !self.slug_prefix.as_str().is_empty()
            && self.interval_seconds != 0 && self.discovery_poll_ms != 0
    }
}

impl StrategyConfig {
    /// Every limit of the strategy makes sense.
    pub open spec fn sound(self) -> bool {
        let zero = of_nat(0);
        &&& self.momentum_window_ms != 0
        &&& !at_most(self.momentum_threshold_usd, zero)
        &&& !at_most(self.buy_yes_momentum_threshold_usd, zero)
        &&& !at_most(self.buy_no_momentum_threshold_usd, zero)
        &&& self.hold_ms != 0
        &&& self.exit_max_hold_ms != 0
        &&& self.exit_check_interval_ms != 0
        &&& self.exit_reversal_window_ms != 0
        &&& self.exit_min_hold_ms <= self.exit_max_hold_ms
        &&& self.exit_reversal_threshold_usd.finite()
        &&& !at_most(self.exit_reversal_threshold_usd, zero)
        &&& self.exit_take_profit_net_usd.finite()
        &&& self.exit_stop_loss_pct.finite()
        &&& !at_most(zero, self.exit_stop_loss_pct)
        &&& !less(self.exit_stop_loss_pct, opposite(of_nat(100)))
        &&& self.min_expected_price_move.finite()
        &&& !less(self.min_expected_price_move, zero)
        &&& self.entry_slippage.finite()
        &&& in_range(self.entry_slippage, zero, ratio(20, 100))
        &&& at_most(zero, self.min_market_progress)
        &&& less(self.min_market_progress, of_nat(1))
        &&& in_range(self.max_market_progress, zero, of_nat(1))
        &&& !at_most(self.max_market_progress, self.min_market_progress)
    }

    fn is_sound(&self) -> (r: bool)
        ensures
            r == self.sound(),
    {
        let zero: Binary64 = Binary64::from_u64(0);
        let one: Binary64 = Binary64::from_u64(1);
        self.momentum_window_ms != 0 && !self.momentum_threshold_usd.le(zero)
            && !self.buy_yes_momentum_threshold_usd.le(zero)
            && !self.buy_no_momentum_threshold_usd.le(zero) && self.hold_ms != 0
            && self.exit_max_hold_ms != 0 && self.exit_check_interval_ms != 0
            && self.exit_reversal_window_ms != 0 && self.exit_min_hold_ms <= self.exit_max_hold_ms
            && self.exit_reversal_threshold_usd.is_finite() && !self.exit_reversal_threshold_usd.le(
            zero,
        ) && self.exit_take_profit_net_usd.is_finite() && self.exit_stop_loss_pct.is_finite()
            && !zero.le(self.exit_stop_loss_pct) && !self.exit_stop_loss_pct.lt(
            Binary64::from_u64(100).neg(),
        ) && self.min_expected_price_move.is_finite() && !self.min_expected_price_move.lt(zero)
            && self.entry_slippage.is_finite() && zero.le(self.entry_slippage)
            && self.entry_slippage.le(Binary64::from_ratio(20, 100)) && zero.le(
            self.min_market_progress,
        ) && self.min_market_progress.lt(one) && zero.le(self.max_market_progress)
            && self.max_market_progress.le(one) && !self.max_market_progress.le(
            self.min_market_progress,
        )
    }
}

impl RiskConfig {
    /// Every risk limit is above zero.
    pub open spec fn sound(self) -> bool {
        let zero = of_nat(0);
        &&& !at_most(self.max_spread, zero)
        &&& !at_most(self.max_notional_usd, zero)
        &&& self.max_shares != 0
        &&& self.max_open_positions != 0
        &&& !at_most(self.daily_loss_limit_usd, zero)
    }

    fn is_sound(&self) -> (r: bool)
        ensures
            r == self.sound(),
    {
        let zero: Binary64 = Binary64::from_u64(0);
        !self.max_spread.le(zero) && !self.max_notional_usd.le(zero) && self.max_shares != 0
            && self.max_open_positions != 0 && !self.daily_loss_limit_usd.le(zero)
    }
}

impl EngineConfig {
    /// The first part of the configuration that makes no sense.
    pub open spec fn verdict(self) -> Result<(), &'static str> {
        if !self.market.sound() {
            Err("invalid market discovery config")
        } else if !self.strategy.sound() {
            Err("invalid strategy limits")
        } else if !self.risk.sound() {
            Err("invalid risk limits")
        } else if self.control.bind_addr@.len() == 0 {
            Err("invalid control config")
        } else {
            Ok(())
        }
    }

    pub fn validate(&self) -> (r: Result<(), &'static str>)
        ensures
            r == self.verdict(),
    {
        if !self.market.is_sound() {
            return Err("invalid market discovery config");
        }
        if !self.strategy.is_sound() {
            return Err("invalid strategy limits");
        }
        if !self.risk.is_sound() {
            return Err("invalid risk limits");
        }
        if self.control.bind_addr.as_str().is_empty() {
            return Err("invalid control config");
        }
        Ok(())
    }

    /// The configuration as it was read, with the execution mode that the environment asks for,
    /// if it is valid.
    pub fn resolve(self, execution_mode: Option<ExecutionMode>) -> (r: Result<Self, &'static str>)
        ensures
            match self.verdict() {
                Ok(_) => r == Ok::<Self, &'static str>(
                    (EngineConfig {
                        execution_mode: match execution_mode {
                            Some(mode) => mode,
                            None => self.execution_mode,
                        },
                        ..self
                    }),
                ),
                Err(e) => r == Err::<Self, &'static str>(e),
            },
    {
        match self.validate() {
            Ok(_) => {
                let mode: ExecutionMode = match execution_mode {
                    Some(mode) => mode,
                    None => self.execution_mode,
                };
                Ok(EngineConfig { execution_mode: mode, ..self })
            },
            Err(e) => Err(e),
        }
    }
}

/// The mode that a word names, whatever its case and the white space around it.
pub open spec fn mode_of(word: Seq<char>) -> Option<ExecutionMode> {
    let w = lowered(trimmed(word));
    if w == "dry_run"@ || w == "dry-run"@ || w == "dryrun"@ {
        Some(ExecutionMode::DryRun)
    } else if w == "live"@ {
        Some(ExecutionMode::Live)
    } else {
        None
    }
}

/// The first of two settings that is more than white space.
pub open spec fn first_set(a: Option<Seq<char>>, b: Option<Seq<char>>) -> Option<Seq<char>> {
    match a {
        Some(a) if !blank(a) => Some(a),
        _ => match b {
            Some(b) if !blank(b) => Some(b),
            _ => None,
        },
    }
}

pub open spec fn text_of(s: Option<&str>) -> Option<Seq<char>> {
    match s {
        Some(s) => Some(s@),
        None => None,
    }
}

/// A setting that is more than white space.
pub fn nonempty(value: Option<&str>) -> (r: Option<&str>)
    ensures
        r == (match value {
            Some(s) if !blank(s@) => value,
            _ => None,
        }),
{
    match value {
        Some(s) => {
            if is_blank(s) {
                None
            } else {
                value
            }
        },
        None => None,
    }
}

/// The execution mode that the environment asks for: the engine's own setting goes before the
/// general one, and a word that names no mode is an error.
pub fn execution_mode_override(
    engine_setting: Option<&str>,
    general_setting: Option<&str>,
) -> (r: Result<Option<ExecutionMode>, &'static str>)
    ensures
        match first_set(text_of(engine_setting), text_of(general_setting)) {
            None => r == Ok::<Option<ExecutionMode>, &'static str>(None),
            Some(word) => match mode_of(word) {
                Some(mode) => r == Ok::<Option<ExecutionMode>, &'static str>(Some(mode)),
                None => r == Err::<Option<ExecutionMode>, &'static str>(
                    "invalid POLYGO_ENGINE_EXECUTION_MODE",
                ),
            },
        },
{
    let chosen: Option<&str> = match nonempty(engine_setting) {
        Some(s) => Some(s),
        None => nonempty(general_setting),
    };
    match chosen {
        None => Ok(None),
        Some(raw) => {
            let c: Vec<char> = characters(raw);
            let t: Vec<char> = trim(c.as_slice());
            let bare: String = compose(t.as_slice());
            let low: Vec<char> = lower_case(bare.as_str());
            let word: String = compose(low.as_slice());
            let w: &str = word.as_str();
            if same_text(w, "dry_run") || same_text(w, "dry-run") || same_text(w, "dryrun") {
                Ok(Some(ExecutionMode::DryRun))
            } else if same_text(w, "live") {
                Ok(Some(ExecutionMode::Live))
            } else {
                Err("invalid POLYGO_ENGINE_EXECUTION_MODE")
            }
        },
    }
}

/// A configuration is accepted exactly where the market can be looked for, every limit of the strategy
/// and of the risk makes sense, and the control plane has an address.
pub proof fn law_accepted_config(config: EngineConfig)
    requires
        !config.strategy.momentum_threshold_usd.nan(),
        !config.strategy.buy_yes_momentum_threshold_usd.nan(),
        !config.strategy.buy_no_momentum_threshold_usd.nan(),
        !config.risk.max_spread.nan(),
        !config.risk.max_notional_usd.nan(),
        !config.risk.daily_loss_limit_usd.nan(),
    ensures
        config.verdict() is Ok <==> {
            let m = config.market;
            let s = config.strategy;
            let r = config.risk;
            &&& m.gamma_base_url@.len() > 0
            &&& m.slug_prefix@.len() > 0
            &&& m.interval_seconds > 0
            &&& m.discovery_poll_ms > 0
            &&& s.momentum_window_ms > 0
            &&& s.momentum_threshold_usd.scaled() > 0
            &&& s.buy_yes_momentum_threshold_usd.scaled() > 0
            &&& s.buy_no_momentum_threshold_usd.scaled() > 0
            &&& s.hold_ms > 0
            &&& s.exit_max_hold_ms > 0
            &&& s.exit_min_hold_ms <= s.exit_max_hold_ms
            &&& s.exit_check_interval_ms > 0
            &&& s.exit_reversal_window_ms > 0
            &&& s.exit_reversal_threshold_usd.finite()
            &&& s.exit_reversal_threshold_usd.scaled() > 0
            &&& s.exit_take_profit_net_usd.finite()
            &&& s.exit_stop_loss_pct.finite()
            &&& -of_nat(100).scaled() <= s.exit_stop_loss_pct.scaled() < 0
            &&& s.min_expected_price_move.finite()
            &&& s.min_expected_price_move.scaled() >= 0
            &&& s.entry_slippage.finite()
            &&& 0 <= s.entry_slippage.scaled() <= ratio(20, 100).scaled()
            &&& !s.min_market_progress.nan()
            &&& !s.max_market_progress.nan()
            &&& 0 <= s.min_market_progress.scaled() < s.max_market_progress.scaled()
                <= of_nat(1).scaled()
            &&& r.max_spread.scaled() > 0
            &&& r.max_notional_usd.scaled() > 0
            &&& r.max_shares > 0
            &&& r.max_open_positions > 0
            &&& r.daily_loss_limit_usd.scaled() > 0
            &&& config.control.bind_addr@.len() > 0
        },
{
    reveal(less);
    reveal(at_most);
    crate::binary64::arith::lemma_of_nat_zero();
    crate::binary64::arith::lemma_of_nat_is_number(0);
    crate::binary64::arith::lemma_of_nat_is_number(1);
    crate::binary64::arith::lemma_of_nat_is_number(100);
    crate::binary64::arith::lemma_ratio_is_number(20, 100);
    crate::binary64::close::lemma_opposite(of_nat(100));
}

/// The engine's own setting goes before the general one wherever it is more than white space.
pub proof fn law_first_setting(a: Option<Seq<char>>, b: Option<Seq<char>>)
    ensures
        ({
            let own = a is Some && !blank(a->0);
            let general = b is Some && !blank(b->0);
            &&& own ==> first_set(a, b) == a
            &&& !own && general ==> first_set(a, b) == b
            &&& !own && !general ==> first_set(a, b) is None
        }),
{
}

/// A word names a mode whatever its case and the white space around it, and no other word does.
pub proof fn law_mode_names(word: Seq<char>)
    ensures
        match mode_of(word) {
            Some(ExecutionMode::DryRun) => {
                ||| lowered(trimmed(word)) == "dry_run"@
                ||| lowered(trimmed(word)) == "dry-run"@
                ||| lowered(trimmed(word)) == "dryrun"@
            },
            Some(ExecutionMode::Live) => lowered(trimmed(word)) == "live"@,
            None => {
                &&& lowered(trimmed(word)) != "dry_run"@
                &&& lowered(trimmed(word)) != "dry-run"@
                &&& lowered(trimmed(word)) != "dryrun"@
                &&& lowered(trimmed(word)) != "live"@
            },
        },
{
}

} // verus!
