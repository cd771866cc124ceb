//! The open position, the day's result and the fees.

use vstd::prelude::*;

use crate::binary64::arith::{lemma_nearest_zero, lemma_of_nat_zero};
use crate::binary64::close::{lemma_adding_nothing, lemma_opposite, lemma_times_nothing};
use crate::binary64::exact::{
    lemma_difference_with_itself, lemma_rounded, lemma_whole_is_exact, lemma_whole_is_round,
    lemma_whole_part, lemma_whole_product, lemma_whole_quotient,
};
use crate::binary64::model::{
    abs_nat, encode, mag_value, minus, of_nat, opposite, over, plus, ratio, rounded, times, unit,
    whole_i64, whole_u64, HIDDEN,
};
use crate::binary64::Binary64;
use crate::time::{age, now_ms};

verus! {

/// `value` rounded to five decimal places.
pub open spec fn five_places(value: Binary64) -> Binary64 {
    over(rounded(times(value, of_nat(100_000))), of_nat(100_000))
}

/// The exchange's fee on a trade that takes liquidity.
pub open spec fn fee_of(shares: Binary64, price: Binary64) -> Binary64 {
    five_places(times(times(times(shares, ratio(7, 100)), price), minus(of_nat(1), price)))
}

/// What `shares` gained between two prices, before fees.
pub open spec fn gross_of(entry: Binary64, exit: Binary64, shares: Binary64) -> Binary64 {
    five_places(times(minus(exit, entry), shares))
}

/// What `shares` gained between two prices, after the fees of both trades.
pub open spec fn net_of(entry: Binary64, exit: Binary64, shares: Binary64) -> Binary64 {
    five_places(
        minus(minus(gross_of(entry, exit, shares), fee_of(shares, entry)), fee_of(shares, exit)),
    )
}

/// Dollars in millionths, not below zero.
pub open spec fn microusd(value: Binary64) -> u64 {
    whole_u64(rounded(times(value, of_nat(1_000_000))))
}

/// Dollars in millionths, of either sign.
pub open spec fn signed_microusd(value: Binary64) -> i64 {
    whole_i64(rounded(times(value, of_nat(1_000_000))))
}

pub open spec fn day_of(timestamp_ms: u64) -> u64 {
    (timestamp_ms as int / 86_400_000) as u64
}

/// The result at which a day's trading ends: the loss limit with its sign turned, both in 64-bit
/// two's complement.
pub open spec fn loss_floor(limit: u64) -> int {
    if limit <= 0x8000_0000_0000_0000 {
        -(limit as int)
    } else {
        0x1_0000_0000_0000_0000 - limit
    }
}

/// The sum in 64-bit two's complement.
pub open spec fn wrapped_sum(a: i64, b: i64) -> int {
    let s = a + b;
    if s > i64::MAX {
        s - 0x1_0000_0000_0000_0000
    } else if s < i64::MIN {
        s + 0x1_0000_0000_0000_0000
    } else {
        s
    }
}

#[derive(Debug, Clone, Copy, PartialEq, Eq, Structural)]
pub struct ClosedPosition {
    pub entry_price: Binary64,
    pub exit_price: Binary64,
    pub shares: u64,
    pub gross_pnl: Binary64,
    pub entry_fee: Binary64,
    pub exit_fee: Binary64,
    pub net_pnl: Binary64,
}

#[derive(Debug, Clone, Copy, PartialEq, Eq, Structural)]
pub struct ClosedLivePosition {
    pub entry_price: Binary64,
    pub exit_price: Binary64,
    pub shares: Binary64,
    pub gross_pnl: Binary64,
    pub entry_fee: Binary64,
    pub exit_fee: Binary64,
    pub net_pnl: Binary64,
}

#[derive(Debug, Clone, Copy, PartialEq, Eq, Structural)]
pub struct ActivePositionSnapshot {
    pub active: bool,
    pub opened: bool,
    pub position_id: u64,
    pub age_ms: u64,
}

/// Whether a position is reserved or open, and what trading has gained so far.
#[derive(Debug)]
pub struct EngineState {
    pub open_or_reserved: usize,
    pub next_position_id: u64,
    pub max_open_positions: usize,
    pub reserved_at_ms: u64,
    pub opened_position_id: u64,
    pub daily_loss_limit_microusd: u64,
    pub daily_epoch_day: u64,
    pub daily_pnl_microusd: i64,
    pub total_pnl_microusd: i64,
    pub total_trades: u64,
}

impl EngineState {
    /// At most one position is reserved or open.
    pub open spec fn well_formed(self) -> bool {
        self.open_or_reserved <= 1
    }

    /// The state at the beginning of trading.
    pub open spec fn fresh(max_open_positions: usize, limit: Binary64, now: u64) -> Self {
        EngineState {
            open_or_reserved: 0,
            next_position_id: 1,
            max_open_positions,
            reserved_at_ms: 0,
            opened_position_id: 0,
            daily_loss_limit_microusd: microusd(limit),
            daily_epoch_day: day_of(now),
            daily_pnl_microusd: 0,
            total_pnl_microusd: 0,
            total_trades: 0,
        }
    }

    /// The state with the day's result begun anew where the day has changed.
    pub open spec fn refreshed(self, now: u64) -> Self {
        if self.daily_epoch_day == day_of(now) {
            self
        } else {
            EngineState { daily_epoch_day: day_of(now), daily_pnl_microusd: 0, ..self }
        }
    }

    /// The day's loss has reached its limit.
    pub open spec fn exhausted(self) -> bool {
        self.daily_pnl_microusd <= loss_floor(self.daily_loss_limit_microusd)
    }

    /// A position may be reserved.
    pub open spec fn vacant(self) -> bool {
        self.open_or_reserved == 0 && self.max_open_positions > 0
    }

    /// What a request for a reservation is answered, on the day of `self`.
    pub open spec fn reservation(self) -> Result<(), &'static str> {
        if self.exhausted() {
            Err("daily_loss_limit")
        } else if self.vacant() {
            Ok(())
        } else {
            Err("position_active")
        }
    }

    /// The state after a request for a reservation.
    pub open spec fn after_reserve(self, checked_at: u64, reserved_at: u64) -> Self {
        let s = self.refreshed(checked_at);
        if s.reservation() is Ok {
            EngineState {
                open_or_reserved: 1,
                reserved_at_ms: reserved_at,
                opened_position_id: 0,
                ..s
            }
        } else {
            s
        }
    }

    /// The state without the reservation.
    pub open spec fn released(self) -> Self {
        EngineState {
            opened_position_id: 0,
            reserved_at_ms: 0,
            open_or_reserved: if self.open_or_reserved == 0 {
                usize::MAX
            } else {
                (self.open_or_reserved - 1) as usize
            },
            ..self
        }
    }

    /// The state once the reserved position is open.
    pub open spec fn opened(self) -> Self {
        EngineState {
            total_trades: next_count(self.total_trades),
            next_position_id: next_count(self.next_position_id),
            opened_position_id: self.next_position_id,
            ..self
        }
    }

    /// The state after a position that gained `net_pnl` is closed.
    pub open spec fn closed(self, net_pnl: Binary64, now: u64) -> Self {
        let s = self.refreshed(now);
        EngineState {
            daily_pnl_microusd: wrapped_sum(
                s.daily_pnl_microusd,
                signed_microusd(net_pnl),
            ) as i64,
            total_pnl_microusd: wrapped_sum(
                s.total_pnl_microusd,
                signed_microusd(net_pnl),
            ) as i64,
            ..s
        }.released()
    }

    /// What is active at a moment.
    pub open spec fn active_at(self, now: u64) -> ActivePositionSnapshot {
        let active = self.open_or_reserved > 0;
        ActivePositionSnapshot {
            active,
            opened: self.opened_position_id > 0,
            position_id: self.opened_position_id,
            age_ms: if active && self.reserved_at_ms > 0 {
                age(now, self.reserved_at_ms)
            } else {
                0
            },
        }
    }

    /// The state at the beginning of trading, on the day of `now`.
    pub fn new_at(max_open_positions: usize, daily_loss_limit_usd: Binary64, now: u64) -> (r: Self)
        ensures
            r == Self::fresh(max_open_positions, daily_loss_limit_usd, now),
            r.well_formed(),
    {
        EngineState {
            open_or_reserved: 0,
            next_position_id: 1,
            max_open_positions,
            reserved_at_ms: 0,
            opened_position_id: 0,
            daily_loss_limit_microusd: to_microusd(daily_loss_limit_usd),
            daily_epoch_day: epoch_day(now),
            daily_pnl_microusd: 0,
            total_pnl_microusd: 0,
            total_trades: 0,
        }
    }

    /// The state at the beginning of trading, today.
    pub fn new(max_open_positions: usize, daily_loss_limit_usd: Binary64) -> (r: Self)
        ensures
            exists|now: u64| r == Self::fresh(max_open_positions, daily_loss_limit_usd, now),
            r.well_formed(),
    {
        let now: u64 = now_ms();
        let r: Self = Self::new_at(max_open_positions, daily_loss_limit_usd, now);
        assert(r == Self::fresh(max_open_positions, daily_loss_limit_usd, now));
        r
    }

    /// Reserves the position, where the day's loss and the open position let it: the day is
    /// told by `checked_at`, and the reservation is dated `reserved_at`.
    pub fn try_reserve_at(&mut self, checked_at: u64, reserved_at: u64) -> (r: Result<
        (),
        &'static str,
    >)
        ensures
            r == old(self).refreshed(checked_at).reservation(),
            *final(self) == old(self).after_reserve(checked_at, reserved_at),
            old(self).well_formed() ==> final(self).well_formed(),
    {
        self.refresh_daily_pnl(checked_at);
        if self.loss_limit_reached() {
            return Err("daily_loss_limit");
        }
        if self.open_or_reserved == 0 && self.max_open_positions > 0 {
            self.open_or_reserved = 1;
            self.reserved_at_ms = reserved_at;
            self.opened_position_id = 0;
            Ok(())
        } else {
            Err("position_active")
        }
    }

    /// Reserves the position now.
    pub fn try_reserve(&mut self) -> (r: Result<(), &'static str>)
        ensures
            exists|checked_at: u64, reserved_at: u64|
                {
                    &&& r == #[trigger] old(self).refreshed(checked_at).reservation()
                    &&& *final(self) == #[trigger] old(self).after_reserve(checked_at, reserved_at)
                },
            old(self).well_formed() ==> final(self).well_formed(),
    {
        let checked_at: u64 = now_ms();
        let reserved_at: u64 = now_ms();
        let r: Result<(), &'static str> = self.try_reserve_at(checked_at, reserved_at);
        assert(r == old(self).refreshed(checked_at).reservation());
        assert(*self == old(self).after_reserve(checked_at, reserved_at));
        r
    }

    fn loss_limit_reached(&self) -> (r: bool)
        ensures
            r == self.exhausted(),
    {
        let limit: u64 = self.daily_loss_limit_microusd;
        let floor: i128 = if limit <= 0x8000_0000_0000_0000 {
            -(limit as i128)
        } else {
            0x1_0000_0000_0000_0000 - limit as i128
        };
        self.daily_pnl_microusd as i128 <= floor
    }

    /// Gives the reservation up.
    pub fn release_reservation(&mut self)
        ensures
            *final(self) == old(self).released(),
            old(self).open_or_reserved == 1 ==> final(self).well_formed(),
    {
        self.opened_position_id = 0;
        self.reserved_at_ms = 0;
        self.open_or_reserved = if self.open_or_reserved == 0 {
            usize::MAX
        } else {
            self.open_or_reserved - 1
        };
    }

    /// What is active at a moment.
    pub fn active_snapshot_at(&self, now: u64) -> (r: ActivePositionSnapshot)
        ensures
            r == self.active_at(now),
    {
        let active: bool = self.open_or_reserved > 0;
        ActivePositionSnapshot {
            active,
            opened: self.opened_position_id > 0,
            position_id: self.opened_position_id,
            age_ms: if active && self.reserved_at_ms > 0 {
                now.saturating_sub(self.reserved_at_ms)
            } else {
                0
            },
        }
    }

    /// What is active now.
    pub fn active_snapshot(&self) -> (r: ActivePositionSnapshot)
        ensures
            exists|now: u64| r == #[trigger] self.active_at(now),
    {
        let now: u64 = now_ms();
        self.active_snapshot_at(now)
    }

    pub fn set_daily_loss_limit_usd(&mut self, daily_loss_limit_usd: Binary64)
        ensures
            *final(self) == (EngineState {
                daily_loss_limit_microusd: microusd(daily_loss_limit_usd),
                ..*old(self)
            }),
    {
        self.daily_loss_limit_microusd = to_microusd(daily_loss_limit_usd);
    }

    /// Opens the reserved position, and returns its number.
    pub fn open_reserved(&mut self) -> (r: u64)
        ensures
            r == old(self).next_position_id,
            *final(self) == old(self).opened(),
    {
        self.total_trades = incremented(self.total_trades);
        let position_id: u64 = self.next_position_id;
        self.next_position_id = incremented(position_id);
        self.opened_position_id = position_id;
        position_id
    }

    /// Closes a simulated position.
    pub fn close_at(
        &mut self,
        entry_price: Binary64,
        exit_price: Binary64,
        shares: u64,
        now: u64,
    ) -> (r: ClosedPosition)
        ensures
            r == closed_position(entry_price, exit_price, shares),
            *final(self) == old(self).closed(r.net_pnl, now),
            old(self).open_or_reserved == 1 ==> final(self).well_formed(),
    {
        let size: Binary64 = Binary64::from_u64(shares);
        let gross_pnl: Binary64 = round_5(exit_price.sub(entry_price).mul(size));
        let entry_fee: Binary64 = taker_fee(shares, entry_price);
        let exit_fee: Binary64 = taker_fee(shares, exit_price);
        let net_pnl: Binary64 = round_5(gross_pnl.sub(entry_fee).sub(exit_fee));
        self.record_close(net_pnl, now);
        ClosedPosition { entry_price, exit_price, shares, gross_pnl, entry_fee, exit_fee, net_pnl }
    }

    /// Closes a simulated position now.
    pub fn close(&mut self, entry_price: Binary64, exit_price: Binary64, shares: u64) -> (r:
        ClosedPosition)
        ensures
            r == closed_position(entry_price, exit_price, shares),
            exists|now: u64| *final(self) == #[trigger] old(self).closed(r.net_pnl, now),
            old(self).open_or_reserved == 1 ==> final(self).well_formed(),
    {
        let now: u64 = now_ms();
        self.close_at(entry_price, exit_price, shares, now)
    }

    /// Closes a position that was traded on the exchange.
    pub fn close_live_at(
        &mut self,
        entry_price: Binary64,
        exit_price: Binary64,
        shares: Binary64,
        now: u64,
    ) -> (r: ClosedLivePosition)
        ensures
            r == closed_live_position(entry_price, exit_price, shares),
            *final(self) == old(self).closed(r.net_pnl, now),
            old(self).open_or_reserved == 1 ==> final(self).well_formed(),
    {
        let gross_pnl: Binary64 = round_5(exit_price.sub(entry_price).mul(shares));
        let entry_fee: Binary64 = taker_fee_decimal(shares, entry_price);
        let exit_fee: Binary64 = taker_fee_decimal(shares, exit_price);
        let net_pnl: Binary64 = round_5(gross_pnl.sub(entry_fee).sub(exit_fee));
        self.record_close(net_pnl, now);
        ClosedLivePosition {
            entry_price,
            exit_price,
            shares: round_5(shares),
            gross_pnl,
            entry_fee,
            exit_fee,
            net_pnl,
        }
    }

    /// Closes a position that was traded on the exchange, now.
    pub fn close_live(
        &mut self,
        entry_price: Binary64,
        exit_price: Binary64,
        shares: Binary64,
    ) -> (r: ClosedLivePosition)
        ensures
            r == closed_live_position(entry_price, exit_price, shares),
            exists|now: u64| *final(self) == #[trigger] old(self).closed(r.net_pnl, now),
            old(self).open_or_reserved == 1 ==> final(self).well_formed(),
    {
        let now: u64 = now_ms();
        self.close_live_at(entry_price, exit_price, shares, now)
    }

    fn record_close(&mut self, net_pnl: Binary64, now: u64)
        ensures
            *final(self) == old(self).closed(net_pnl, now),
    {
        self.refresh_daily_pnl(now);
        self.daily_pnl_microusd = add_signed_microusd(self.daily_pnl_microusd, net_pnl);
        self.total_pnl_microusd = add_signed_microusd(self.total_pnl_microusd, net_pnl);
        self.release_reservation();
    }

    fn refresh_daily_pnl(&mut self, now: u64)
        ensures
            *final(self) == old(self).refreshed(now),
    {
        let today: u64 = epoch_day(now);
        if self.daily_epoch_day != today {
            self.daily_epoch_day = today;
            self.daily_pnl_microusd = 0;
        }
    }
}

/// What closing a simulated position reports.
pub open spec fn closed_position(entry: Binary64, exit: Binary64, shares: u64) -> ClosedPosition {
    let size = of_nat(shares as nat);
    ClosedPosition {
        entry_price: entry,
        exit_price: exit,
        shares,
        gross_pnl: gross_of(entry, exit, size),
        entry_fee: fee_of(size, entry),
        exit_fee: fee_of(size, exit),
        net_pnl: net_of(entry, exit, size),
    }
}

/// What closing a traded position reports.
pub open spec fn closed_live_position(
    entry: Binary64,
    exit: Binary64,
    shares: Binary64,
) -> ClosedLivePosition {
    ClosedLivePosition {
        entry_price: entry,
        exit_price: exit,
        shares: five_places(shares),
        gross_pnl: gross_of(entry, exit, shares),
        entry_fee: fee_of(shares, entry),
        exit_fee: fee_of(shares, exit),
        net_pnl: net_of(entry, exit, shares),
    }
}

/// The next value of a counter that begins again after its largest value.
pub open spec fn next_count(n: u64) -> u64 {
    if n == u64::MAX {
        0
    } else {
        (n + 1) as u64
    }
}

fn incremented(n: u64) -> (r: u64)
    ensures
        r == next_count(n),
{
    if n == u64::MAX {
        0
    } else {
        n + 1
    }
}

/// The exchange's fee on a whole number of shares.
pub fn taker_fee(shares: u64, price: Binary64) -> (r: Binary64)
    ensures
        r == fee_of(of_nat(shares as nat), price),
{
    taker_fee_decimal(Binary64::from_u64(shares), price)
}

/// The exchange's fee on a trade that takes liquidity.
pub fn taker_fee_decimal(shares: Binary64, price: Binary64) -> (r: Binary64)
    ensures
        r == fee_of(shares, price),
{
    round_5(
        shares.mul(Binary64::from_ratio(7, 100)).mul(price).mul(Binary64::from_u64(1).sub(price)),
    )
}

/// A value rounded to five decimal places.
pub fn round_5(value: Binary64) -> (r: Binary64)
    ensures
        r == five_places(value),
{
    value.mul(Binary64::from_u64(100_000)).round().div(Binary64::from_u64(100_000))
}

/// A value rounded to five decimal places, where there is one.
pub fn round_5_some(value: Option<Binary64>) -> (r: Option<Binary64>)
    ensures
        r == five_places_some(value),
{
    match value {
        Some(value) => Some(round_5(value)),
        None => None,
    }
}

pub open spec fn five_places_some(value: Option<Binary64>) -> Option<Binary64> {
    match value {
        Some(value) => Some(five_places(value)),
        None => None,
    }
}

fn to_microusd(value: Binary64) -> (r: u64)
    ensures
        r == microusd(value),
{
    value.mul(Binary64::from_u64(1_000_000)).round().to_u64()
}

fn epoch_day(timestamp_ms: u64) -> (r: u64)
    ensures
        r == day_of(timestamp_ms),
{
    timestamp_ms / 86_400_000
}

fn add_signed_microusd(target: i64, value: Binary64) -> (r: i64)
    ensures
        r == wrapped_sum(target, signed_microusd(value)),
{
    let delta: i64 = value.mul(Binary64::from_u64(1_000_000)).round().to_i64();
    let s: i128 = target as i128 + delta as i128;
    if s > 0x7fff_ffff_ffff_ffff {
        (s - 0x1_0000_0000_0000_0000) as i64
    } else if s < -0x8000_0000_0000_0000 {
        (s + 0x1_0000_0000_0000_0000) as i64
    } else {
        s as i64
    }
}

/// While a position is reserved or open, no other is reserved, whatever the time.
pub proof fn law_single_position(s: EngineState, checked_at: u64, reserved_at: u64)
    requires
        s.open_or_reserved != 0,
    ensures
        s.refreshed(checked_at).reservation() is Err,
        s.after_reserve(checked_at, reserved_at).open_or_reserved == s.open_or_reserved,
{
}

/// A granted reservation excludes every other until it is released or closed, after which the
/// position is free again.
pub proof fn law_reservation_cycle(s: EngineState, at: u64, dated: u64, pnl: Binary64, later: u64)
    requires
        s.refreshed(at).reservation() is Ok,
    ensures
        ({
            let held = s.after_reserve(at, dated);
            &&& s.open_or_reserved == 0
            &&& held.open_or_reserved == 1
            &&& held.refreshed(later).reservation() is Err
            &&& held.released().vacant()
            &&& held.opened().closed(pnl, later).vacant()
        }),
{
}

/// Once the day's loss has reached its limit, nothing is reserved on that day.
pub proof fn law_daily_loss_limit(s: EngineState, now: u64)
    requires
        day_of(now) == s.daily_epoch_day,
        s.daily_pnl_microusd <= loss_floor(s.daily_loss_limit_microusd),
    ensures
        s.refreshed(now).reservation() == Err::<(), &'static str>("daily_loss_limit"),
{
}

/// A new day begins with no loss, so that a limit above zero lets trading go on.
pub proof fn law_new_day(s: EngineState, now: u64)
    requires
        day_of(now) != s.daily_epoch_day,
        0 < s.daily_loss_limit_microusd <= 0x8000_0000_0000_0000,
        s.vacant(),
    ensures
        s.refreshed(now).reservation() is Ok,
        s.refreshed(now).daily_pnl_microusd == 0,
        s.refreshed(now).total_pnl_microusd == s.total_pnl_microusd,
{
}

/// The result of every closed position counts in the day's result and in the total alike.
pub proof fn law_close_counts_once(s: EngineState, pnl: Binary64, now: u64)
    requires
        day_of(now) == s.daily_epoch_day,
        i64::MIN <= s.daily_pnl_microusd + signed_microusd(pnl) <= i64::MAX,
        i64::MIN <= s.total_pnl_microusd + signed_microusd(pnl) <= i64::MAX,
    ensures
        s.closed(pnl, now).daily_pnl_microusd == s.daily_pnl_microusd + signed_microusd(pnl),
        s.closed(pnl, now).total_pnl_microusd == s.total_pnl_microusd + signed_microusd(pnl),
{
}

/// A whole number of shares, of which a hundred thousand times as many still fit in 53 bits, is
/// already rounded to five decimal places.
proof fn lemma_whole_shares(n: nat)
    requires
        n * 100_000 < 2 * HIDDEN,
    ensures
        five_places(of_nat(n)) == of_nat(n),
{
    lemma_whole_product(n, 100_000);
    lemma_whole_is_round(n * 100_000);
    lemma_whole_quotient(n, 100_000);
}

/// A traded position of a whole number of shares closes as a simulated one does: with the same
/// report and the same entry in the books.
pub proof fn law_live_closes_as_simulated(
    s: EngineState,
    entry: Binary64,
    exit: Binary64,
    n: u64,
    now: u64,
)
    requires
        n * 100_000 < 2 * HIDDEN,
    ensures
        ({
            let live = closed_live_position(entry, exit, of_nat(n as nat));
            let simulated = closed_position(entry, exit, n);
            &&& live == (ClosedLivePosition {
                entry_price: simulated.entry_price,
                exit_price: simulated.exit_price,
                shares: of_nat(simulated.shares as nat),
                gross_pnl: simulated.gross_pnl,
                entry_fee: simulated.entry_fee,
                exit_fee: simulated.exit_fee,
                net_pnl: simulated.net_pnl,
            })
            &&& s.closed(live.net_pnl, now) == s.closed(simulated.net_pnl, now)
        }),
{
    lemma_whole_shares(n as nat);
}

/// Rounding to five places gives the number of hundred-thousandths that is nearest to a hundred
/// thousand times the value, with its sign.
pub proof fn law_five_places(value: Binary64) -> (k: nat)
    requires
        times(value, of_nat(100_000)).finite(),
        mag_value(times(value, of_nat(100_000)).magnitude()) < HIDDEN * unit(),
    ensures
        ({
            let all = times(value, of_nat(100_000));
            &&& 2 * abs_nat(k * unit() - mag_value(all.magnitude())) <= unit()
            &&& five_places(value) == (if all.negative() {
                opposite(ratio(k, 100_000))
            } else {
                ratio(k, 100_000)
            })
        }),
{
    reveal(over);
    let all = times(value, of_nat(100_000));
    let k = lemma_rounded(all);
    lemma_whole_is_exact(100_000);
    lemma_whole_is_exact(k);
    k
}

/// Rounding to five places does not favour a sign.
pub proof fn law_five_places_of_a_loss(value: Binary64)
    requires
        value.finite(),
    ensures
        five_places(opposite(value)) == opposite(five_places(value)),
{
    reveal(times);
    reveal(rounded);
    reveal(over);
    lemma_whole_is_exact(100_000);
    lemma_opposite(value);
}

/// The fee on a trade is 0.07 times its shares, its price and what its price leaves to one, to five
/// places; at a price of zero or one it is nothing.
pub proof fn law_fee(shares: Binary64, price: Binary64)
    ensures
        fee_of(shares, price) == five_places(
            times(
                times(times(shares, over(of_nat(7), of_nat(100))), price),
                minus(of_nat(1), price),
            ),
        ),
        times(shares, ratio(7, 100)).finite() && price == of_nat(0) ==> fee_of(
            shares,
            price,
        ).zero(),
        times(times(shares, ratio(7, 100)), of_nat(1)).finite() && price == of_nat(1) ==> fee_of(
            shares,
            price,
        ).zero(),
{
    lemma_of_nat_zero();
    lemma_whole_is_exact(1);
    lemma_whole_is_exact(100_000);
    lemma_difference_with_itself(of_nat(1));
    let part = times(shares, ratio(7, 100));
    if part.finite() && price == of_nat(0) {
        lemma_times_nothing(of_nat(0), part);
        assert(minus(of_nat(1), of_nat(0)).finite()) by {
            reveal(minus);
            reveal(plus);
            lemma_adding_nothing(of_nat(1), opposite(of_nat(0)));
        }
        lemma_times_nothing(times(part, price), minus(of_nat(1), price));
        lemma_five_places_of_nothing(times(times(part, price), minus(of_nat(1), price)));
    }
    if times(part, of_nat(1)).finite() && price == of_nat(1) {
        lemma_times_nothing(of_nat(0), times(part, of_nat(1)));
        lemma_five_places_of_nothing(times(times(part, price), minus(of_nat(1), price)));
    }
}

proof fn lemma_five_places_of_nothing(value: Binary64)
    requires
        value.zero(),
    ensures
        five_places(value).zero(),
{
    lemma_whole_is_exact(100_000);
    lemma_times_nothing(value, of_nat(100_000));
    let none = times(value, of_nat(100_000));
    reveal(over);
    let u = unit();
    vstd::arithmetic::power2::lemma_pow2_pos(1074);
    crate::binary64::order::lemma_magnitude_zero(0);
    assert(0 < HIDDEN * u) by (nonlinear_arith)
        requires
            u > 0,
    ;
    let k = lemma_rounded(none);
    assert(k == 0) by (nonlinear_arith)
        requires
            2 * abs_nat(k * u - 0) <= u,
            u > 0,
            k >= 0,
    ;
    lemma_of_nat_zero();
    assert(0 * u == 0) by (nonlinear_arith);
    let d = mag_value(of_nat(100_000).magnitude());
    assert(d > 0) by (nonlinear_arith)
        requires
            d == 100_000 * u,
            u > 0,
    ;
    lemma_nearest_zero(d);
}

/// A closed position gained what its price moved for every share, less the fees of both trades: a
/// price that did not move gains nothing, and every number that is told has five places.
pub proof fn law_closed_position(entry: Binary64, exit: Binary64, shares: Binary64, whole: u64)
    ensures
        ({
            let live = closed_live_position(entry, exit, shares);
            &&& live.entry_price == entry
            &&& live.exit_price == exit
            &&& live.shares == five_places(shares)
            &&& live.gross_pnl == five_places(times(minus(exit, entry), shares))
            &&& live.entry_fee == fee_of(shares, entry)
            &&& live.exit_fee == fee_of(shares, exit)
            &&& live.net_pnl == five_places(
                minus(minus(live.gross_pnl, live.entry_fee), live.exit_fee),
            )
            &&& entry == exit && entry.finite() && shares.finite() ==> live.gross_pnl.zero()
        }),
        ({
            let size = of_nat(whole as nat);
            let simulated = closed_position(entry, exit, whole);
            &&& simulated.entry_price == entry
            &&& simulated.exit_price == exit
            &&& simulated.shares == whole
            &&& simulated.gross_pnl == five_places(times(minus(exit, entry), size))
            &&& simulated.entry_fee == fee_of(size, entry)
            &&& simulated.exit_fee == fee_of(size, exit)
            &&& simulated.net_pnl == five_places(
                minus(minus(simulated.gross_pnl, simulated.entry_fee), simulated.exit_fee),
            )
        }),
{
    if entry == exit && entry.finite() && shares.finite() {
        lemma_difference_with_itself(entry);
        lemma_of_nat_zero();
        lemma_times_nothing(of_nat(0), shares);
        lemma_five_places_of_nothing(times(minus(exit, entry), shares));
    }
}

/// A whole number of dollars is a million times as many millionths, of either sign, and a limit
/// below zero is none.
pub proof fn law_millionths(dollars: nat, value: Binary64)
    requires
        dollars * 1_000_000 < 2 * HIDDEN,
    ensures
        signed_microusd(of_nat(dollars)) == dollars * 1_000_000,
        signed_microusd(opposite(of_nat(dollars))) == -(dollars * 1_000_000),
        microusd(of_nat(dollars)) == dollars * 1_000_000,
        value.negative() ==> microusd(value) == 0,
{
    let million: nat = 1_000_000;
    lemma_whole_product(dollars, million);
    lemma_whole_is_round((dollars * million) as nat);
    lemma_whole_part((dollars * million) as nat, false);
    lemma_whole_part((dollars * million) as nat, true);
    lemma_whole_is_exact(dollars);
    lemma_whole_is_exact(million);
    lemma_whole_is_exact((dollars * million) as nat);
    let n = of_nat(dollars);
    let all = times(n, of_nat(million));
    assert(rounded(times(opposite(n), of_nat(million))) == opposite(rounded(all))) by {
        reveal(times);
        reveal(rounded);
    }
    assert(of_nat((dollars * million) as nat) == encode(
        false,
        of_nat((dollars * million) as nat).magnitude(),
    ));
    if value.negative() {
        reveal(times);
        reveal(rounded);
        reveal(whole_u64);
    }
}

/// Days are counted from midnight to midnight.
pub proof fn law_days(timestamp_ms: u64, day: u64)
    ensures
        day_of(timestamp_ms) == day <==> day * 86_400_000 <= timestamp_ms < (day + 1) * 86_400_000,
{
}

/// A day's loss ends its trading exactly when it has reached the limit, for every limit that a
/// signed number of 64 bits holds.
pub proof fn law_exhausted(s: EngineState, checked_at: u64)
    requires
        s.daily_loss_limit_microusd <= 0x8000_0000_0000_0000,
    ensures
        s.exhausted() <==> s.daily_pnl_microusd + s.daily_loss_limit_microusd <= 0,
        ({
            let same_day = s.daily_epoch_day * 86_400_000 <= checked_at < (s.daily_epoch_day + 1)
                * 86_400_000;
            let pnl = if same_day {
                s.daily_pnl_microusd as int
            } else {
                0
            };
            let lost = pnl + s.daily_loss_limit_microusd <= 0;
            let free = s.open_or_reserved == 0 && s.max_open_positions > 0;
            let answer = s.refreshed(checked_at).reservation();
            &&& lost ==> answer == Err::<(), &'static str>("daily_loss_limit")
            &&& !lost && free ==> answer is Ok
            &&& !lost && !free ==> answer == Err::<(), &'static str>("position_active")
        }),
{
}

/// A reservation, its release, the opening and the close of a position each change what they are
/// for and nothing else: the day's and the total result move at a close alone, and a position's
/// number is given once.
pub proof fn law_position_steps(
    s: EngineState,
    checked_at: u64,
    reserved_at: u64,
    pnl: Binary64,
    now: u64,
)
    requires
        s.next_position_id < u64::MAX - 1,
        s.total_trades < u64::MAX,
    ensures
        ({
            let held = s.after_reserve(checked_at, reserved_at);
            let today = s.refreshed(checked_at);
            &&& held.total_pnl_microusd == s.total_pnl_microusd
            &&& held.daily_pnl_microusd == today.daily_pnl_microusd
            &&& held.next_position_id == s.next_position_id
            &&& held.total_trades == s.total_trades
            &&& held.max_open_positions == s.max_open_positions
            &&& held.daily_loss_limit_microusd == s.daily_loss_limit_microusd
            &&& today.reservation() is Ok ==> {
                &&& held.open_or_reserved == 1
                &&& held.reserved_at_ms == reserved_at
                &&& held.opened_position_id == 0
            }
            &&& today.reservation() is Err ==> held == today
        }),
        ({
            let free = s.released();
            &&& s.open_or_reserved == 1 ==> free.open_or_reserved == 0
            &&& free.opened_position_id == 0
            &&& free.reserved_at_ms == 0
            &&& free.total_pnl_microusd == s.total_pnl_microusd
            &&& free.daily_pnl_microusd == s.daily_pnl_microusd
            &&& free.daily_epoch_day == s.daily_epoch_day
            &&& free.next_position_id == s.next_position_id
            &&& free.total_trades == s.total_trades
            &&& free.daily_loss_limit_microusd == s.daily_loss_limit_microusd
            &&& free.max_open_positions == s.max_open_positions
        }),
        ({
            let open = s.opened();
            &&& open.opened_position_id == s.next_position_id
            &&& open.next_position_id == s.next_position_id + 1
            &&& open.opened().opened_position_id != open.opened_position_id
            &&& open.total_trades == s.total_trades + 1
            &&& open.open_or_reserved == s.open_or_reserved
            &&& open.reserved_at_ms == s.reserved_at_ms
            &&& open.total_pnl_microusd == s.total_pnl_microusd
            &&& open.daily_pnl_microusd == s.daily_pnl_microusd
        }),
        ({
            let closed = s.closed(pnl, now);
            &&& closed.next_position_id == s.next_position_id
            &&& closed.total_trades == s.total_trades
            &&& closed.opened_position_id == 0
            &&& closed.reserved_at_ms == 0
            &&& s.open_or_reserved == 1 ==> closed.open_or_reserved == 0
            &&& closed.daily_loss_limit_microusd == s.daily_loss_limit_microusd
            &&& i64::MIN <= s.total_pnl_microusd + signed_microusd(pnl) <= i64::MAX
                ==> closed.total_pnl_microusd - s.total_pnl_microusd == signed_microusd(pnl)
            &&& !(s.daily_epoch_day * 86_400_000 <= now < (s.daily_epoch_day + 1) * 86_400_000)
                ==> closed.daily_pnl_microusd == signed_microusd(pnl)
        }),
{
}

/// What is told of the position: it is active while it is reserved or open, it has a number once
/// it is open, and its age counts from its reservation.
pub proof fn law_active_position(s: EngineState, checked_at: u64, reserved_at: u64, now: u64)
    requires
        s.refreshed(checked_at).reservation() is Ok,
        0 < reserved_at <= now,
        0 < s.next_position_id,
    ensures
        ({
            let held = s.after_reserve(checked_at, reserved_at);
            &&& held.active_at(now) == (ActivePositionSnapshot {
                active: true,
                opened: false,
                position_id: 0,
                age_ms: (now - reserved_at) as u64,
            })
            &&& held.opened().active_at(now) == (ActivePositionSnapshot {
                active: true,
                opened: true,
                position_id: s.next_position_id,
                age_ms: (now - reserved_at) as u64,
            })
            &&& held.released().active_at(now) == (ActivePositionSnapshot {
                active: false,
                opened: false,
                position_id: 0,
                age_ms: 0,
            })
        }),
{
}

/// Trading begins with no position and no result, under the limits that are given and on the day of
/// the moment.
pub proof fn law_beginning(max_open_positions: usize, dollars: nat, now: u64)
    requires
        dollars * 1_000_000 < 2 * HIDDEN,
    ensures
        ({
            let s = EngineState::fresh(max_open_positions, of_nat(dollars), now);
            &&& s.open_or_reserved == 0
            &&& s.max_open_positions == max_open_positions
            &&& s.daily_loss_limit_microusd == dollars * 1_000_000
            &&& s.daily_pnl_microusd == 0
            &&& s.total_pnl_microusd == 0
            &&& s.total_trades == 0
            &&& s.next_position_id == 1
            &&& s.opened_position_id == 0
            &&& s.reserved_at_ms == 0
            &&& s.daily_epoch_day * 86_400_000 <= now < (s.daily_epoch_day + 1) * 86_400_000
            &&& max_open_positions > 0 && dollars > 0 ==> s.refreshed(now).reservation() is Ok
            &&& !s.active_at(now).active
        }),
{
    law_millionths(dollars, of_nat(0));
}

/// A sum of dollars wraps round in 64 bits: it is off the exact one by a multiple of two to the 64th
/// power, by none where that fits.
pub proof fn law_wrapped_sum(a: i64, b: i64)
    ensures
        i64::MIN <= wrapped_sum(a, b) <= i64::MAX,
        exists|k: int| -1 <= k <= 1 && #[trigger] (k * 0x1_0000_0000_0000_0000) + wrapped_sum(a, b)
            == a + b,
        i64::MIN <= a + b <= i64::MAX ==> wrapped_sum(a, b) == a + b,
{
    let w = wrapped_sum(a, b);
    assert(0 * 0x1_0000_0000_0000_0000 + w == a + b || 1 * 0x1_0000_0000_0000_0000 + w == a + b
        || (-1) * 0x1_0000_0000_0000_0000 + w == a + b);
}

/// A loss limit of up to two to the 63rd power millionths ends the day when the day's result and the
/// limit together are no longer above nothing.
pub proof fn law_loss_floor(limit: u64, result: i64)
    ensures
        limit <= 0x8000_0000_0000_0000 ==> (result <= loss_floor(limit) <==> result + limit <= 0),
        limit > 0x8000_0000_0000_0000 ==> loss_floor(limit) + limit == 0x1_0000_0000_0000_0000,
        i64::MIN <= loss_floor(limit) <= i64::MAX,
{
}

/// The age of a position is told only where the moment of its reservation is known.
pub proof fn law_unknown_age(s: EngineState, now: u64)
    ensures
        s.reserved_at_ms == 0 || s.open_or_reserved == 0 ==> s.active_at(now).age_ms == 0,
        s.open_or_reserved > 0 && 0 < s.reserved_at_ms <= now ==> s.reserved_at_ms + s.active_at(
            now,
        ).age_ms == now,
        s.active_at(now).active <==> s.open_or_reserved > 0,
        s.active_at(now).opened <==> s.opened_position_id > 0,
        s.active_at(now).position_id == s.opened_position_id,
{
}

/// A count goes up by one and begins anew behind the largest.
pub proof fn law_next_count(n: u64)
    ensures
        next_count(n) as nat == (n as nat + 1) % 0x1_0000_0000_0000_0000,
{
}

} // verus!
