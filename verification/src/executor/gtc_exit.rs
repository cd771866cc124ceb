//! Selling with orders that stay on the book, each lower than the one before if need be.

use vstd::prelude::*;

use super::errors::OrderFault;
use super::gtc_entry::{
    full, is_full, is_listed, listed, lists, or_zero, value_or_zero, OrderAnswer, OrderStatus,
    PostedOrder,
};
use super::math::{
    floor_to_2_decimals, price_of, sell_price, sell_shares_filled, two_places_down,
};
use crate::binary64::arith::lemma_of_nat_zero;
use crate::binary64::close::{
    apart, lemma_adding_nothing, lemma_difference_is_close, lemma_difference_sign, lemma_lesser_is_finite,
    lemma_product_is_close, lemma_sum_is_close, lemma_sum_ordered, lemma_times_nothing,
    lemma_value_zero,
};
use crate::binary64::exact::lemma_whole_is_exact;
use crate::binary64::model::{
    at_most, greater, less, lesser, minus, of_nat, over, plus, ratio, rounded_down, same, times,
    unit, within, HIDDEN,
};
use crate::binary64::Binary64;
use vstd::arithmetic::power2::pow2;

verus! {

/// What came of a sale by resting orders.
#[derive(Debug)]
pub struct GtcExitResult {
    pub sold_shares: Binary64,
    pub sale_proceeds: Binary64,
    pub order_id: Option<String>,
    pub order_status: Option<String>,
    pub error: Option<OrderFault>,
    pub pending: bool,
}

/// What a sale needs next.
#[derive(Debug, Clone, Copy, PartialEq, Eq, Structural)]
pub enum ExitPhase {
    /// The bid, to set the price of the next order.
    Price,
    /// The exchange's answer to the order.
    Place,
    /// The order's status, after a quarter of a second.
    Poll,
    /// The order's cancellation.
    Cancel,
    /// The cancelled order's last status.
    FinalStatus,
    /// Nothing.
    Done,
}

/// How long a sale waits before it asks for the order's status.
pub const LIVE_EXIT_GTC_POLL_MS: u64 = 250;

/// How many orders are priced by the bid before the last one, at the floor.
pub const LIVE_EXIT_GTC_REPRICE_ATTEMPTS: u32 = 3;

pub const LIVE_EXIT_GTC_POLLS_PER_PRICE: u32 = 8;

pub const LIVE_EXIT_GTC_FINAL_POLLS: u32 = 1_200;

/// The lowest price that is asked for.
pub open spec fn floor_price() -> Binary64 {
    ratio(1, 100)
}

/// A sale under way.
#[derive(Debug)]
pub struct GtcExit {
    pub target_shares: Binary64,
    pub price_attempt: u32,
    pub remaining_shares: Binary64,
    pub limit_price: Binary64,
    pub observed_fill: Binary64,
    pub polls: u32,
    pub cancel_confirmed: bool,
    pub phase: ExitPhase,
    pub result: GtcExitResult,
}

impl GtcExitResult {
    pub open spec fn nothing() -> Self {
        GtcExitResult {
            sold_shares: of_nat(0),
            sale_proceeds: of_nat(0),
            order_id: None,
            order_status: None,
            error: None,
            pending: false,
        }
    }

    /// With a further sale.
    pub open spec fn sold(self, shares: Binary64, price: Binary64) -> Self {
        GtcExitResult {
            sold_shares: plus(self.sold_shares, shares),
            sale_proceeds: plus(self.sale_proceeds, times(shares, price)),
            ..self
        }
    }

    fn sell(&mut self, shares: Binary64, price: Binary64)
        ensures
            *final(self) == old(self).sold(shares, price),
    {
        self.sold_shares = self.sold_shares.add(shares);
        self.sale_proceeds = self.sale_proceeds.add(shares.mul(price));
    }
}

impl GtcExit {
    pub open spec fn last_price(self) -> bool {
        self.price_attempt == LIVE_EXIT_GTC_REPRICE_ATTEMPTS
    }

    pub open spec fn poll_limit(self) -> u32 {
        if self.last_price() {
            LIVE_EXIT_GTC_FINAL_POLLS
        } else {
            LIVE_EXIT_GTC_POLLS_PER_PRICE
        }
    }

    pub open spec fn well_formed(self) -> bool {
        &&& self.price_attempt <= LIVE_EXIT_GTC_REPRICE_ATTEMPTS + 1
        &&& self.phase != ExitPhase::Price && self.phase != ExitPhase::Done ==> self.price_attempt
            <= LIVE_EXIT_GTC_REPRICE_ATTEMPTS
        &&& self.phase == ExitPhase::Poll ==> self.polls < self.poll_limit()
        &&& self.phase == ExitPhase::Cancel || self.phase == ExitPhase::FinalStatus
            ==> !self.last_price() && self.result.order_id is Some
        &&& self.phase == ExitPhase::Poll ==> self.result.order_id is Some
        &&& self.phase != ExitPhase::Done ==> !self.result.pending
        &&& self.result.pending ==> self.result.error is Some
    }

    pub open spec fn started(shares: Binary64) -> Self {
        GtcExit {
            target_shares: two_places_down(shares),
            price_attempt: 0,
            remaining_shares: of_nat(0),
            limit_price: of_nat(0),
            observed_fill: of_nat(0),
            polls: 0,
            cancel_confirmed: false,
            phase: ExitPhase::Price,
            result: GtcExitResult::nothing(),
        }
    }

    /// What is left to sell, in hundredths.
    pub open spec fn left(self) -> Binary64 {
        two_places_down(minus(self.target_shares, self.result.sold_shares))
    }

    /// The price of the next order: the bid, within the floor and 0.99, or the floor at last.
    pub open spec fn next_limit(self, bid: Option<Binary64>) -> Binary64 {
        if self.last_price() {
            floor_price()
        } else {
            within(
                match bid {
                    Some(b) => b,
                    None => floor_price(),
                },
                floor_price(),
                ratio(99, 100),
            )
        }
    }

    /// The sale with its next order priced, or over if nothing is left to sell or to try.
    pub open spec fn priced(self, bid: Option<Binary64>) -> Self {
        if self.price_attempt > LIVE_EXIT_GTC_REPRICE_ATTEMPTS || at_most(self.left(), of_nat(0)) {
            GtcExit { phase: ExitPhase::Done, ..self }
        } else {
            GtcExit {
                remaining_shares: self.left(),
                limit_price: self.next_limit(bid),
                phase: ExitPhase::Place,
                ..self
            }
        }
    }

    pub open spec fn failed(self, fault: OrderFault, pending: bool) -> Self {
        GtcExit {
            phase: ExitPhase::Done,
            result: GtcExitResult { error: Some(fault), pending, ..self.result },
            ..self
        }
    }

    pub open spec fn complete(self) -> bool {
        is_full(self.result.sold_shares, self.target_shares)
    }

    /// The sale once its order was sent.
    pub open spec fn after_place(self, reply: Result<PostedOrder, String>) -> Self {
        match reply {
            Err(e) => self.failed(OrderFault::Exchange(e), false),
            Ok(post) => if !post.success {
                self.failed(OrderFault::Exchange(post.complaint()), false)
            } else {
                let filled = lesser(or_zero(post.amounts.making), self.remaining_shares);
                let price = match price_of(post.amounts.taking, post.amounts.making) {
                    Some(p) => p,
                    None => self.limit_price,
                };
                let told = GtcExitResult {
                    order_id: Some(post.order_id),
                    order_status: Some(post.status),
                    ..self.result.sold(filled, price)
                };
                GtcExit {
                    observed_fill: filled,
                    polls: 0,
                    phase: if is_full(told.sold_shares, self.target_shares) {
                        ExitPhase::Done
                    } else {
                        ExitPhase::Poll
                    },
                    result: told,
                    ..self
                }
            },
        }
    }

    /// The sale with what the order's status reports.
    pub open spec fn observed(self, order: OrderStatus) -> Self {
        let matched = lesser(or_zero(order.size_matched), self.remaining_shares);
        let new_fill = greater(minus(matched, self.observed_fill), of_nat(0));
        GtcExit {
            observed_fill: matched,
            result: GtcExitResult {
                order_status: Some(order.status),
                ..self.result.sold(new_fill, self.limit_price)
            },
            ..self
        }
    }

    /// The sale once the order's status was asked for.
    pub open spec fn after_poll(self, reply: Result<OrderStatus, String>) -> Self {
        match reply {
            Err(e) => self.failed(OrderFault::ExitStatusFailed(e), true),
            Ok(order) => {
                let seen = GtcExit { polls: (self.polls + 1) as u32, ..self.observed(order) };
                if seen.complete() {
                    GtcExit { phase: ExitPhase::Done, ..seen }
                } else if seen.polls < self.poll_limit() {
                    seen
                } else if self.last_price() {
                    seen.failed(OrderFault::FloorOrderOpen, true)
                } else {
                    GtcExit { phase: ExitPhase::Cancel, ..seen }
                }
            },
        }
    }

    /// The sale once the order was cancelled.
    pub open spec fn after_cancel(self, reply: Result<Seq<String>, String>) -> Self {
        match reply {
            Err(e) => self.failed(OrderFault::ExitCancelFailed(e), true),
            Ok(ids) => GtcExit {
                cancel_confirmed: lists(ids, self.result.order_id->0@),
                phase: ExitPhase::FinalStatus,
                ..self
            },
        }
    }

    /// The sale once the cancelled order's status was asked for: the next order follows only
    /// where the last one is surely gone.
    pub open spec fn after_final(self, reply: Result<OrderStatus, String>) -> Self {
        match reply {
            Err(e) => self.failed(OrderFault::ExitUnverified(e), !self.cancel_confirmed),
            Ok(order) => {
                let seen = self.observed(order);
                if seen.complete() {
                    GtcExit { phase: ExitPhase::Done, ..seen }
                } else if !self.cancel_confirmed {
                    seen.failed(OrderFault::ExitCancelUnconfirmed, true)
                } else {
                    GtcExit {
                        price_attempt: (self.price_attempt + 1) as u32,
                        phase: ExitPhase::Price,
                        ..seen
                    }
                }
            },
        }
    }

    /// Begins to sell `shares`.
    pub fn start(shares: Binary64) -> (r: Self)
        ensures
            r == Self::started(shares),
            r.well_formed(),
    {
        let zero: Binary64 = Binary64::from_u64(0);
        GtcExit {
            target_shares: floor_to_2_decimals(shares),
            price_attempt: 0,
            remaining_shares: zero,
            limit_price: zero,
            observed_fill: zero,
            polls: 0,
            cancel_confirmed: false,
            phase: ExitPhase::Price,
            result: GtcExitResult {
                sold_shares: zero,
                sale_proceeds: zero,
                order_id: None,
                order_status: None,
                error: None,
                pending: false,
            },
        }
    }

    /// Prices the next order by the bid: `remaining_shares` are then offered at `limit_price`.
    pub fn price(&mut self, bid: Option<Binary64>)
        requires
            old(self).well_formed(),
            old(self).phase == ExitPhase::Price,
        ensures
            *final(self) == old(self).priced(bid),
            final(self).well_formed(),
    {
        let left: Binary64 = floor_to_2_decimals(self.target_shares.sub(self.result.sold_shares));
        if self.price_attempt > LIVE_EXIT_GTC_REPRICE_ATTEMPTS || left.le(Binary64::from_u64(0)) {
            self.phase = ExitPhase::Done;
            return ;
        }
        let floor: Binary64 = Binary64::from_ratio(1, 100);
        self.remaining_shares = left;
        self.limit_price =
        if self.price_attempt == LIVE_EXIT_GTC_REPRICE_ATTEMPTS {
            floor
        } else {
            let wanted: Binary64 = match bid {
                Some(b) => b,
                None => floor,
            };
            wanted.clamp(floor, Binary64::from_ratio(99, 100))
        };
        self.phase = ExitPhase::Place;
    }

    fn fail(&mut self, fault: OrderFault, pending: bool)
        ensures
            *final(self) == old(self).failed(fault, pending),
    {
        self.phase = ExitPhase::Done;
        self.result.error = Some(fault);
        self.result.pending = pending;
    }

    /// Takes the answer to the order in.
    pub fn placed(&mut self, reply: Result<PostedOrder, String>)
        requires
            old(self).well_formed(),
            old(self).phase == ExitPhase::Place,
        ensures
            *final(self) == old(self).after_place(reply),
            final(self).well_formed(),
    {
        let post: PostedOrder = match reply {
            Ok(post) => post,
            Err(e) => {
                self.fail(OrderFault::Exchange(e), false);
                return ;
            },
        };
        if !post.success {
            let complaint: String = match post.error_msg {
                Some(m) => m,
                None => post.status,
            };
            self.fail(OrderFault::Exchange(complaint), false);
            return ;
        }
        let filled: Binary64 = value_or_zero(sell_shares_filled(post.amounts)).min(self.remaining_shares);
        let price: Binary64 = match sell_price(post.amounts) {
            Some(p) => p,
            None => self.limit_price,
        };
        self.observed_fill = filled;
        self.polls = 0;
        self.result.sell(filled, price);
        self.result.order_id = Some(post.order_id);
        self.result.order_status = Some(post.status);
        self.phase =
        if full(self.result.sold_shares, self.target_shares) {
            ExitPhase::Done
        } else {
            ExitPhase::Poll
        };
    }

    fn observe(&mut self, order: OrderStatus)
        ensures
            *final(self) == old(self).observed(order),
    {
        let matched: Binary64 = value_or_zero(order.size_matched).min(self.remaining_shares);
        let new_fill: Binary64 = matched.sub(self.observed_fill).max(Binary64::from_u64(0));
        self.observed_fill = matched;
        self.result.sell(new_fill, self.limit_price);
        self.result.order_status = Some(order.status);
    }

    /// Takes the order's status in.
    pub fn polled(&mut self, reply: Result<OrderStatus, String>)
        requires
            old(self).well_formed(),
            old(self).phase == ExitPhase::Poll,
        ensures
            *final(self) == old(self).after_poll(reply),
            final(self).well_formed(),
    {
        let order: OrderStatus = match reply {
            Ok(order) => order,
            Err(e) => {
                self.fail(OrderFault::ExitStatusFailed(e), true);
                return ;
            },
        };
        self.observe(order);
        self.polls = self.polls + 1;
        let last: bool = self.price_attempt == LIVE_EXIT_GTC_REPRICE_ATTEMPTS;
        let limit: u32 = if last {
            LIVE_EXIT_GTC_FINAL_POLLS
        } else {
            LIVE_EXIT_GTC_POLLS_PER_PRICE
        };
        if full(self.result.sold_shares, self.target_shares) {
            self.phase = ExitPhase::Done;
        } else if self.polls >= limit {
            if last {
                self.fail(OrderFault::FloorOrderOpen, true);
            } else {
                self.phase = ExitPhase::Cancel;
            }
        }
    }

    /// Takes the answer to the cancellation in.
    pub fn cancelled(&mut self, reply: Result<Vec<String>, String>)
        requires
            old(self).well_formed(),
            old(self).phase == ExitPhase::Cancel,
        ensures
            *final(self) == old(self).after_cancel(listed(reply)),
            final(self).well_formed(),
    {
        match reply {
            Err(e) => {
                self.fail(OrderFault::ExitCancelFailed(e), true);
            },
            Ok(ids) => {
                self.cancel_confirmed =
                match &self.result.order_id {
                    Some(id) => is_listed(&ids, id.as_str()),
                    None => false,
                };
                self.phase = ExitPhase::FinalStatus;
            },
        }
    }

    /// Takes the cancelled order's last status in.
    pub fn finished(&mut self, reply: Result<OrderStatus, String>)
        requires
            old(self).well_formed(),
            old(self).phase == ExitPhase::FinalStatus,
        ensures
            *final(self) == old(self).after_final(reply),
            final(self).well_formed(),
    {
        let order: OrderStatus = match reply {
            Ok(order) => order,
            Err(e) => {
                let pending: bool = !self.cancel_confirmed;
                self.fail(OrderFault::ExitUnverified(e), pending);
                return ;
            },
        };
        self.observe(order);
        if full(self.result.sold_shares, self.target_shares) {
            self.phase = ExitPhase::Done;
        } else if !self.cancel_confirmed {
            self.fail(OrderFault::ExitCancelUnconfirmed, true);
        } else {
            self.price_attempt = self.price_attempt + 1;
            self.phase = ExitPhase::Price;
        }
    }
}

/// At most four orders are sent, and a further one follows only on a confirmed cancellation.
pub proof fn law_orders_are_bounded(exit: GtcExit, status: Result<OrderStatus, String>)
    requires
        exit.well_formed(),
        exit.phase == ExitPhase::FinalStatus,
    ensures
        exit.after_final(status).phase == ExitPhase::Price ==> {
            &&& exit.cancel_confirmed
            &&& exit.price_attempt < exit.after_final(status).price_attempt <= 3
        },
{
}

/// The last order is offered at the floor, and is never cancelled: a sale that ends with it open
/// says so.
pub proof fn law_floor_order(
    exit: GtcExit,
    bid: Option<Binary64>,
    status: Result<OrderStatus, String>,
)
    requires
        exit.well_formed(),
        exit.price_attempt == LIVE_EXIT_GTC_REPRICE_ATTEMPTS,
    ensures
        exit.priced(bid).phase == ExitPhase::Place ==> exit.priced(bid).limit_price
            == floor_price(),
        exit.phase == ExitPhase::Poll ==> exit.after_poll(status).phase != ExitPhase::Cancel,
        exit.phase == ExitPhase::Poll && exit.after_poll(status).phase == ExitPhase::Done
            && !exit.after_poll(status).complete() ==> exit.after_poll(status).result.pending,
{
}

/// How many answers a sale still waits for at most.
pub open spec fn steps_left(exit: GtcExit) -> int {
    let later = (4 - exit.price_attempt) * 2_000;
    match exit.phase {
        ExitPhase::Price => later + 1_500,
        ExitPhase::Place => later + 1_400,
        ExitPhase::Poll => later + 2 + (LIVE_EXIT_GTC_FINAL_POLLS - exit.polls),
        ExitPhase::Cancel => later + 2,
        ExitPhase::FinalStatus => later + 1,
        ExitPhase::Done => -3_000,
    }
}

/// Every sale ends: each answer leaves fewer to wait for.
pub proof fn law_exit_ends(
    exit: GtcExit,
    bid: Option<Binary64>,
    post: Result<PostedOrder, String>,
    status: Result<OrderStatus, String>,
    cancel: Result<Seq<String>, String>,
)
    requires
        exit.well_formed(),
    ensures
        exit.phase == ExitPhase::Price ==> steps_left(exit.priced(bid)) < steps_left(exit),
        exit.phase == ExitPhase::Place ==> steps_left(exit.after_place(post)) < steps_left(exit),
        exit.phase == ExitPhase::Poll ==> steps_left(exit.after_poll(status)) < steps_left(exit),
        exit.phase == ExitPhase::Cancel ==> steps_left(exit.after_cancel(cancel)) < steps_left(
            exit,
        ),
        exit.phase == ExitPhase::FinalStatus ==> steps_left(exit.after_final(status))
            < steps_left(exit),
{
}

/// No order fills more than it offers.
pub proof fn law_fill_within_order(exit: GtcExit, order: OrderStatus)
    requires
        !exit.remaining_shares.nan(),
    ensures
        at_most(exit.observed(order).observed_fill, exit.remaining_shares),
{
    reveal(at_most);
}

impl GtcExit {
    /// The sale after an answer about its order.  An answer that it does not wait for changes
    /// nothing.
    pub open spec fn answered(self, answer: OrderAnswer) -> Self {
        match (self.phase, answer) {
            (ExitPhase::Poll, OrderAnswer::Status(reply)) => self.after_poll(reply),
            (ExitPhase::Cancel, OrderAnswer::Cancelled(reply)) => self.after_cancel(reply),
            (ExitPhase::FinalStatus, OrderAnswer::Status(reply)) => self.after_final(reply),
            _ => self,
        }
    }

    /// The sale after the answers about its order, one after another.
    pub open spec fn followed(self, answers: Seq<OrderAnswer>) -> Self
        decreases answers.len(),
    {
        if answers.len() == 0 {
            self
        } else {
            self.followed(answers.drop_last()).answered(answers.last())
        }
    }
}

/// The fills that the exchange reports of one order: in the answer to it, and then in every
/// status that the sale waits for.  A fill that is not told counts as none.
pub open spec fn reported_fills(exit: GtcExit, post: PostedOrder, answers: Seq<OrderAnswer>) -> Seq<
    Binary64,
>
    decreases answers.len(),
{
    if answers.len() == 0 {
        seq![
            match post.amounts.making {
                Some(shares) => shares,
                None => of_nat(0),
            },
        ]
    } else {
        let before = reported_fills(exit, post, answers.drop_last());
        let phase = exit.after_place(Ok(post)).followed(answers.drop_last()).phase;
        match answers.last() {
            OrderAnswer::Status(Ok(order)) if phase == ExitPhase::Poll || phase
                == ExitPhase::FinalStatus => before.push(
                match order.size_matched {
                    Some(shares) => shares,
                    None => of_nat(0),
                },
            ),
            _ => before,
        }
    }
}

/// The price at which the answer to an order says that its first shares were sold: the money for
/// a share, or else the order's limit.
pub open spec fn first_price(post: PostedOrder, limit: Binary64) -> Binary64 {
    match (post.amounts.taking, post.amounts.making) {
        (Some(money), Some(shares)) if !at_most(shares, of_nat(0)) => over(money, shares),
        _ => limit,
    }
}

/// The fills of an order are numbers that do not fall.
pub open spec fn fills_grow(fills: Seq<Binary64>) -> bool {
    &&& forall|i: int| 0 <= i < fills.len() ==> at_most(of_nat(0), #[trigger] fills[i])
    &&& forall|i: int, j: int|
        0 <= i <= j < fills.len() ==> at_most(#[trigger] fills[i], #[trigger] fills[j])
}

/// A status with no more shares than the exchange last reported of the order, in the answer to it
/// or in a status, sells nothing: neither the shares sold nor their proceeds change.
pub proof fn law_no_fill_is_counted_twice(
    exit: GtcExit,
    post: PostedOrder,
    answers: Seq<OrderAnswer>,
    order: OrderStatus,
)
    requires
        post.success,
        exit.remaining_shares.finite(),
        exit.limit_price.finite(),
        ({
            let sale = exit.after_place(Ok(post)).followed(answers);
            &&& !sale.result.sold_shares.nan()
            &&& !sale.result.sale_proceeds.nan()
        }),
        ({
            let last = reported_fills(exit, post, answers).last();
            &&& at_most(of_nat(0), last)
            &&& order.size_matched matches Some(shares) ==> at_most(of_nat(0), shares) && at_most(
                shares,
                last,
            )
        }),
        at_most(of_nat(0), exit.remaining_shares),
    ensures
        ({
            let sale = exit.after_place(Ok(post)).followed(answers);
            let next = sale.answered(OrderAnswer::Status(Ok(order)));
            &&& same(next.result.sold_shares, sale.result.sold_shares)
            &&& same(next.result.sale_proceeds, sale.result.sale_proceeds)
        }),
{
    reveal(at_most);
    reveal(same);
    lemma_of_nat_zero();
    lemma_last_report(exit, post, answers);
    let sale = exit.after_place(Ok(post)).followed(answers);
    let matched = lesser(or_zero(order.size_matched), sale.remaining_shares);
    lemma_lesser_is_finite(or_zero(order.size_matched), sale.remaining_shares);
    lemma_lesser_is_finite(reported_fills(exit, post, answers).last(), exit.remaining_shares);
    let gone = minus(matched, sale.observed_fill);
    lemma_difference_sign(matched, sale.observed_fill);
    lemma_value_zero(gone);
    let new_fill = greater(gone, of_nat(0));
    lemma_value_zero(of_nat(0));
    lemma_times_nothing(new_fill, sale.limit_price);
    lemma_adding_nothing(sale.result.sold_shares, new_fill);
    lemma_adding_nothing(sale.result.sale_proceeds, times(new_fill, sale.limit_price));
}

/// What a sale has observed of its order is the fill that was reported last, as far as the order
/// goes.
proof fn lemma_last_report(exit: GtcExit, post: PostedOrder, answers: Seq<OrderAnswer>)
    requires
        post.success,
    ensures
        ({
            let sale = exit.after_place(Ok(post)).followed(answers);
            &&& reported_fills(exit, post, answers).len() > 0
            &&& sale.observed_fill == lesser(
                reported_fills(exit, post, answers).last(),
                exit.remaining_shares,
            )
            &&& sale.remaining_shares == exit.remaining_shares
            &&& sale.limit_price == exit.limit_price
            &&& sale.target_shares == exit.target_shares
        }),
    decreases answers.len(),
{
    if answers.len() > 0 {
        lemma_last_report(exit, post, answers.drop_last());
    }
}

/// What a sale of `new` shares at `price` adds, where `exact` is how many they should be.
proof fn lemma_sale_adds(
    s: Binary64,
    p: Binary64,
    new: Binary64,
    exact: int,
    price: Binary64,
    g: nat,
)
    requires
        g <= 2000,
        s.finite(),
        p.finite(),
        new.finite(),
        price.finite(),
        new.scaled() >= 0,
        exact >= 0,
        2 * apart(new.scaled(), exact) <= pow2(g),
        0 <= price.scaled() <= unit(),
        -0x8_0000_0000_0000 * pow2(g) <= s.scaled(),
        s.scaled() + exact <= 0x18_0000_0000_0000 * pow2(g),
        -0x8_0000_0000_0000 * pow2(g) <= p.scaled(),
        p.scaled() + exact <= 0x18_0000_0000_0000 * pow2(g),
        exact <= 0x10_0000_0000_0000 * pow2(g),
    ensures
        plus(s, new).finite(),
        plus(p, times(new, price)).finite(),
        2 * apart(plus(s, new).scaled(), s.scaled() + exact) <= pow2(g) + 2 * apart(
            new.scaled(),
            exact,
        ),
        2 * apart(
            plus(p, times(new, price)).scaled() * unit(),
            p.scaled() * unit() + exact * price.scaled(),
        ) <= 2 * (unit() * pow2(g)) + 2 * apart(new.scaled(), exact) * unit(),
{
    let q = pow2(g);
    let u = unit();
    vstd::arithmetic::power2::lemma_pow2_pos(g);
    vstd::arithmetic::power2::lemma_pow2_pos(1074);
    let n = new.scaled();
    let v = price.scaled();
    let top = 2 * HIDDEN * q;
    assert(top == 0x20_0000_0000_0000 * q);
    lemma_sum_is_close(s, new, g);
    assert(0 <= n * v <= n * u) by (nonlinear_arith)
        requires
            0 <= n,
            0 <= v <= u,
    ;
    assert(n * u < top * u) by (nonlinear_arith)
        requires
            n < top,
            u > 0,
    ;
    lemma_product_is_close(new, price, g);
    let t = times(new, price);
    assert(-q <= t.scaled() <= n + q) by (nonlinear_arith)
        requires
            2 * apart(t.scaled() * u, n * v) <= u * q,
            0 <= n * v <= n * u,
            u > 0,
            q > 0,
    ;
    lemma_sum_is_close(p, t, g);
    let total = plus(p, t).scaled();
    assert(2 * apart(total * u, (p.scaled() + t.scaled()) * u) <= u * q) by (nonlinear_arith)
        requires
            2 * apart(total, p.scaled() + t.scaled()) <= q,
            u > 0,
    ;
    assert((p.scaled() + t.scaled()) * u == p.scaled() * u + t.scaled() * u) by (nonlinear_arith);
    assert(2 * apart(n * v, exact * v) <= 2 * apart(n, exact) * u) by (nonlinear_arith)
        requires
            0 <= v <= u,
    ;
}

/// What a status adds that reports more shares than were observed so far.
proof fn lemma_status_adds(sale: GtcExit, order: OrderStatus, m: Binary64, g: nat)
    requires
        g <= 2000,
        m == lesser(or_zero(order.size_matched), sale.remaining_shares),
        m.finite(),
        sale.observed_fill.finite(),
        sale.limit_price.finite(),
        sale.result.sold_shares.finite(),
        sale.result.sale_proceeds.finite(),
        0 <= sale.observed_fill.scaled() <= m.scaled() <= 0x10_0000_0000_0000 * pow2(g),
        0 <= sale.limit_price.scaled() <= unit(),
        -0x8_0000_0000_0000 * pow2(g) <= sale.result.sold_shares.scaled(),
        sale.result.sold_shares.scaled() + m.scaled() - sale.observed_fill.scaled()
            <= 0x18_0000_0000_0000 * pow2(g),
        -0x8_0000_0000_0000 * pow2(g) <= sale.result.sale_proceeds.scaled(),
        sale.result.sale_proceeds.scaled() + m.scaled() - sale.observed_fill.scaled()
            <= 0x18_0000_0000_0000 * pow2(g),
    ensures
        ({
            let next = sale.observed(order).result;
            let gone = m.scaled() - sale.observed_fill.scaled();
            &&& next.sold_shares.finite()
            &&& next.sale_proceeds.finite()
            &&& 2 * apart(next.sold_shares.scaled(), sale.result.sold_shares.scaled() + gone)
                <= 2 * pow2(g)
            &&& 2 * apart(
                next.sale_proceeds.scaled() * unit(),
                sale.result.sale_proceeds.scaled() * unit() + gone * sale.limit_price.scaled(),
            ) <= 3 * (unit() * pow2(g))
        }),
{
    reveal(at_most);
    lemma_of_nat_zero();
    let q = pow2(g);
    let u = unit();
    let o = sale.observed_fill;
    vstd::arithmetic::power2::lemma_pow2_pos(g);
    assert(2 * HIDDEN * q == 0x20_0000_0000_0000 * q);
    lemma_difference_is_close(m, o, g);
    let new = minus(m, o);
    assert(greater(new, of_nat(0)) == new);
    let gone = m.scaled() - o.scaled();
    lemma_sale_adds(
        sale.result.sold_shares,
        sale.result.sale_proceeds,
        new,
        gone,
        sale.limit_price,
        g,
    );
    assert(2 * apart(new.scaled(), gone) * u <= u * q) by (nonlinear_arith)
        requires
            2 * apart(new.scaled(), gone) <= q,
    ;
}

/// The shares and proceeds before a status lie where those of the order so far put them.
proof fn lemma_within(sum: int, money: int, s0: int, p0: int, all: int, paid: int, k: nat, q: nat)
    requires
        0 < k <= 0x1_0000_0000_0000,
        q > 0,
        0 <= s0,
        0 <= p0,
        s0 + all <= 0x10_0000_0000_0000 * q,
        p0 + all <= 0x10_0000_0000_0000 * q,
        0 <= all,
        0 <= paid <= all * unit(),
        2 * apart(sum, s0 + all) <= (2 * k - 1) * q,
        2 * apart(money * unit(), p0 * unit() + paid) <= (3 * k - 1) * (unit() * q),
    ensures
        -0x4_0000_0000_0000 * q <= sum <= s0 + all + 0x4_0000_0000_0000 * q,
        -0x4_0000_0000_0000 * q <= money <= p0 + all + 0x4_0000_0000_0000 * q,
{
    let u = unit();
    vstd::arithmetic::power2::lemma_pow2_pos(1074);
    let c = (3 * k - 1) * q;
    assert(c <= 0x4_0000_0000_0000 * q) by (nonlinear_arith)
        requires
            k <= 0x1_0000_0000_0000,
            c == (3 * k - 1) * q,
    ;
    assert((2 * k - 1) * q <= 0x4_0000_0000_0000 * q) by (nonlinear_arith)
        requires
            k <= 0x1_0000_0000_0000,
    ;
    assert((3 * k - 1) * (u * q) == c * u) by (nonlinear_arith)
        requires
            c == (3 * k - 1) * q,
    ;
    assert(-c <= money <= p0 + all + c) by (nonlinear_arith)
        requires
            2 * apart(money * u, p0 * u + paid) <= c * u,
            0 <= paid <= all * u,
            0 <= p0,
            0 <= c,
            u > 0,
    ;
}

/// Over any run of one order, whose reported fills do not fall, the order adds to the shares sold
/// what was reported of it at last, but no more than its size, and to the proceeds the price of the
/// first answer for the shares of that answer and the limit for the rest.  Both hold but for half
/// of a unit `pow2(g)` in every operation, where all amounts lie below two to the 52nd power of
/// such units.
pub proof fn law_order_adds_its_fill(
    exit: GtcExit,
    post: PostedOrder,
    answers: Seq<OrderAnswer>,
    g: nat,
)
    requires
        post.success,
        g <= 2000,
        exit.remaining_shares.finite(),
        exit.result.sold_shares.finite(),
        exit.result.sale_proceeds.finite(),
        at_most(of_nat(0), exit.remaining_shares),
        at_most(of_nat(0), exit.result.sold_shares),
        at_most(of_nat(0), exit.result.sale_proceeds),
        exit.result.sold_shares.scaled() + exit.remaining_shares.scaled() <= HIDDEN * pow2(g),
        exit.result.sale_proceeds.scaled() + exit.remaining_shares.scaled() <= HIDDEN * pow2(g),
        at_most(of_nat(0), exit.limit_price),
        at_most(exit.limit_price, of_nat(1)),
        at_most(of_nat(0), first_price(post, exit.limit_price)),
        at_most(first_price(post, exit.limit_price), of_nat(1)),
        fills_grow(reported_fills(exit, post, answers)),
        answers.len() < 0x1_0000_0000_0000,
    ensures
        ({
            let sale = exit.after_place(Ok(post)).followed(answers);
            let fills = reported_fills(exit, post, answers);
            let first = lesser(fills[0], exit.remaining_shares).scaled();
            let all = lesser(fills.last(), exit.remaining_shares).scaled();
            &&& 0 < fills.len() <= answers.len() + 1
            &&& sale.result.sold_shares.finite()
            &&& sale.result.sale_proceeds.finite()
            &&& 2 * apart(
                sale.result.sold_shares.scaled(),
                exit.result.sold_shares.scaled() + all,
            ) <= (2 * fills.len() - 1) * pow2(g)
            &&& 2 * apart(
                sale.result.sale_proceeds.scaled() * unit(),
                exit.result.sale_proceeds.scaled() * unit() + first * first_price(
                    post,
                    exit.limit_price,
                ).scaled() + (all - first) * exit.limit_price.scaled(),
            ) <= (3 * fills.len() - 1) * (unit() * pow2(g))
        }),
    decreases answers.len(),
{
    reveal(at_most);
    lemma_of_nat_zero();
    lemma_whole_is_exact(1);
    let u = unit();
    assert(1 * u == u);
    let q = pow2(g);
    vstd::arithmetic::power2::lemma_pow2_pos(g);
    let fills = reported_fills(exit, post, answers);
    let price = first_price(post, exit.limit_price);
    let limit = exit.limit_price;
    lemma_lesser_is_finite(price, of_nat(1));
    lemma_lesser_is_finite(limit, of_nat(1));
    let s0 = exit.result.sold_shares;
    let p0 = exit.result.sale_proceeds;
    assert(HIDDEN * q == 0x10_0000_0000_0000 * q);
    if answers.len() == 0 {
        let first = lesser(fills[0], exit.remaining_shares);
        lemma_lesser_is_finite(fills[0], exit.remaining_shares);
        lemma_sale_adds(s0, p0, first, first.scaled(), price, g);
        assert((2 * fills.len() - 1) * q == q) by (nonlinear_arith)
            requires
                fills.len() == 1,
        ;
        assert((3 * fills.len() - 1) * (u * q) == 2 * (u * q)) by (nonlinear_arith)
            requires
                fills.len() == 1,
        ;
        assert((first.scaled() - first.scaled()) * limit.scaled() == 0) by (nonlinear_arith);
    } else {
        let rest = answers.drop_last();
        let before = exit.after_place(Ok(post)).followed(rest);
        let earlier = reported_fills(exit, post, rest);
        lemma_last_report(exit, post, rest);
        if fills != earlier {
            assert(fills.drop_last() == earlier);
        }
        assert forall|i: int| 0 <= i < earlier.len() implies earlier[i] == fills[i] by {}
        assert(fills_grow(earlier));
        law_order_adds_its_fill(exit, post, rest, g);
        if fills != earlier {
            let k = earlier.len();
            let order = answers.last()->Status_0->Ok_0;
            assert(at_most(fills[0], fills[k - 1]));
            assert(at_most(fills[k - 1], fills[k as int]));
            lemma_lesser_is_finite(fills[0], exit.remaining_shares);
            lemma_lesser_is_finite(fills[k - 1], exit.remaining_shares);
            lemma_lesser_is_finite(fills[k as int], exit.remaining_shares);
            let f = lesser(fills[0], exit.remaining_shares).scaled();
            let o = before.observed_fill.scaled();
            let m = lesser(fills[k as int], exit.remaining_shares);
            let v = limit.scaled();
            let paid = f * price.scaled() + (o - f) * v;
            assert(0 <= paid <= o * u) by (nonlinear_arith)
                requires
                    paid == f * price.scaled() + (o - f) * v,
                    0 <= f <= o,
                    0 <= price.scaled() <= u,
                    0 <= v <= u,
            ;
            lemma_within(
                before.result.sold_shares.scaled(),
                before.result.sale_proceeds.scaled(),
                s0.scaled(),
                p0.scaled(),
                o,
                paid,
                k,
                q,
            );
            lemma_status_adds(before, order, m, g);
            assert((2 * (k + 1) - 1) * q == (2 * k - 1) * q + 2 * q) by (nonlinear_arith);
            assert((3 * (k + 1) - 1) * (u * q) == (3 * k - 1) * (u * q) + 3 * (u * q))
                by (nonlinear_arith);
            assert((m.scaled() - f) * v == (o - f) * v + (m.scaled() - o) * v)
                by (nonlinear_arith);
        }
    }
}

/// What was sold is never taken back: an answer leaves the shares sold and their proceeds or
/// raises them.
pub proof fn law_sold_only_grows(exit: GtcExit, answer: OrderAnswer)
    requires
        exit.result.sold_shares.finite(),
        exit.result.sale_proceeds.finite(),
        exit.remaining_shares.finite(),
        exit.observed_fill.finite(),
        exit.remaining_shares.scaled() < HIDDEN * pow2(1074),
        at_most(of_nat(0), exit.observed_fill),
        at_most(exit.observed_fill, exit.remaining_shares),
        at_most(of_nat(0), exit.limit_price),
        at_most(exit.limit_price, of_nat(1)),
        answer matches OrderAnswer::Status(Ok(order)) ==> (order.size_matched matches Some(shares)
            ==> at_most(of_nat(0), shares)),
    ensures
        at_most(exit.result.sold_shares, exit.answered(answer).result.sold_shares),
        at_most(exit.result.sale_proceeds, exit.answered(answer).result.sale_proceeds),
{
    reveal(at_most);
    reveal(same);
    lemma_of_nat_zero();
    lemma_whole_is_exact(1);
    let zero = of_nat(0);
    lemma_value_zero(zero);
    lemma_adding_nothing(exit.result.sold_shares, zero);
    lemma_adding_nothing(exit.result.sale_proceeds, zero);
    if let OrderAnswer::Status(Ok(order)) = answer {
        let shown = or_zero(order.size_matched);
        lemma_lesser_is_finite(shown, exit.remaining_shares);
        let m = lesser(shown, exit.remaining_shares);
        let g = 1074nat;
        assert(2 * HIDDEN * pow2(g) == 0x20_0000_0000_0000 * pow2(g));
        assert(HIDDEN * pow2(g) == 0x10_0000_0000_0000 * pow2(g));
        lemma_difference_is_close(m, exit.observed_fill, g);
        let new = greater(minus(m, exit.observed_fill), zero);
        assert(0 <= new.scaled() <= 0x18_0000_0000_0000 * pow2(g));
        assert(1 * unit() == unit());
        lemma_lesser_is_finite(exit.limit_price, of_nat(1));
        let n = new.scaled();
        let v = exit.limit_price.scaled();
        let u = unit();
        vstd::arithmetic::power2::lemma_pow2_pos(1074);
        assert(0 <= n * v < (2 * HIDDEN * pow2(g)) * u) by (nonlinear_arith)
            requires
                0 <= n < 2 * HIDDEN * pow2(g),
                0 <= v <= u,
                u > 0,
        ;
        lemma_product_is_close(new, exit.limit_price, g);
        let t = times(new, exit.limit_price);
        assert(t.scaled() >= 0) by {
            lemma_value_zero(new);
            lemma_value_zero(exit.limit_price);
            lemma_value_zero(t);
            if new.zero() {
                lemma_times_nothing(new, exit.limit_price);
            } else if exit.limit_price.zero() {
                lemma_times_nothing(exit.limit_price, new);
            }
        }
        lemma_sum_ordered(zero, new, exit.result.sold_shares);
        lemma_sum_ordered(zero, t, exit.result.sale_proceeds);
        lemma_sum_commutes(zero, exit.result.sold_shares);
        lemma_sum_commutes(zero, exit.result.sale_proceeds);
        lemma_sum_commutes(new, exit.result.sold_shares);
        lemma_sum_commutes(t, exit.result.sale_proceeds);
    }
}

proof fn lemma_sum_commutes(a: Binary64, b: Binary64)
    requires
        a.finite(),
        b.finite(),
    ensures
        plus(a, b) == plus(b, a),
{
    reveal(plus);
}

/// An order that the exchange refuses, or that does not reach it, sells nothing and ends the sale
/// with its fault; no order is then open.
pub proof fn law_refused_offer(exit: GtcExit, reply: Result<PostedOrder, String>)
    requires
        reply matches Ok(post) ==> !post.success,
    ensures
        ({
            let next = exit.after_place(reply);
            &&& next.phase == ExitPhase::Done
            &&& next.result.sold_shares == exit.result.sold_shares
            &&& next.result.sale_proceeds == exit.result.sale_proceeds
            &&& !next.result.pending
            &&& next.result.error == Some(
                OrderFault::Exchange(
                    match reply {
                        Ok(post) => match post.error_msg {
                            Some(words) => words,
                            None => post.status,
                        },
                        Err(words) => words,
                    },
                ),
            )
        }),
{
}

/// The price of an order follows the bid as far as 0.01 and 0.99 go, where there is a bid, and is
/// 0.01 where there is none or at the last attempt; the order offers the hundredths of what is left.
pub proof fn law_offer(exit: GtcExit, bid: Option<Binary64>)
    requires
        exit.phase == ExitPhase::Price,
        exit.priced(bid).phase == ExitPhase::Place,
    ensures
        ({
            let next = exit.priced(bid);
            let low = ratio(1, 100);
            let high = ratio(99, 100);
            let left = minus(exit.target_shares, exit.result.sold_shares);
            &&& next.remaining_shares == over(rounded_down(times(left, of_nat(100))), of_nat(100))
            &&& !at_most(next.remaining_shares, of_nat(0))
            &&& next.result == exit.result
            &&& exit.price_attempt <= 3
            &&& exit.price_attempt == 3 || bid is None ==> same(next.limit_price, low)
            &&& exit.price_attempt < 3 ==> (bid matches Some(b) ==> {
                &&& less(b, low) ==> next.limit_price == low
                &&& less(high, b) ==> next.limit_price == high
                &&& !less(b, low) && !less(high, b) ==> next.limit_price == b
            })
        }),
{
    reveal(less);
    reveal(same);
    crate::binary64::arith::lemma_ratio_is_number(1, 100);
    lemma_hundredth_is_low();
}

proof fn lemma_hundredth_is_low()
    ensures
        !less(ratio(99, 100), ratio(1, 100)),
{
    reveal(less);
    reveal(at_most);
    crate::binary64::close::lemma_whole_ratio_ordered(1, 99, 100);
}

/// A cancellation counts only where the exchange lists the order's own number; and one that did
/// not count, or a status that fails, leaves word that the order may still be open.
pub proof fn law_open_order_is_told(
    exit: GtcExit,
    ids: Seq<String>,
    status: Result<OrderStatus, String>,
    words: String,
)
    requires
        exit.well_formed(),
    ensures
        exit.phase == ExitPhase::Cancel ==> (exit.after_cancel(Ok(ids)).cancel_confirmed <==> exists|
            i: int,
        |
            0 <= i < ids.len() && (#[trigger] ids[i])@ == exit.result.order_id->0@),
        exit.after_cancel(Err(words)).result.pending,
        exit.after_poll(Err(words)).result.pending,
        exit.after_final(Err(words)).result.pending <==> !exit.cancel_confirmed,
        exit.phase == ExitPhase::FinalStatus && !exit.cancel_confirmed ==> exit.after_final(
            status,
        ).phase == ExitPhase::Done,
        exit.phase == ExitPhase::FinalStatus && !exit.cancel_confirmed && less(
            plus(exit.after_final(status).result.sold_shares, ratio(1, 100_000)),
            exit.target_shares,
        ) ==> exit.after_final(status).result.pending,
{
    reveal(less);
    reveal(at_most);
}

/// A sale begins with the hundredths of its shares and nothing sold; it asks for the status of an
/// order eight times before it cancels it, and of the last one twelve hundred times before it gives
/// up, and its status and number are those that the exchange told.
pub proof fn law_sale_is_followed(
    shares: Binary64,
    exit: GtcExit,
    post: PostedOrder,
    order: OrderStatus,
)
    requires
        post.success,
        exit.well_formed(),
    ensures
        ({
            let begun = GtcExit::started(shares);
            &&& begun.target_shares == over(rounded_down(times(shares, of_nat(100))), of_nat(100))
            &&& begun.result.sold_shares == of_nat(0)
            &&& begun.result.sale_proceeds == of_nat(0)
            &&& begun.price_attempt == 0
            &&& begun.observed_fill == of_nat(0)
            &&& begun.remaining_shares == of_nat(0)
            &&& begun.limit_price == of_nat(0)
            &&& begun.polls == 0
            &&& !begun.cancel_confirmed
            &&& begun.phase == ExitPhase::Price
            &&& begun.result.error is None
            &&& !begun.result.pending
        }),
        exit.after_place(Ok(post)).result.order_id == Some(post.order_id),
        exit.after_place(Ok(post)).result.order_status == Some(post.status),
        exit.after_place(Ok(post)).polls == 0,
        exit.phase == ExitPhase::Poll ==> ({
            let next = exit.after_poll(Ok(order));
            let whole = at_most(
                exit.target_shares,
                plus(next.result.sold_shares, ratio(1, 100_000)),
            );
            let asked = exit.polls + 1;
            let enough = if exit.price_attempt == 3 {
                asked >= 1_200
            } else {
                asked >= 8
            };
            &&& next.polls == asked
            &&& next.result.order_status == Some(order.status)
            &&& next.result.order_id == exit.result.order_id
            &&& whole ==> next.phase == ExitPhase::Done && next.result.error == exit.result.error
            &&& !whole && !enough ==> next.phase == ExitPhase::Poll
            &&& !whole && enough && exit.price_attempt < 3 ==> next.phase == ExitPhase::Cancel
            &&& !whole && enough && exit.price_attempt == 3 ==> next.phase == ExitPhase::Done
                && next.result.pending && next.result.error == Some(OrderFault::FloorOrderOpen)
        }),
{
}

/// An order is sent at each of four prices as long as something is left, and it is followed unless its
/// answer tells that all of the sale but for 0.00001 is done.
pub proof fn law_sale_is_priced(exit: GtcExit, bid: Option<Binary64>, post: PostedOrder)
    requires
        post.success,
    ensures
        ({
            let left = over(
                rounded_down(times(minus(exit.target_shares, exit.result.sold_shares), of_nat(100))),
                of_nat(100),
            );
            let next = exit.priced(bid);
            let on = exit.price_attempt <= 3 && !at_most(left, of_nat(0));
            &&& on ==> next.phase == ExitPhase::Place && next.remaining_shares == left
            &&& !on ==> next.phase == ExitPhase::Done
            &&& next.result == exit.result
        }),
        ({
            let next = exit.after_place(Ok(post));
            next.phase == if at_most(
                exit.target_shares,
                plus(next.result.sold_shares, ratio(1, 100_000)),
            ) {
                ExitPhase::Done
            } else {
                ExitPhase::Poll
            }
        }),
{
}

} // verus!
