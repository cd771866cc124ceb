//! Buying with an order that stays on the book until it is cancelled.

use vstd::prelude::*;

use super::errors::OrderFault;
use super::math::{buy_notional_spent, buy_shares_filled, Amounts};
use super::revalidation::{small, tolerance};
use crate::binary64::model::{at_most, less, lesser, minus, of_nat, plus, ratio, times};
use crate::binary64::Binary64;
use crate::text::same_text;

verus! {

/// The exchange's answer to an order.
#[derive(Debug)]
pub struct PostedOrder {
    pub success: bool,
    pub order_id: String,
    pub status: String,
    pub error_msg: Option<String>,
    pub amounts: Amounts,
}

impl PostedOrder {
    /// What the exchange says against an order: its message, or else the order's status.
    pub open spec fn complaint(self) -> String {
        match self.error_msg {
            Some(m) => m,
            None => self.status,
        }
    }
}

/// The exchange's answer to an order, and how long its parts took.
#[derive(Debug)]
pub struct TimedPost {
    pub response: PostedOrder,
    pub build_latency_ms: u64,
    pub sign_latency_ms: u64,
    pub post_latency_ms: u64,
}

/// An order as the exchange lists it.
#[derive(Debug)]
pub struct OrderStatus {
    pub status: String,
    pub size_matched: Option<Binary64>,
}

/// One answer about an order that is on the book.
pub enum OrderAnswer {
    Status(Result<OrderStatus, String>),
    Cancelled(Result<Seq<String>, String>),
}

/// What came of a purchase.
#[derive(Debug)]
pub struct GtcEntryResult {
    pub filled_shares: Binary64,
    pub notional_usd: Binary64,
    pub order_id: Option<String>,
    pub order_status: Option<String>,
    pub error: Option<OrderFault>,
    pub pending: bool,
    pub submit_latency_ms: Option<u64>,
    pub build_latency_ms: Option<u64>,
    pub sign_latency_ms: Option<u64>,
    pub post_latency_ms: Option<u64>,
    pub post_success: Option<bool>,
    pub post_status: Option<String>,
    pub post_making_amount: Option<Binary64>,
    pub post_taking_amount: Option<Binary64>,
    pub poll_count: u32,
    pub poll_status: Option<String>,
    pub poll_size_matched: Option<Binary64>,
    pub cancel_confirmed: Option<bool>,
    pub final_status: Option<String>,
    pub final_size_matched: Option<Binary64>,
}

/// What a purchase needs next from the exchange.
#[derive(Debug, Clone, Copy, PartialEq, Eq, Structural)]
pub enum EntryPhase {
    /// The order's status, after a quarter of a second.
    Poll,
    /// The order's cancellation.
    Cancel,
    /// The order's last status.
    FinalStatus,
    /// Nothing.
    Done,
}

/// How long a purchase waits before it asks for the order's status.
pub const LIVE_ENTRY_GTC_POLL_MS: u64 = 250;

pub const LIVE_ENTRY_GTC_POLLS: u32 = 8;

pub const LIVE_ENTRY_GTC_FAST_POLLS: u32 = 2;

/// A purchase under way.
#[derive(Debug)]
pub struct GtcEntry {
    pub target_shares: Binary64,
    pub limit_price: Binary64,
    pub max_polls: u32,
    pub phase: EntryPhase,
    pub result: GtcEntryResult,
}

pub open spec fn or_zero(value: Option<Binary64>) -> Binary64 {
    match value {
        Some(v) => v,
        None => of_nat(0),
    }
}

pub fn value_or_zero(value: Option<Binary64>) -> (r: Binary64)
    ensures
        r == or_zero(value),
{
    match value {
        Some(v) => v,
        None => Binary64::from_u64(0),
    }
}

/// `filled` is the whole of `target`, but for rounding.
pub open spec fn is_full(filled: Binary64, target: Binary64) -> bool {
    at_most(target, plus(filled, tolerance()))
}

pub fn full(filled: Binary64, target: Binary64) -> (r: bool)
    ensures
        r == is_full(filled, target),
{
    target.le(filled.add(small()))
}

impl GtcEntryResult {
    pub open spec fn nothing() -> Self {
        GtcEntryResult {
            filled_shares: of_nat(0),
            notional_usd: of_nat(0),
            order_id: None,
            order_status: None,
            error: None,
            pending: false,
            submit_latency_ms: None,
            build_latency_ms: None,
            sign_latency_ms: None,
            post_latency_ms: None,
            post_success: None,
            post_status: None,
            post_making_amount: None,
            post_taking_amount: None,
            poll_count: 0,
            poll_status: None,
            poll_size_matched: None,
            cancel_confirmed: None,
            final_status: None,
            final_size_matched: None,
        }
    }

    /// What the answer to the order itself says.
    pub open spec fn of_post(post: TimedPost, submit_latency_ms: u64) -> Self {
        GtcEntryResult {
            submit_latency_ms: Some(submit_latency_ms),
            build_latency_ms: Some(post.build_latency_ms),
            sign_latency_ms: Some(post.sign_latency_ms),
            post_latency_ms: Some(post.post_latency_ms),
            order_id: Some(post.response.order_id),
            order_status: Some(post.response.status),
            post_success: Some(post.response.success),
            post_status: Some(post.response.status),
            post_making_amount: post.response.amounts.making,
            post_taking_amount: post.response.amounts.taking,
            ..Self::nothing()
        }
    }

    /// With a fill that has grown to `matched`, the rest of it paid at the limit.
    pub open spec fn grown(self, matched: Binary64, limit_price: Binary64) -> Self {
        if less(self.filled_shares, matched) {
            GtcEntryResult {
                notional_usd: plus(
                    self.notional_usd,
                    times(minus(matched, self.filled_shares), limit_price),
                ),
                filled_shares: matched,
                ..self
            }
        } else {
            self
        }
    }

    fn new() -> (r: Self)
        ensures
            r == Self::nothing(),
    {
        let zero: Binary64 = Binary64::from_u64(0);
        GtcEntryResult {
            filled_shares: zero,
            notional_usd: zero,
            order_id: None,
            order_status: None,
            error: None,
            pending: false,
            submit_latency_ms: None,
            build_latency_ms: None,
            sign_latency_ms: None,
            post_latency_ms: None,
            post_success: None,
            post_status: None,
            post_making_amount: None,
            post_taking_amount: None,
            poll_count: 0,
            poll_status: None,
            poll_size_matched: None,
            cancel_confirmed: None,
            final_status: None,
            final_size_matched: None,
        }
    }

    fn grow(&mut self, matched: Binary64, limit_price: Binary64)
        ensures
            *final(self) == old(self).grown(matched, limit_price),
    {
        if self.filled_shares.lt(matched) {
            self.notional_usd =
            self.notional_usd.add(matched.sub(self.filled_shares).mul(limit_price));
            self.filled_shares = matched;
        }
    }
}

impl GtcEntry {
    pub open spec fn well_formed(self) -> bool {
        &&& !self.target_shares.nan()
        &&& at_most(self.result.filled_shares, self.target_shares)
        &&& self.max_polls <= LIVE_ENTRY_GTC_POLLS
        &&& self.result.poll_count <= self.max_polls
        &&& self.phase == EntryPhase::Poll ==> self.result.poll_count < self.max_polls
        &&& self.phase != EntryPhase::Done ==> !self.result.pending && self.result.error is None
        &&& self.result.pending ==> self.result.error is Some
        &&& self.phase == EntryPhase::FinalStatus ==> self.result.cancel_confirmed is Some
        &&& self.phase != EntryPhase::Done ==> self.result.order_id is Some
    }

    /// The shares that count as bought of those that an answer reports.
    pub open spec fn counted(self, reported: Option<Binary64>) -> Binary64 {
        lesser(or_zero(reported), self.target_shares)
    }

    /// A resting order with nothing bought yet is asked about less often.
    pub open spec fn polls_for(post: PostedOrder) -> u32 {
        if post.status@ == "LIVE"@ && at_most(or_zero(post.amounts.making), of_nat(0)) && at_most(
            or_zero(post.amounts.taking),
            of_nat(0),
        ) {
            LIVE_ENTRY_GTC_FAST_POLLS
        } else {
            LIVE_ENTRY_GTC_POLLS
        }
    }

    /// The purchase once the order was sent.
    pub open spec fn after_post(
        shares: u64,
        limit_price: Binary64,
        reply: Result<TimedPost, String>,
        submit_latency_ms: u64,
    ) -> Self {
        let target = of_nat(shares as nat);
        let idle = GtcEntry {
            target_shares: target,
            limit_price,
            max_polls: 0,
            phase: EntryPhase::Done,
            result: GtcEntryResult::nothing(),
        };
        match reply {
            Err(e) => GtcEntry {
                result: GtcEntryResult {
                    submit_latency_ms: Some(submit_latency_ms),
                    error: Some(OrderFault::Exchange(e)),
                    ..GtcEntryResult::nothing()
                },
                ..idle
            },
            Ok(post) => {
                let told = GtcEntryResult::of_post(post, submit_latency_ms);
                if !post.response.success {
                    GtcEntry {
                        result: GtcEntryResult {
                            error: Some(OrderFault::Exchange(post.response.complaint())),
                            ..told
                        },
                        ..idle
                    }
                } else if post.response.amounts.taking is Some && less(
                    of_nat(0),
                    post.response.amounts.taking->0,
                ) {
                    let filled = lesser(post.response.amounts.taking->0, target);
                    let spent = match post.response.amounts.making {
                        Some(m) if less(of_nat(0), m) => m,
                        _ => times(filled, limit_price),
                    };
                    GtcEntry {
                        max_polls: Self::polls_for(post.response),
                        phase: if is_full(filled, target) {
                            EntryPhase::Done
                        } else {
                            EntryPhase::Poll
                        },
                        result: GtcEntryResult {
                            filled_shares: filled,
                            notional_usd: spent,
                            ..told
                        },
                        ..idle
                    }
                } else {
                    GtcEntry {
                        max_polls: Self::polls_for(post.response),
                        phase: EntryPhase::Poll,
                        result: told,
                        ..idle
                    }
                }
            },
        }
    }

    /// The purchase once the order's status was asked for.
    pub open spec fn after_poll(self, reply: Result<OrderStatus, String>) -> Self {
        let asked = GtcEntryResult {
            poll_count: (self.result.poll_count + 1) as u32,
            ..self.result
        };
        match reply {
            Err(e) => GtcEntry {
                phase: EntryPhase::Done,
                result: GtcEntryResult {
                    error: Some(OrderFault::EntryStatusFailed(e)),
                    pending: true,
                    ..asked
                },
                ..self
            },
            Ok(order) => {
                let matched = self.counted(order.size_matched);
                let told = GtcEntryResult {
                    poll_status: Some(order.status),
                    poll_size_matched: Some(matched),
                    order_status: Some(order.status),
                    ..asked.grown(matched, self.limit_price)
                };
                GtcEntry {
                    phase: if is_full(told.filled_shares, self.target_shares) {
                        EntryPhase::Done
                    } else if told.poll_count < self.max_polls {
                        EntryPhase::Poll
                    } else {
                        EntryPhase::Cancel
                    },
                    result: told,
                    ..self
                }
            },
        }
    }

    /// The purchase once the order was cancelled: `cancelled` lists the orders that were.
    pub open spec fn after_cancel(self, reply: Result<Seq<String>, String>) -> Self {
        match reply {
            Err(e) => GtcEntry {
                phase: EntryPhase::Done,
                result: GtcEntryResult {
                    error: Some(OrderFault::EntryCancelFailed(e)),
                    pending: true,
                    ..self.result
                },
                ..self
            },
            Ok(cancelled) => GtcEntry {
                phase: EntryPhase::FinalStatus,
                result: GtcEntryResult {
                    cancel_confirmed: Some(lists(cancelled, self.result.order_id->0@)),
                    ..self.result
                },
                ..self
            },
        }
    }

    /// The purchase once the cancelled order's status was asked for.
    pub open spec fn after_final(self, reply: Result<OrderStatus, String>) -> Self {
        let confirmed = self.result.cancel_confirmed == Some(true);
        match reply {
            Err(e) => GtcEntry {
                phase: EntryPhase::Done,
                result: GtcEntryResult {
                    error: Some(OrderFault::EntryUnverified(e)),
                    pending: !confirmed,
                    ..self.result
                },
                ..self
            },
            Ok(order) => {
                let matched = self.counted(order.size_matched);
                let told = GtcEntryResult {
                    final_status: Some(order.status),
                    final_size_matched: Some(matched),
                    order_status: Some(order.status),
                    ..self.result.grown(matched, self.limit_price)
                };
                let open = !confirmed && less(
                    plus(told.filled_shares, tolerance()),
                    self.target_shares,
                );
                GtcEntry {
                    phase: EntryPhase::Done,
                    result: if open {
                        GtcEntryResult {
                            error: Some(OrderFault::EntryCancelUnconfirmed),
                            pending: true,
                            ..told
                        }
                    } else {
                        told
                    },
                    ..self
                }
            },
        }
    }

    /// Begins with the answer to an order of `shares` at a limit, and how long it took.
    pub fn posted(
        shares: u64,
        limit_price: Binary64,
        reply: Result<TimedPost, String>,
        submit_latency_ms: u64,
    ) -> (r: Self)
        ensures
            r == Self::after_post(shares, limit_price, reply, submit_latency_ms),
            r.well_formed(),
    {
        let zero: Binary64 = Binary64::from_u64(0);
        let target_shares: Binary64 = Binary64::from_u64(shares);
        proof {
            lemma_start(shares as nat);
        }
        let mut entry: GtcEntry = GtcEntry {
            target_shares,
            limit_price,
            max_polls: 0,
            phase: EntryPhase::Done,
            result: GtcEntryResult::new(),
        };
        entry.result.submit_latency_ms = Some(submit_latency_ms);
        let post: TimedPost = match reply {
            Ok(post) => post,
            Err(e) => {
                entry.result.error = Some(OrderFault::Exchange(e));
                return entry;
            },
        };
        let response: PostedOrder = post.response;
        entry.result.build_latency_ms = Some(post.build_latency_ms);
        entry.result.sign_latency_ms = Some(post.sign_latency_ms);
        entry.result.post_latency_ms = Some(post.post_latency_ms);
        entry.result.order_id = Some(response.order_id.clone());
        entry.result.order_status = Some(response.status.clone());
        entry.result.post_success = Some(response.success);
        entry.result.post_status = Some(response.status.clone());
        entry.result.post_making_amount = response.amounts.making;
        entry.result.post_taking_amount = response.amounts.taking;
        if !response.success {
            entry.result.error =
            Some(
                OrderFault::Exchange(
                    match response.error_msg {
                        Some(m) => m,
                        None => response.status,
                    },
                ),
            );
            return entry;
        }
        entry.max_polls =
        if same_text(response.status.as_str(), "LIVE") && value_or_zero(response.amounts.making).le(
            zero,
        ) && value_or_zero(response.amounts.taking).le(zero) {
            LIVE_ENTRY_GTC_FAST_POLLS
        } else {
            LIVE_ENTRY_GTC_POLLS
        };
        if let Some(filled) = buy_shares_filled(response.amounts) {
            if zero.lt(filled) {
                proof {
                    lemma_lesser(filled, target_shares);
                }
                let filled: Binary64 = filled.min(target_shares);
                entry.result.filled_shares = filled;
                entry.result.notional_usd =
                match buy_notional_spent(response.amounts) {
                    Some(m) => {
                        if zero.lt(m) {
                            m
                        } else {
                            filled.mul(limit_price)
                        }
                    },
                    None => filled.mul(limit_price),
                };
                if full(filled, target_shares) {
                    return entry;
                }
            }
        }
        entry.phase = EntryPhase::Poll;
        entry
    }

    /// Takes the order's status in.
    pub fn polled(&mut self, reply: Result<OrderStatus, String>)
        requires
            old(self).well_formed(),
            old(self).phase == EntryPhase::Poll,
        ensures
            *final(self) == old(self).after_poll(reply),
            final(self).well_formed(),
    {
        self.result.poll_count = self.result.poll_count + 1;
        match reply {
            Err(e) => {
                self.result.error = Some(OrderFault::EntryStatusFailed(e));
                self.result.pending = true;
                self.phase = EntryPhase::Done;
            },
            Ok(order) => {
                let matched: Binary64 = value_or_zero(order.size_matched).min(self.target_shares);
                proof {
                    lemma_lesser(or_zero(order.size_matched), self.target_shares);
                }
                self.result.poll_size_matched = Some(matched);
                self.result.grow(matched, self.limit_price);
                self.result.poll_status = Some(order.status.clone());
                self.result.order_status = Some(order.status);
                self.phase =
                if full(self.result.filled_shares, self.target_shares) {
                    EntryPhase::Done
                } else if self.result.poll_count < self.max_polls {
                    EntryPhase::Poll
                } else {
                    EntryPhase::Cancel
                };
            },
        }
    }

    /// Takes the answer to the cancellation in.
    pub fn cancelled(&mut self, reply: Result<Vec<String>, String>)
        requires
            old(self).well_formed(),
            old(self).phase == EntryPhase::Cancel,
        ensures
            *final(self) == old(self).after_cancel(listed(reply)),
            final(self).well_formed(),
    {
        match reply {
            Err(e) => {
                self.result.error = Some(OrderFault::EntryCancelFailed(e));
                self.result.pending = true;
                self.phase = EntryPhase::Done;
            },
            Ok(ids) => {
                let confirmed: bool = match &self.result.order_id {
                    Some(id) => is_listed(&ids, id.as_str()),
                    None => false,
                };
                self.result.cancel_confirmed = Some(confirmed);
                self.phase = EntryPhase::FinalStatus;
            },
        }
    }

    /// Takes the cancelled order's last status in.
    pub fn finished(&mut self, reply: Result<OrderStatus, String>)
        requires
            old(self).well_formed(),
            old(self).phase == EntryPhase::FinalStatus,
        ensures
            *final(self) == old(self).after_final(reply),
            final(self).well_formed(),
    {
        let confirmed: bool = match self.result.cancel_confirmed {
            Some(c) => c,
            None => false,
        };
        self.phase = EntryPhase::Done;
        match reply {
            Err(e) => {
                self.result.error = Some(OrderFault::EntryUnverified(e));
                self.result.pending = !confirmed;
            },
            Ok(order) => {
                let matched: Binary64 = value_or_zero(order.size_matched).min(self.target_shares);
                proof {
                    lemma_lesser(or_zero(order.size_matched), self.target_shares);
                }
                self.result.grow(matched, self.limit_price);
                self.result.final_status = Some(order.status.clone());
                self.result.final_size_matched = Some(matched);
                self.result.order_status = Some(order.status);
                if !confirmed && self.result.filled_shares.add(small()).lt(self.target_shares) {
                    self.result.error = Some(OrderFault::EntryCancelUnconfirmed);
                    self.result.pending = true;
                }
            },
        }
    }
}

/// An order's number is in a list.
pub open spec fn lists(ids: Seq<String>, id: Seq<char>) -> bool {
    exists|i: int| 0 <= i < ids.len() && (#[trigger] ids[i])@ == id
}

pub open spec fn listed(reply: Result<Vec<String>, String>) -> Result<Seq<String>, String> {
    match reply {
        Ok(ids) => Ok(ids@),
        Err(e) => Err(e),
    }
}

pub fn is_listed(ids: &Vec<String>, id: &str) -> (r: bool)
    ensures
        r == lists(ids@, id@),
{
    let mut i: usize = 0;
    while i < ids.len()
        invariant
            i <= ids@.len(),
            forall|j: int| 0 <= j < i ==> (#[trigger] ids@[j])@ != id@,
        decreases ids@.len() - i,
    {
        if same_text(ids[i].as_str(), id) {
            assert(ids@[i as int]@ == id@);
            return true;
        }
        i += 1;
    }
    false
}

proof fn lemma_lesser(a: Binary64, b: Binary64)
    requires
        !b.nan(),
    ensures
        at_most(lesser(a, b), b),
        !lesser(a, b).nan(),
{
    reveal(at_most);
}

proof fn lemma_start(shares: nat)
    ensures
        !of_nat(shares).nan(),
        at_most(of_nat(0), of_nat(shares)),
{
    reveal(at_most);
    crate::binary64::arith::lemma_of_nat_is_number(shares);
    crate::binary64::arith::lemma_of_nat_is_number(0);
    crate::binary64::arith::lemma_of_nat_zero();
}

/// A purchase never counts more shares than were asked for, at any step and with any answers
/// from the exchange, and it asks at most eight times for the order's status.
pub proof fn law_entry_is_bounded(entry: GtcEntry)
    requires
        entry.well_formed(),
    ensures
        at_most(entry.result.filled_shares, entry.target_shares),
        entry.result.poll_count <= 8,
        entry.result.pending ==> entry.result.error is Some,
{
}

/// How many answers a purchase still waits for at most.
pub open spec fn answers_left(entry: GtcEntry) -> int {
    match entry.phase {
        EntryPhase::Poll => 2 + (entry.max_polls - entry.result.poll_count),
        EntryPhase::Cancel => 2,
        EntryPhase::FinalStatus => 1,
        EntryPhase::Done => 0,
    }
}

/// Every purchase ends: each answer of the exchange leaves fewer to wait for.
pub proof fn law_entry_ends(
    entry: GtcEntry,
    status: Result<OrderStatus, String>,
    cancel: Result<Seq<String>, String>,
)
    requires
        entry.well_formed(),
    ensures
        entry.phase == EntryPhase::Poll ==> answers_left(entry.after_poll(status))
            < answers_left(entry),
        entry.phase == EntryPhase::Cancel ==> answers_left(entry.after_cancel(cancel))
            < answers_left(entry),
        entry.phase == EntryPhase::FinalStatus ==> answers_left(entry.after_final(status))
            < answers_left(entry),
{
}

/// What was bought is never taken back: an answer leaves the filled shares or raises them.
pub proof fn law_fill_only_grows(
    entry: GtcEntry,
    status: Result<OrderStatus, String>,
    cancel: Result<Seq<String>, String>,
)
    requires
        entry.well_formed(),
    ensures
        at_most(entry.result.filled_shares, entry.after_poll(status).result.filled_shares),
        at_most(entry.result.filled_shares, entry.after_cancel(cancel).result.filled_shares),
        at_most(entry.result.filled_shares, entry.after_final(status).result.filled_shares),
{
    reveal(at_most);
    reveal(less);
}

/// A purchase that ends with an order that may still be open says so, and one whose cancellation
/// was confirmed does not.
pub proof fn law_pending_is_told(
    entry: GtcEntry,
    status: Result<OrderStatus, String>,
)
    requires
        entry.well_formed(),
        entry.phase == EntryPhase::FinalStatus,
    ensures
        entry.result.cancel_confirmed == Some(true) ==> !entry.after_final(status).result.pending,
        entry.result.cancel_confirmed == Some(false) && less(
            plus(entry.after_final(status).result.filled_shares, tolerance()),
            entry.target_shares,
        ) ==> entry.after_final(status).result.pending,
{
}

impl GtcEntry {
    /// The purchase after an answer about its order.  An answer that it does not wait for changes
    /// nothing.
    pub open spec fn answered(self, answer: OrderAnswer) -> Self {
        match (self.phase, answer) {
            (EntryPhase::Poll, OrderAnswer::Status(reply)) => self.after_poll(reply),
            (EntryPhase::Cancel, OrderAnswer::Cancelled(reply)) => self.after_cancel(reply),
            (EntryPhase::FinalStatus, OrderAnswer::Status(reply)) => self.after_final(reply),
            _ => self,
        }
    }

    /// The purchase after the answers about its order, one after another.
    pub open spec fn followed(self, answers: Seq<OrderAnswer>) -> Self
        decreases answers.len(),
    {
        if answers.len() == 0 {
            self
        } else {
            self.followed(answers.drop_last()).answered(answers.last())
        }
    }
}

/// The fills that the exchange reports of an order to buy: in the answer to it, and then in every
/// status that the purchase waits for.  A fill that is not told counts as none.
pub open spec fn bought_fills(
    shares: u64,
    limit_price: Binary64,
    post: TimedPost,
    submit_latency_ms: u64,
    answers: Seq<OrderAnswer>,
) -> Seq<Binary64>
    decreases answers.len(),
{
    if answers.len() == 0 {
        seq![
            match post.response.amounts.taking {
                Some(n) => n,
                None => of_nat(0),
            },
        ]
    } else {
        let rest = answers.drop_last();
        let before = bought_fills(shares, limit_price, post, submit_latency_ms, rest);
        let phase = GtcEntry::after_post(shares, limit_price, Ok(post), submit_latency_ms).followed(
            rest,
        ).phase;
        match answers.last() {
            OrderAnswer::Status(Ok(order)) if phase == EntryPhase::Poll || phase
                == EntryPhase::FinalStatus => before.push(
                match order.size_matched {
                    Some(n) => n,
                    None => of_nat(0),
                },
            ),
            _ => before,
        }
    }
}

/// Over any run of an order to buy, the shares that count as bought are the largest fill that the
/// exchange ever reported of it, but no more than were asked for.
pub proof fn law_bought_is_largest_report(
    shares: u64,
    limit_price: Binary64,
    post: TimedPost,
    submit_latency_ms: u64,
    answers: Seq<OrderAnswer>,
)
    requires
        post.response.success,
        forall|i: int|
            0 <= i < bought_fills(shares, limit_price, post, submit_latency_ms, answers).len()
                ==> !(#[trigger] bought_fills(
                shares,
                limit_price,
                post,
                submit_latency_ms,
                answers,
            )[i]).nan(),
    ensures
        ({
            let entry = GtcEntry::after_post(
                shares,
                limit_price,
                Ok(post),
                submit_latency_ms,
            ).followed(answers);
            let fills = bought_fills(shares, limit_price, post, submit_latency_ms, answers);
            let target = of_nat(shares as nat);
            let filled = entry.result.filled_shares;
            &&& fills.len() > 0
            &&& at_most(of_nat(0), filled)
            &&& forall|i: int|
                0 <= i < fills.len() ==> at_most(lesser(#[trigger] fills[i], target), filled)
            &&& filled == of_nat(0) || exists|i: int|
                0 <= i < fills.len() && lesser(#[trigger] fills[i], target) == filled
            &&& entry.target_shares == target
            &&& entry.limit_price == limit_price
        }),
    decreases answers.len(),
{
    reveal(at_most);
    reveal(less);
    let target = of_nat(shares as nat);
    lemma_start(shares as nat);
    crate::binary64::arith::lemma_of_nat_zero();
    let fills = bought_fills(shares, limit_price, post, submit_latency_ms, answers);
    let begun = GtcEntry::after_post(shares, limit_price, Ok(post), submit_latency_ms);
    if answers.len() == 0 {
        lemma_lesser(fills[0], target);
        assert(lesser(fills[0], target) == lesser(fills[0], target));
    } else {
        let rest = answers.drop_last();
        let earlier = bought_fills(shares, limit_price, post, submit_latency_ms, rest);
        if fills != earlier {
            assert(fills.drop_last() == earlier);
        }
        assert forall|i: int| 0 <= i < earlier.len() implies earlier[i] == fills[i] by {}
        law_bought_is_largest_report(shares, limit_price, post, submit_latency_ms, rest);
        let before = begun.followed(rest);
        let filled = begun.followed(answers).result.filled_shares;
        let last = before.result.filled_shares;
        if last != of_nat(0) {
            let i = choose|i: int|
                0 <= i < earlier.len() && lesser(#[trigger] earlier[i], target) == last;
            assert(fills[i] == earlier[i]);
        }
        if fills != earlier {
            let n = earlier.len() as int;
            lemma_lesser(fills[n], target);
            assert(filled == last || filled == lesser(fills[n], target));
            assert forall|i: int| 0 <= i < fills.len() implies at_most(
                lesser(#[trigger] fills[i], target),
                filled,
            ) by {
                if i < n {
                    assert(earlier[i] == fills[i]);
                    assert(at_most(lesser(earlier[i], target), last));
                }
            }
        } else {
            assert(filled == last);
        }
    }
}

/// The first shares of a purchase cost what the exchange says that the order gave, or else the
/// limit each; nothing is spent where nothing was bought.
pub proof fn law_first_fill_is_paid(
    shares: u64,
    limit_price: Binary64,
    post: TimedPost,
    submit_latency_ms: u64,
)
    requires
        post.response.success,
    ensures
        ({
            let result = GtcEntry::after_post(
                shares,
                limit_price,
                Ok(post),
                submit_latency_ms,
            ).result;
            let got = post.response.amounts.taking;
            let gave = post.response.amounts.making;
            if got is Some && less(of_nat(0), got->0) {
                &&& result.filled_shares == lesser(got->0, of_nat(shares as nat))
                &&& gave is Some && less(of_nat(0), gave->0) ==> result.notional_usd == gave->0
                &&& !(gave is Some && less(of_nat(0), gave->0)) ==> result.notional_usd == times(
                    lesser(got->0, of_nat(shares as nat)),
                    limit_price,
                )
            } else {
                &&& result.filled_shares == of_nat(0)
                &&& result.notional_usd == of_nat(0)
            }
        }),
{
}

/// Shares that an order gets while it rests cost the limit each, and a status that reports no more
/// than is counted already costs nothing.
pub proof fn law_later_fill_costs_the_limit(entry: GtcEntry, order: OrderStatus)
    requires
        entry.phase == EntryPhase::Poll || entry.phase == EntryPhase::FinalStatus,
    ensures
        ({
            let next = entry.answered(OrderAnswer::Status(Ok(order))).result;
            let before = entry.result;
            let reported = lesser(
                match order.size_matched {
                    Some(n) => n,
                    None => of_nat(0),
                },
                entry.target_shares,
            );
            if less(before.filled_shares, reported) {
                &&& next.filled_shares == reported
                &&& next.notional_usd == plus(
                    before.notional_usd,
                    times(minus(reported, before.filled_shares), entry.limit_price),
                )
            } else {
                &&& next.filled_shares == before.filled_shares
                &&& next.notional_usd == before.notional_usd
            }
        }),
{
}

/// The same status a second time buys nothing more and costs nothing more.
pub proof fn law_repeated_status_buys_nothing(entry: GtcEntry, order: OrderStatus)
    requires
        entry.phase == EntryPhase::Poll,
    ensures
        ({
            let once = entry.answered(OrderAnswer::Status(Ok(order)));
            let twice = once.answered(OrderAnswer::Status(Ok(order)));
            &&& twice.result.filled_shares == once.result.filled_shares
            &&& twice.result.notional_usd == once.result.notional_usd
        }),
{
    reveal(less);
}

/// An order that the exchange refuses, or that does not reach it, buys nothing, and no order is
/// then open.
pub proof fn law_refused_purchase(
    shares: u64,
    limit_price: Binary64,
    reply: Result<TimedPost, String>,
    submit_latency_ms: u64,
)
    requires
        reply matches Ok(post) ==> !post.response.success,
    ensures
        ({
            let entry = GtcEntry::after_post(shares, limit_price, reply, submit_latency_ms);
            &&& entry.phase == EntryPhase::Done
            &&& entry.result.filled_shares == of_nat(0)
            &&& entry.result.notional_usd == of_nat(0)
            &&& !entry.result.pending
            &&& entry.result.error == Some(
                OrderFault::Exchange(
                    match reply {
                        Ok(post) => match post.response.error_msg {
                            Some(words) => words,
                            None => post.response.status,
                        },
                        Err(words) => words,
                    },
                ),
            )
        }),
{
}

/// A purchase is over once what was bought is the whole order but for 0.00001; while it is not,
/// its status is asked for eight times, or twice where the order rests and nothing has traded, and
/// then it is cancelled.
pub proof fn law_purchase_is_followed(
    shares: u64,
    limit_price: Binary64,
    post: TimedPost,
    submit_latency_ms: u64,
    entry: GtcEntry,
    order: OrderStatus,
)
    requires
        post.response.success,
        entry.well_formed(),
        entry.phase == EntryPhase::Poll,
    ensures
        ({
            let begun = GtcEntry::after_post(shares, limit_price, Ok(post), submit_latency_ms);
            let next = entry.after_poll(Ok(order));
            let idle = post.response.status@ == "LIVE"@ && !(post.response.amounts.making matches Some(
                n,
            ) && !at_most(n, of_nat(0))) && !(post.response.amounts.taking matches Some(n)
                && !at_most(n, of_nat(0)));
            let whole = at_most(
                next.target_shares,
                plus(next.result.filled_shares, ratio(1, 100_000)),
            );
            &&& begun.max_polls == (if idle {
                2u32
            } else {
                8u32
            })
            &&& begun.result.poll_count == 0
            &&& begun.result.order_id == Some(post.response.order_id)
            &&& next.result.poll_count == entry.result.poll_count + 1
            &&& next.phase == EntryPhase::Done <==> whole
            &&& next.phase == EntryPhase::Cancel <==> !whole && next.result.poll_count
                == entry.max_polls
            &&& next.max_polls == entry.max_polls
            &&& next.result.order_id == entry.result.order_id
        }),
{
    reveal(at_most);
    crate::binary64::arith::lemma_of_nat_zero();
}

/// A cancellation counts only where the exchange lists the order's own number, and what is not
/// known to be cancelled is told as open.
pub proof fn law_cancellation_counts_by_number(entry: GtcEntry, ids: Seq<String>, words: String)
    requires
        entry.phase == EntryPhase::Cancel,
    ensures
        entry.after_cancel(Ok(ids)).result.cancel_confirmed == Some(
            exists|i: int|
                0 <= i < ids.len() && (#[trigger] ids[i])@ == entry.result.order_id->0@,
        ),
        entry.after_cancel(Ok(ids)).phase == EntryPhase::FinalStatus,
        entry.after_cancel(Err(words)).result.pending,
        entry.after_poll(Err(words)).result.pending,
        entry.after_final(Err(words)).result.pending <==> entry.result.cancel_confirmed != Some(
            true,
        ),
{
}

/// What the exchange answered is told as it answered it: the order's number and status with the amounts
/// and the times of the answer, and every later status with the shares that it reported, as far as
/// they were asked for.
pub proof fn law_answers_are_told(
    shares: u64,
    limit_price: Binary64,
    post: TimedPost,
    submit_latency_ms: u64,
    entry: GtcEntry,
    order: OrderStatus,
)
    requires
        !entry.target_shares.nan(),
    ensures
        ({
            let told = GtcEntry::after_post(
                shares,
                limit_price,
                Ok(post),
                submit_latency_ms,
            ).result;
            &&& told.submit_latency_ms == Some(submit_latency_ms)
            &&& told.build_latency_ms == Some(post.build_latency_ms)
            &&& told.sign_latency_ms == Some(post.sign_latency_ms)
            &&& told.post_latency_ms == Some(post.post_latency_ms)
            &&& told.order_id == Some(post.response.order_id)
            &&& told.order_status == Some(post.response.status)
            &&& told.post_success == Some(post.response.success)
            &&& told.post_status == Some(post.response.status)
            &&& told.post_making_amount == post.response.amounts.making
            &&& told.post_taking_amount == post.response.amounts.taking
            &&& told.poll_status is None
            &&& told.final_status is None
            &&& told.cancel_confirmed is None
        }),
        ({
            let reported = match order.size_matched {
                Some(n) => if !n.nan() && at_most(n, entry.target_shares) {
                    n
                } else {
                    entry.target_shares
                },
                None => lesser(of_nat(0), entry.target_shares),
            };
            let polled = entry.after_poll(Ok(order)).result;
            let ended = entry.after_final(Ok(order)).result;
            &&& polled.poll_status == Some(order.status)
            &&& polled.order_status == Some(order.status)
            &&& polled.poll_size_matched == Some(reported)
            &&& polled.post_status == entry.result.post_status
            &&& ended.final_status == Some(order.status)
            &&& ended.order_status == Some(order.status)
            &&& ended.final_size_matched == Some(reported)
            &&& ended.poll_size_matched == entry.result.poll_size_matched
            &&& ended.cancel_confirmed == entry.result.cancel_confirmed
        }),
{
}

} // verus!
