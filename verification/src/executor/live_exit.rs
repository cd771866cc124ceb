//! Selling a position at once, as often as it takes.

use vstd::prelude::*;

use super::errors::{
    balance_not_settled, is_balance_not_settled_error, is_no_match_error, no_match, OrderFault,
};
use super::gtc_entry::{or_zero, value_or_zero, PostedOrder};
use super::gtc_exit::GtcExitResult;
use super::math::{
    floor_to_2_decimals, price_of, sell_price, sell_shares_filled, two_places_down,
};
use super::revalidation::{small, tolerance};
use crate::binary64::model::{
    at_most, less, lesser, minus, of_nat, over, plus, ratio, rounded_down, times,
};
use crate::binary64::Binary64;
use crate::emitter::audit::AuditExitRetryAttempt;

verus! {

pub const LIVE_EXIT_MAX_ATTEMPTS: u32 = 40;

/// How long the engine waits before it tries to sell what is left.
pub const LIVE_EXIT_RETRY_MS: u64 = 250;

/// How long the engine waits, time after time, for the exchange to see the bought shares.
pub open spec fn balance_delay(retries: nat) -> Option<u64> {
    if retries == 0 {
        Some(250)
    } else if retries == 1 {
        Some(500)
    } else if retries == 2 {
        Some(1_000)
    } else if retries == 3 {
        Some(2_000)
    } else {
        None
    }
}

fn balance_retry_delay(retries: usize) -> (r: Option<u64>)
    ensures
        r == balance_delay(retries as nat),
{
    if retries == 0 {
        Some(250)
    } else if retries == 1 {
        Some(500)
    } else if retries == 2 {
        Some(1_000)
    } else if retries == 3 {
        Some(2_000)
    } else {
        None
    }
}

/// A sale at once under way.
#[derive(Debug)]
pub struct LiveExit {
    pub sellable_shares: Binary64,
    pub exit_bid: Binary64,
    pub sold_shares: Binary64,
    pub sale_proceeds: Binary64,
    pub last_order: Option<(String, String)>,
    pub last_error: Option<OrderFault>,
    pub attempts: u32,
    pub retries: Vec<AuditExitRetryAttempt>,
    pub balance_retry_exhausted: bool,
    pub over: bool,
}

/// What a sale at once has come to.
#[verifier::ext_equal]
pub struct Selling {
    pub sellable_shares: Binary64,
    pub exit_bid: Binary64,
    pub sold_shares: Binary64,
    pub sale_proceeds: Binary64,
    pub last_order: Option<(String, String)>,
    pub last_error: Option<OrderFault>,
    pub attempts: u32,
    pub retries: Seq<AuditExitRetryAttempt>,
    pub balance_retry_exhausted: bool,
    pub over: bool,
}

impl View for LiveExit {
    type V = Selling;

    open spec fn view(&self) -> Selling {
        Selling {
            sellable_shares: self.sellable_shares,
            exit_bid: self.exit_bid,
            sold_shares: self.sold_shares,
            sale_proceeds: self.sale_proceeds,
            last_order: self.last_order,
            last_error: self.last_error,
            attempts: self.attempts,
            retries: self.retries@,
            balance_retry_exhausted: self.balance_retry_exhausted,
            over: self.over,
        }
    }
}

/// The error that an answer carries, if it does.
pub open spec fn error_of(reply: Result<PostedOrder, String>) -> Option<String> {
    match reply {
        Ok(post) => if post.success {
            None
        } else {
            Some(post.complaint())
        },
        Err(e) => Some(e),
    }
}

impl Selling {
    pub open spec fn well_formed(self) -> bool {
        &&& self.attempts <= LIVE_EXIT_MAX_ATTEMPTS
        &&& self.retries.len() <= self.attempts
        &&& self.balance_retry_exhausted ==> self.over
    }

    /// An attempt has begun that is not answered yet.
    pub open spec fn awaits_reply(self) -> bool {
        !self.over && self.retries.len() < self.attempts
    }

    pub open spec fn started(sellable: Binary64, exit_bid: Binary64) -> Self {
        Selling {
            sellable_shares: sellable,
            exit_bid,
            sold_shares: of_nat(0),
            sale_proceeds: of_nat(0),
            last_order: None,
            last_error: None,
            attempts: 0,
            retries: Seq::empty(),
            balance_retry_exhausted: false,
            over: false,
        }
    }

    /// What is left to sell, in hundredths.
    pub open spec fn left(self) -> Binary64 {
        two_places_down(minus(self.sellable_shares, self.sold_shares))
    }

    /// The sale goes on: attempts and shares are left.
    pub open spec fn goes_on(self) -> bool {
        !self.over && self.attempts < LIVE_EXIT_MAX_ATTEMPTS && !at_most(self.left(), of_nat(0))
    }

    /// The sale with one more attempt begun, or over.
    pub open spec fn begun(self) -> Self {
        if self.goes_on() {
            Selling { attempts: (self.attempts + 1) as u32, ..self }
        } else {
            Selling { over: true, ..self }
        }
    }

    /// With the shares that an answer to an order of `offered` reports as sold.
    pub open spec fn after_fill(self, post: PostedOrder, offered: Binary64) -> Self {
        let filled = lesser(or_zero(post.amounts.making), offered);
        if less(of_nat(0), filled) {
            let price = match price_of(post.amounts.taking, post.amounts.making) {
                Some(p) => p,
                None => self.exit_bid,
            };
            Selling {
                sold_shares: plus(self.sold_shares, filled),
                sale_proceeds: plus(self.sale_proceeds, times(filled, price)),
                last_order: Some((post.order_id, post.status)),
                ..self
            }
        } else {
            self
        }
    }

    /// With an attempt that failed because the exchange does not see the shares yet.
    pub open spec fn put_off(self, error: String) -> Self {
        let told = Selling { last_error: Some(OrderFault::Exchange(error)), ..self };
        match balance_delay(self.retries.len()) {
            Some(delay_ms) => Selling {
                retries: self.retries.push(
                    AuditExitRetryAttempt {
                        attempt: self.attempts,
                        error_class: "balance_not_settled",
                        error: Some(error),
                        delay_ms,
                    },
                ),
                ..told
            },
            None => Selling {
                retries: self.retries.push(
                    AuditExitRetryAttempt {
                        attempt: self.attempts,
                        error_class: "balance_not_settled_exhausted",
                        error: Some(error),
                        delay_ms: 0,
                    },
                ),
                balance_retry_exhausted: true,
                over: true,
                ..told
            },
        }
    }

    /// The sale after the answer to an attempt, and how long to wait before the next.
    pub open spec fn after_reply(self, reply: Result<PostedOrder, String>, offered: Binary64) -> (
        Self,
        u64,
    ) {
        match error_of(reply) {
            None => {
                let next = self.after_fill(reply->Ok_0, offered);
                (next, next.pause())
            },
            Some(error) => if balance_not_settled(error@) {
                let next = self.put_off(error);
                let wait = match balance_delay(self.retries.len()) {
                    Some(ms) => ms,
                    None => 0,
                };
                (next, wait)
            } else {
                let told = Selling { last_error: Some(OrderFault::Exchange(error)), ..self };
                if no_match(error@) {
                    (told, told.pause())
                } else {
                    (Selling { over: true, ..told }, 0)
                }
            },
        }
    }

    /// The wait before the next attempt: none where nothing is left to sell.
    pub open spec fn pause(self) -> u64 {
        if less(of_nat(0), self.left()) {
            LIVE_EXIT_RETRY_MS
        } else {
            0
        }
    }

    /// Shares are left that were not sold.
    pub open spec fn short(self) -> bool {
        less(plus(self.sold_shares, tolerance()), self.sellable_shares)
    }

    /// Resting orders are to sell the rest.
    pub open spec fn needs_fallback(self) -> bool {
        !self.balance_retry_exhausted && self.short()
    }

    /// With what the resting orders sold.
    pub open spec fn with_fallback(self, fallback: GtcExitResult) -> Self {
        Selling {
            sold_shares: plus(self.sold_shares, fallback.sold_shares),
            sale_proceeds: plus(self.sale_proceeds, fallback.sale_proceeds),
            last_error: match fallback.error {
                Some(e) => Some(e),
                None => self.last_error,
            },
            ..self
        }
    }
}

impl LiveExit {
    /// Begins to sell.
    pub fn start(sellable_shares: Binary64, exit_bid: Binary64) -> (r: Self)
        ensures
            r@ == Selling::started(sellable_shares, exit_bid),
            r@.well_formed(),
    {
        let zero: Binary64 = Binary64::from_u64(0);
        LiveExit {
            sellable_shares,
            exit_bid,
            sold_shares: zero,
            sale_proceeds: zero,
            last_order: None,
            last_error: None,
            attempts: 0,
            retries: Vec::new(),
            balance_retry_exhausted: false,
            over: false,
        }
    }

    fn left(&self) -> (r: Binary64)
        ensures
            r == self@.left(),
    {
        floor_to_2_decimals(self.sellable_shares.sub(self.sold_shares))
    }

    /// Begins an attempt, and returns how many shares it offers; none once the sale is over.
    pub fn next_attempt(&mut self) -> (r: Option<Binary64>)
        requires
            old(self)@.well_formed(),
        ensures
            r == (if old(self)@.goes_on() {
                Some(old(self)@.left())
            } else {
                None
            }),
            final(self)@ == old(self)@.begun(),
            final(self)@.well_formed(),
            r is Some ==> final(self)@.awaits_reply(),
    {
        let left: Binary64 = self.left();
        if self.over || self.attempts >= LIVE_EXIT_MAX_ATTEMPTS || left.le(Binary64::from_u64(0)) {
            self.over = true;
            return None;
        }
        self.attempts = self.attempts + 1;
        Some(left)
    }

    /// Takes the answer to an attempt in, and returns how long to wait before the next.
    pub fn replied(&mut self, reply: Result<PostedOrder, String>, offered: Binary64) -> (r: u64)
        requires
            old(self)@.well_formed(),
            old(self)@.awaits_reply(),
        ensures
            (final(self)@, r) == old(self)@.after_reply(reply, offered),
            final(self)@.well_formed(),
    {
        let error: String = match reply {
            Ok(post) => {
                if post.success {
                    self.fill(post, offered);
                    return self.pause();
                }
                match post.error_msg {
                    Some(m) => m,
                    None => post.status,
                }
            },
            Err(e) => e,
        };
        if is_balance_not_settled_error(error.as_str()) {
            self.last_error = Some(OrderFault::Exchange(error.clone()));
            match balance_retry_delay(self.retries.len()) {
                Some(delay_ms) => {
                    self.retries.push(
                        AuditExitRetryAttempt {
                            attempt: self.attempts,
                            error_class: "balance_not_settled",
                            error: Some(error),
                            delay_ms,
                        },
                    );
                    return delay_ms;
                },
                None => {
                    self.balance_retry_exhausted = true;
                    self.over = true;
                    self.retries.push(
                        AuditExitRetryAttempt {
                            attempt: self.attempts,
                            error_class: "balance_not_settled_exhausted",
                            error: Some(error),
                            delay_ms: 0,
                        },
                    );
                    return 0;
                },
            }
        }
        let nothing_matched: bool = is_no_match_error(error.as_str());
        self.last_error = Some(OrderFault::Exchange(error));
        if nothing_matched {
            self.pause()
        } else {
            self.over = true;
            0
        }
    }

    fn pause(&self) -> (r: u64)
        ensures
            r == self@.pause(),
    {
        if Binary64::from_u64(0).lt(self.left()) {
            LIVE_EXIT_RETRY_MS
        } else {
            0
        }
    }

    fn fill(&mut self, post: PostedOrder, offered: Binary64)
        ensures
            final(self)@ == old(self)@.after_fill(post, offered),
    {
        let filled: Binary64 = value_or_zero(sell_shares_filled(post.amounts)).min(offered);
        if Binary64::from_u64(0).lt(filled) {
            let price: Binary64 = match sell_price(post.amounts) {
                Some(p) => p,
                None => self.exit_bid,
            };
            self.sold_shares = self.sold_shares.add(filled);
            self.sale_proceeds = self.sale_proceeds.add(filled.mul(price));
            self.last_order = Some((post.order_id, post.status));
        }
    }

    /// Whether shares are left that were not sold.
    pub fn is_short(&self) -> (r: bool)
        ensures
            r == self@.short(),
    {
        self.sold_shares.add(small()).lt(self.sellable_shares)
    }

    /// The shares that resting orders are to sell, if they are.
    pub fn fallback_shares(&self) -> (r: Option<Binary64>)
        ensures
            r == (if self@.needs_fallback() {
                Some(minus(self@.sellable_shares, self@.sold_shares))
            } else {
                None
            }),
    {
        if !self.balance_retry_exhausted && self.is_short() {
            Some(self.sellable_shares.sub(self.sold_shares))
        } else {
            None
        }
    }

    /// Adds what the resting orders sold.  Their last order's number and status, and whether it
    /// may still be open, are handed back.
    pub fn add_fallback(&mut self, fallback: GtcExitResult) -> (r: (
        Option<String>,
        Option<String>,
        bool,
    ))
        ensures
            final(self)@ == old(self)@.with_fallback(fallback),
            r == (fallback.order_id, fallback.order_status, fallback.pending),
    {
        self.sold_shares = self.sold_shares.add(fallback.sold_shares);
        self.sale_proceeds = self.sale_proceeds.add(fallback.sale_proceeds);
        match fallback.error {
            Some(e) => {
                self.last_error = Some(e);
            },
            None => {},
        }
        (fallback.order_id, fallback.order_status, fallback.pending)
    }
}

/// At most forty orders are sent, and the exchange is waited for at most four times.
pub proof fn law_attempts_are_bounded(s: Selling, reply: Result<PostedOrder, String>, x: Binary64)
    requires
        s.well_formed(),
    ensures
        s.attempts <= 40,
        s.begun().attempts <= 40,
        s.attempts == 40 ==> !s.goes_on(),
        s.retries.len() >= 4 && error_of(reply) is Some && balance_not_settled(
            error_of(reply)->0@,
        ) ==> s.after_reply(reply, x).0.over && s.after_reply(reply, x).0.balance_retry_exhausted,
{
}

/// An error that is neither a missing match nor an unsettled balance ends the sale at once.
pub proof fn law_other_errors_end_the_sale(
    s: Selling,
    reply: Result<PostedOrder, String>,
    offered: Binary64,
)
    requires
        error_of(reply) is Some,
        !balance_not_settled(error_of(reply)->0@),
        !no_match(error_of(reply)->0@),
    ensures
        s.after_reply(reply, offered).0.over,
        s.after_reply(reply, offered).0.sold_shares == s.sold_shares,
        s.after_reply(reply, offered).0.sale_proceeds == s.sale_proceeds,
{
}

/// No attempt sells more than it offers.
pub proof fn law_sold_within_offer(s: Selling, post: PostedOrder, offered: Binary64)
    requires
        !offered.nan(),
    ensures
        ({
            let filled = lesser(or_zero(post.amounts.making), offered);
            let next = s.after_fill(post, offered);
            &&& at_most(filled, offered)
            &&& next.sold_shares == s.sold_shares || next.sold_shares == plus(
                s.sold_shares,
                filled,
            )
        }),
{
    reveal(at_most);
}

/// An attempt sells the shares that the exchange says the order gave, but no more than it offered,
/// at the price that the answer tells or else at the bid that the sale was planned by; an answer
/// without shares changes nothing.
pub proof fn law_attempt_sells(s: Selling, post: PostedOrder, offered: Binary64)
    requires
        post.success,
        !offered.nan(),
    ensures
        ({
            let given = match post.amounts.making {
                Some(shares) => shares,
                None => of_nat(0),
            };
            let filled = if !given.nan() && at_most(given, offered) {
                given
            } else {
                offered
            };
            let price = match (post.amounts.taking, post.amounts.making) {
                (Some(money), Some(shares)) if !at_most(shares, of_nat(0)) => over(money, shares),
                _ => s.exit_bid,
            };
            let (next, wait) = s.after_reply(Ok(post), offered);
            &&& less(of_nat(0), filled) ==> {
                &&& next.sold_shares == plus(s.sold_shares, filled)
                &&& next.sale_proceeds == plus(s.sale_proceeds, times(filled, price))
                &&& next.last_order == Some((post.order_id, post.status))
            }
            &&& !less(of_nat(0), filled) ==> next == s
            &&& next.attempts == s.attempts
            &&& next.retries == s.retries
            &&& next.over == s.over
            &&& next.sellable_shares == s.sellable_shares
            &&& next.exit_bid == s.exit_bid
        }),
{
    crate::binary64::arith::lemma_of_nat_is_number(0);
    reveal(at_most);
}

/// No answer with an error sells anything, and the error is told.
pub proof fn law_errors_sell_nothing(
    s: Selling,
    reply: Result<PostedOrder, String>,
    offered: Binary64,
)
    requires
        reply matches Ok(post) ==> !post.success,
    ensures
        ({
            let next = s.after_reply(reply, offered).0;
            let words = match reply {
                Ok(post) => match post.error_msg {
                    Some(m) => m,
                    None => post.status,
                },
                Err(e) => e,
            };
            &&& next.sold_shares == s.sold_shares
            &&& next.sale_proceeds == s.sale_proceeds
            &&& next.last_order == s.last_order
            &&& next.last_error == Some(OrderFault::Exchange(words))
        }),
{
}

/// While the exchange does not see the shares yet, the sale waits a quarter of a second and then
/// twice as long each time, four times in all; each wait is told with its attempt.  The fifth time
/// it gives up.
pub proof fn law_waits_for_the_balance(
    s: Selling,
    reply: Result<PostedOrder, String>,
    offered: Binary64,
)
    requires
        error_of(reply) is Some,
        balance_not_settled(error_of(reply)->0@),
    ensures
        ({
            let (next, wait) = s.after_reply(reply, offered);
            let n = s.retries.len();
            &&& n == 0 ==> wait == 250
            &&& n == 1 ==> wait == 2 * 250
            &&& n == 2 ==> wait == 4 * 250
            &&& n == 3 ==> wait == 8 * 250
            &&& n >= 4 ==> wait == 0
            &&& next.retries.len() == n + 1
            &&& next.retries.drop_last() == s.retries
            &&& next.retries.last().delay_ms == wait
            &&& next.retries.last().attempt == s.attempts
            &&& next.retries.last().error == error_of(reply)
            &&& next.over == (s.over || n >= 4)
            &&& next.balance_retry_exhausted == (s.balance_retry_exhausted || n >= 4)
        }),
{
    let (next, wait) = s.after_reply(reply, offered);
    assert(next.retries.drop_last() == s.retries);
}

/// An attempt offers the hundredths of what is not sold yet, and a sale goes on exactly as long as
/// there are any, fewer than forty attempts were made, and nothing has ended it.
pub proof fn law_attempt_offers_the_rest(s: Selling)
    ensures
        ({
            let rest = minus(s.sellable_shares, s.sold_shares);
            let hundredths = over(rounded_down(times(rest, of_nat(100))), of_nat(100));
            &&& s.left() == hundredths
            &&& s.goes_on() <==> !s.over && s.attempts < 40 && !at_most(hundredths, of_nat(0))
            &&& s.goes_on() ==> s.begun().attempts == s.attempts + 1 && s.begun().over == s.over
            &&& !s.goes_on() ==> s.begun().over && s.begun().attempts == s.attempts
            &&& s.begun().sold_shares == s.sold_shares
            &&& s.begun().sale_proceeds == s.sale_proceeds
            &&& s.begun().last_order == s.last_order
            &&& s.begun().retries == s.retries
            &&& s.pause() == (if less(of_nat(0), hundredths) {
                250u64
            } else {
                0u64
            })
        }),
{
}

/// Resting orders take over exactly where more than 0.00001 of the shares is left and the balance
/// was not the reason; what they sold and what it brought in is added to what was sold before.
pub proof fn law_resting_orders_take_over(s: Selling, fallback: GtcExitResult)
    ensures
        s.short() <==> less(plus(s.sold_shares, ratio(1, 100_000)), s.sellable_shares),
        s.needs_fallback() <==> s.short() && !s.balance_retry_exhausted,
        ({
            let all = s.with_fallback(fallback);
            &&& all.sold_shares == plus(s.sold_shares, fallback.sold_shares)
            &&& all.sale_proceeds == plus(s.sale_proceeds, fallback.sale_proceeds)
            &&& fallback.error is Some ==> all.last_error == fallback.error
            &&& fallback.error is None ==> all.last_error == s.last_error
            &&& all.last_order == s.last_order
            &&& all.sellable_shares == s.sellable_shares
            &&& all.attempts == s.attempts
            &&& all.retries == s.retries
            &&& all.balance_retry_exhausted == s.balance_retry_exhausted
        }),
{
}

/// A sale begins with nothing sold and no attempt made; it makes at most forty, each while something
/// is left, and waits for an answer between an attempt and the next.
pub proof fn law_sale_begins(sellable: Binary64, exit_bid: Binary64, sale: Selling)
    ensures
        ({
            let s = Selling::started(sellable, exit_bid);
            &&& s.sellable_shares == sellable
            &&& s.exit_bid == exit_bid
            &&& s.sold_shares == of_nat(0) && s.sale_proceeds == of_nat(0)
            &&& s.last_order is None && s.last_error is None
            &&& s.attempts == 0 && s.retries.len() == 0
            &&& !s.balance_retry_exhausted && !s.over
            &&& !s.awaits_reply()
        }),
        ({
            let next = sale.begun();
            let left = over(
                rounded_down(times(minus(sale.sellable_shares, sale.sold_shares), of_nat(100))),
                of_nat(100),
            );
            let on = !sale.over && sale.attempts < 40 && !at_most(left, of_nat(0));
            &&& next.over == !on
            &&& next.attempts == sale.attempts + (if on {
                1int
            } else {
                0int
            })
            &&& next.sold_shares == sale.sold_shares
            &&& next.retries == sale.retries
            &&& on && sale.retries.len() == sale.attempts ==> next.awaits_reply()
            &&& !on ==> !next.awaits_reply()
        }),
{
}

} // verus!
