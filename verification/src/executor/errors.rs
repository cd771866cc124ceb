//! What an exchange's error text says.

use vstd::prelude::*;

use crate::text::{
    contains, holds, join, law_occurs, lower_case, lowered, occurs, occurs_at,
};

verus! {

/// The order found nothing on the other side of the book.
pub open spec fn no_match(error: Seq<char>) -> bool {
    occurs(error, "no orders found to match with FAK order"@)
}

/// The exchange does not see the bought shares yet.
pub open spec fn balance_not_settled(error: Seq<char>) -> bool {
    let e = lowered(error);
    ||| occurs(e, "not enough balance / allowance"@)
    ||| occurs(e, "balance: 0"@) && occurs(e, "order amount"@)
    ||| occurs(e, "balance is not enough"@) && occurs(e, "allowance"@)
}

pub fn is_no_match_error(error: &str) -> (r: bool)
    ensures
        r == no_match(error@),
{
    contains(error, "no orders found to match with FAK order")
}

pub fn is_balance_not_settled_error(error: &str) -> (r: bool)
    ensures
        r == balance_not_settled(error@),
{
    let lower: Vec<char> = lower_case(error);
    let e: &[char] = lower.as_slice();
    holds(e, "not enough balance / allowance") || (holds(e, "balance: 0") && holds(
        e,
        "order amount",
    )) || (holds(e, "balance is not enough") && holds(e, "allowance"))
}

/// Why an order was not carried out as asked.
#[derive(Debug, Clone, PartialEq, Eq)]
pub enum OrderFault {
    /// What the exchange or the way to it answered.
    Exchange(String),
    EntryStatusFailed(String),
    EntryCancelFailed(String),
    EntryUnverified(String),
    EntryCancelUnconfirmed,
    ExitStatusFailed(String),
    ExitCancelFailed(String),
    ExitUnverified(String),
    ExitCancelUnconfirmed,
    FloorOrderOpen,
}

impl OrderFault {
    pub open spec fn message(self) -> Seq<char> {
        match self {
            OrderFault::Exchange(e) => e@,
            OrderFault::EntryStatusFailed(e) => "GTC entry status failed: "@ + e@,
            OrderFault::EntryCancelFailed(e) => "GTC entry cancel failed: "@ + e@,
            OrderFault::EntryUnverified(e) =>
                "GTC entry canceled order fill could not be verified: "@ + e@,
            OrderFault::EntryCancelUnconfirmed => "GTC entry cancellation was not confirmed"@,
            OrderFault::ExitStatusFailed(e) => "GTC order status failed: "@ + e@,
            OrderFault::ExitCancelFailed(e) => "GTC cancel failed: "@ + e@,
            OrderFault::ExitUnverified(e) => "GTC canceled order fill could not be verified: "@
                + e@,
            OrderFault::ExitCancelUnconfirmed => "GTC cancellation was not confirmed"@,
            OrderFault::FloorOrderOpen => "GTC floor order is still open"@,
        }
    }

    /// The fault in words.
    pub fn text(&self) -> (r: String)
        ensures
            r@ == self.message(),
    {
        match self {
            OrderFault::Exchange(e) => e.clone(),
            OrderFault::EntryStatusFailed(e) => join("GTC entry status failed: ", e.as_str()),
            OrderFault::EntryCancelFailed(e) => join("GTC entry cancel failed: ", e.as_str()),
            OrderFault::EntryUnverified(e) => join(
                "GTC entry canceled order fill could not be verified: ",
                e.as_str(),
            ),
            OrderFault::EntryCancelUnconfirmed => "GTC entry cancellation was not confirmed"
                .to_owned(),
            OrderFault::ExitStatusFailed(e) => join("GTC order status failed: ", e.as_str()),
            OrderFault::ExitCancelFailed(e) => join("GTC cancel failed: ", e.as_str()),
            OrderFault::ExitUnverified(e) => join(
                "GTC canceled order fill could not be verified: ",
                e.as_str(),
            ),
            OrderFault::ExitCancelUnconfirmed => "GTC cancellation was not confirmed".to_owned(),
            OrderFault::FloorOrderOpen => "GTC floor order is still open".to_owned(),
        }
    }
}

/// The errors that ask for another attempt are told by their words: whatever stands around them, and
/// for a balance whatever their case.
pub proof fn law_told_errors(before: Seq<char>, between: Seq<char>, after: Seq<char>)
    ensures
        no_match(before + "no orders found to match with FAK order"@ + after),
        lowered(before + between + after) == lowered(before) + lowered(between) + lowered(after),
        lowered(between) == "not enough balance / allowance"@ ==> balance_not_settled(
            before + between + after,
        ),
        lowered(between) == "balance: 0"@ && occurs(lowered(before), "order amount"@)
            ==> balance_not_settled(before + between + after),
        lowered(between) == "balance is not enough"@ && occurs(lowered(before), "allowance"@)
            ==> balance_not_settled(before + between + after),
{
    law_occurs(
        before,
        "no orders found to match with FAK order"@,
        before,
        after,
    );
    let e = lowered(before + between + after);
    assert(e == lowered(before) + lowered(between) + lowered(after));
    law_occurs(e, lowered(between), lowered(before), lowered(after));
    assert forall|part: Seq<char>| occurs(lowered(before), part) implies #[trigger] occurs(
        e,
        part,
    ) by {
        let at = choose|at: int| occurs_at(lowered(before), part, at);
        assert(e.subrange(at, at + part.len()) == lowered(before).subrange(at, at + part.len()));
        assert(occurs_at(e, part, at));
    }
}

/// An error that has none of the words is no such error, and one of two words does not do.
pub proof fn law_other_errors(error: Seq<char>)
    ensures
        !occurs(error, "no orders found to match with FAK order"@) ==> !no_match(error),
        ({
            let e = lowered(error);
            let none = !occurs(e, "not enough balance / allowance"@);
            &&& none && !occurs(e, "balance: 0"@) && !occurs(e, "balance is not enough"@)
                ==> !balance_not_settled(error)
            &&& none && !occurs(e, "order amount"@) && !occurs(e, "allowance"@)
                ==> !balance_not_settled(error)
            &&& none && !occurs(e, "balance: 0"@) && !occurs(e, "allowance"@)
                ==> !balance_not_settled(error)
            &&& none && !occurs(e, "order amount"@) && !occurs(e, "balance is not enough"@)
                ==> !balance_not_settled(error)
        }),
{
}

/// What the exchange answered stands at the end of a fault's words, and faults of an entry and of an
/// exit are told apart.
pub proof fn law_fault_words(e: String)
    ensures
        OrderFault::Exchange(e).message() == e@,
        OrderFault::EntryStatusFailed(e).message() == "GTC entry status failed: "@ + e@,
        OrderFault::EntryCancelFailed(e).message() == "GTC entry cancel failed: "@ + e@,
        OrderFault::EntryUnverified(e).message()
            == "GTC entry canceled order fill could not be verified: "@ + e@,
        OrderFault::EntryCancelUnconfirmed.message() == "GTC entry cancellation was not confirmed"@,
        OrderFault::ExitStatusFailed(e).message() == "GTC order status failed: "@ + e@,
        OrderFault::ExitCancelFailed(e).message() == "GTC cancel failed: "@ + e@,
        OrderFault::ExitUnverified(e).message()
            == "GTC canceled order fill could not be verified: "@ + e@,
        OrderFault::ExitCancelUnconfirmed.message() == "GTC cancellation was not confirmed"@,
        OrderFault::FloorOrderOpen.message() == "GTC floor order is still open"@,
{
}

} // verus!
