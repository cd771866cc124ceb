//! Token numbers.

use alloy::primitives::U256;
use std::str::FromStr;
use vstd::prelude::*;

verus! {

/// The 256-bit number that `text` writes, as four words from the lowest up, where it writes one:
/// what `U256::from_str` of the `alloy` primitives makes of it.
pub uninterp spec fn token_number(text: Seq<char>) -> Option<(u64, u64, u64, u64)>;

/// `U256::from_str`: the number that the text writes, in decimal or with a prefix for another
/// base, or none where it writes no number of 256 bits.  The number depends on the text alone;
/// which texts write a number is left to `U256`.
#[verifier::external_body]
pub(crate) fn parse_token(text: &str) -> (r: Option<(u64, u64, u64, u64)>)
    ensures
        r == token_number(text@),
{
    match U256::from_str(text) {
        Ok(value) => {
            let words = value.as_limbs();
            Some((words[0], words[1], words[2], words[3]))
        },
        Err(_) => None,
    }
}

} // verus!
