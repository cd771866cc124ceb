//! Settings of the exchange client.

use vstd::prelude::*;

use super::token::{parse_token, token_number};
use crate::market::ActiveMarket;
use crate::text::same_text;

verus! {

/// How orders are signed.
#[derive(Debug, Clone, Copy, PartialEq, Eq, Structural)]
pub enum SignatureType {
    Eoa,
    Proxy,
    GnosisSafe,
    Poly1271,
}

/// The way of signing that a setting names.
pub open spec fn signature_of(value: Seq<char>) -> Option<SignatureType> {
    if value == "0"@ || value == "EOA"@ || value == "eoa"@ {
        Some(SignatureType::Eoa)
    } else if value == "1"@ || value == "PROXY"@ || value == "proxy"@ {
        Some(SignatureType::Proxy)
    } else if value == "2"@ || value == "GNOSIS_SAFE"@ || value == "gnosis_safe"@ {
        Some(SignatureType::GnosisSafe)
    } else if value == "3"@ || value == "POLY1271"@ || value == "poly1271"@ {
        Some(SignatureType::Poly1271)
    } else {
        None
    }
}

/// The way of signing: the one that is set, or else the one that goes with a funder or without.
pub fn parse_signature_type(value: Option<&str>, has_funder: bool) -> (r: Result<
    SignatureType,
    &'static str,
>)
    ensures
        ({
            let wanted = match value {
                Some(v) => signature_of(v@),
                None => if has_funder {
                    Some(SignatureType::Poly1271)
                } else {
                    Some(SignatureType::Eoa)
                },
            };
            match wanted {
                Some(t) => r == Ok::<SignatureType, &'static str>(t),
                None => r == Err::<SignatureType, &'static str>(
                    "invalid POLYMARKET_SIGNATURE_TYPE",
                ),
            }
        }),
{
    let value: &str = match value {
        Some(v) => v,
        None => {
            return Ok(
                if has_funder {
                    SignatureType::Poly1271
                } else {
                    SignatureType::Eoa
                },
            );
        },
    };
    if same_text(value, "0") || same_text(value, "EOA") || same_text(value, "eoa") {
        Ok(SignatureType::Eoa)
    } else if same_text(value, "1") || same_text(value, "PROXY") || same_text(value, "proxy") {
        Ok(SignatureType::Proxy)
    } else if same_text(value, "2") || same_text(value, "GNOSIS_SAFE") || same_text(
        value,
        "gnosis_safe",
    ) {
        Ok(SignatureType::GnosisSafe)
    } else if same_text(value, "3") || same_text(value, "POLY1271") || same_text(
        value,
        "poly1271",
    ) {
        Ok(SignatureType::Poly1271)
    } else {
        Err("invalid POLYMARKET_SIGNATURE_TYPE")
    }
}

/// The words of the number that a token writes, from the lowest up.
pub fn token_words(token_id: &str) -> (r: Result<(u64, u64, u64, u64), &'static str>)
    ensures
        match token_number(token_id@) {
            Some(words) => r == Ok::<(u64, u64, u64, u64), &'static str>(words),
            None => r == Err::<(u64, u64, u64, u64), &'static str>("invalid warm-up token id"),
        },
{
    match parse_token(token_id) {
        Some(words) => Ok(words),
        None => Err("invalid warm-up token id"),
    }
}

/// The market that the client has prepared for last.
#[derive(Debug)]
pub struct WarmUp {
    pub last_slug: String,
}

impl WarmUp {
    pub fn new() -> (r: Self)
        ensures
            r.last_slug@ == Seq::<char>::empty(),
    {
        WarmUp { last_slug: String::new() }
    }

    /// Whether the client is to prepare for a market.
    pub fn due(&self, market: &ActiveMarket) -> (r: bool)
        ensures
            r == (market.slug@ != self.last_slug@),
    {
        !same_text(market.slug.as_str(), self.last_slug.as_str())
    }

    /// Takes in whether the client could prepare for a market: one that it could not is tried
    /// again when the market changes next.
    pub fn warmed(&mut self, market: &ActiveMarket, prepared: bool)
        ensures
            final(self).last_slug == if prepared {
                market.slug
            } else {
                old(self).last_slug
            },
    {
        if prepared {
            self.last_slug = market.slug.clone();
        }
    }
}

/// A setting names a way of signing by its number or its word, and no other text names one.
pub proof fn law_signature_names(value: Seq<char>)
    ensures
        match signature_of(value) {
            Some(SignatureType::Eoa) => value == "0"@ || value == "EOA"@ || value == "eoa"@,
            Some(SignatureType::Proxy) => value == "1"@ || value == "PROXY"@ || value == "proxy"@,
            Some(SignatureType::GnosisSafe) => value == "2"@ || value == "GNOSIS_SAFE"@ || value
                == "gnosis_safe"@,
            Some(SignatureType::Poly1271) => value == "3"@ || value == "POLY1271"@ || value
                == "poly1271"@,
            None => {
                &&& value != "0"@ && value != "EOA"@ && value != "eoa"@
                &&& value != "1"@ && value != "PROXY"@ && value != "proxy"@
                &&& value != "2"@ && value != "GNOSIS_SAFE"@ && value != "gnosis_safe"@
                &&& value != "3"@ && value != "POLY1271"@ && value != "poly1271"@
            },
        },
{
}

} // verus!
