//! The market that is traded, and how far it has come.

use vstd::prelude::*;

use crate::binary64::arith::{lemma_nearest_zero, lemma_of_nat_zero};
use crate::binary64::exact::{lemma_whole_is_exact, lemma_whole_quotient};
use crate::binary64::model::{at_most, mag_value, of_nat, over, unit, HIDDEN};
use crate::binary64::Binary64;
use crate::config::MarketConfig;
use crate::health::HealthState;
use crate::json::{listed_texts, read_texts, texts};
use crate::text::{
    decimal, decimal_text, join, lowered, same_letters, same_text, strip_tail, without_tail,
};

pub use crate::time::now_ms;

verus! {

#[derive(Debug, PartialEq, Eq)]
pub struct ActiveMarket {
    pub slug: String,
    pub yes_asset_id: String,
    pub no_asset_id: String,
    pub open_ts_ms: u64,
    pub close_ts_ms: u64,
}

impl Clone for ActiveMarket {
    fn clone(&self) -> (r: Self)
        ensures
            r == *self,
    {
        ActiveMarket {
            slug: self.slug.clone(),
            yes_asset_id: self.yes_asset_id.clone(),
            no_asset_id: self.no_asset_id.clone(),
            open_ts_ms: self.open_ts_ms,
            close_ts_ms: self.close_ts_ms,
        }
    }
}

/// When the active market opens and closes.
#[derive(Debug, Clone, Copy, PartialEq, Eq, Structural)]
pub struct MarketClock {
    pub open_ts_ms: u64,
    pub close_ts_ms: u64,
    pub configured: bool,
}

impl Default for MarketClock {
    fn default() -> (r: Self)
        ensures
            r == (MarketClock { open_ts_ms: 0, close_ts_ms: 0, configured: false }),
    {
        MarketClock { open_ts_ms: 0, close_ts_ms: 0, configured: false }
    }
}

impl MarketClock {
    /// The part of the market's time that is over at `now_ms`.
    pub open spec fn progress(self, now_ms: u64) -> Binary64 {
        over(
            of_nat((now_ms - self.open_ts_ms) as nat),
            of_nat((self.close_ts_ms - self.open_ts_ms) as nat),
        )
    }

    /// The market is open and its progress lies within a range.
    pub open spec fn allows(self, now_ms: u64, low: Binary64, high: Binary64) -> bool {
        &&& self.configured
        &&& self.open_ts_ms <= now_ms <= self.close_ts_ms
        &&& self.open_ts_ms < self.close_ts_ms
        &&& at_most(low, self.progress(now_ms))
        &&& at_most(self.progress(now_ms), high)
    }

    pub fn update(&mut self, market: &ActiveMarket)
        ensures
            *final(self) == (MarketClock {
                open_ts_ms: market.open_ts_ms,
                close_ts_ms: market.close_ts_ms,
                configured: true,
            }),
    {
        self.open_ts_ms = market.open_ts_ms;
        self.close_ts_ms = market.close_ts_ms;
        self.configured = true;
    }

    pub fn progress_allowed(
        &self,
        now_ms: u64,
        min_progress: Binary64,
        max_progress: Binary64,
    ) -> (r: bool)
        ensures
            r == self.allows(now_ms, min_progress, max_progress),
    {
        if !self.configured {
            return false;
        }
        let open: u64 = self.open_ts_ms;
        let close: u64 = self.close_ts_ms;
        if now_ms < open || now_ms > close || open >= close {
            return false;
        }
        let progress: Binary64 = Binary64::from_u64(now_ms - open).div(
            Binary64::from_u64(close - open),
        );
        min_progress.le(progress) && progress.le(max_progress)
    }
}

/// A list of texts as the market service sends it: a list, or a text that writes one in JSON.
#[derive(Debug)]
pub enum StringArray {
    Json(String),
    Array(Vec<String>),
}

/// The texts of such a list.
pub fn json_string_array(value: StringArray) -> (r: Result<Vec<String>, serde_json::Error>)
    ensures
        match value {
            StringArray::Json(json) => match listed_texts(json@) {
                Some(list) => r is Ok && texts(r->Ok_0@) == list,
                None => r is Err,
            },
            StringArray::Array(list) => r is Ok && r->Ok_0 == list,
        },
{
    match value {
        StringArray::Json(json) => read_texts(json.as_str()),
        StringArray::Array(list) => Ok(list),
    }
}

/// A market of an event, as the directory lists it.
#[derive(Debug)]
pub struct GammaMarket {
    pub outcomes: Vec<String>,
    pub clob_token_ids: Vec<String>,
    pub active: bool,
    pub closed: bool,
    pub enable_order_book: bool,
}

impl GammaMarket {
    pub open spec fn tradable(self) -> bool {
        self.active && !self.closed && self.enable_order_book
    }
}

/// The first market from `i` on that can be traded; the length where there is none.
pub open spec fn tradable_index(markets: Seq<GammaMarket>, i: int) -> int
    decreases markets.len() - i,
{
    if i >= markets.len() {
        markets.len() as int
    } else if markets[i].tradable() {
        i
    } else {
        tradable_index(markets, i + 1)
    }
}

/// The outcome label means that the price goes up.
pub open spec fn up_label(label: Seq<char>) -> bool {
    lowered(label) == lowered("up"@) || lowered(label) == lowered("yes"@)
}

/// The outcome label means that the price goes down.
pub open spec fn down_label(label: Seq<char>) -> bool {
    !up_label(label) && (lowered(label) == lowered("down"@) || lowered(label) == lowered("no"@))
}

/// The token of the last of the first `n` outcomes with a label of one direction.
pub open spec fn token_for(
    outcomes: Seq<String>,
    tokens: Seq<String>,
    n: int,
    up: bool,
) -> Option<String>
    decreases n,
{
    if n <= 0 {
        None
    } else if (if up {
        up_label(outcomes[n - 1]@)
    } else {
        down_label(outcomes[n - 1]@)
    }) {
        Some(tokens[n - 1])
    } else {
        token_for(outcomes, tokens, n - 1, up)
    }
}

/// The market of an event, by the labels of its outcomes.
pub open spec fn selected(
    markets: Seq<GammaMarket>,
    slug: String,
    window_start: u64,
    interval: u64,
) -> Result<ActiveMarket, &'static str> {
    let i = tradable_index(markets, 0);
    if i >= markets.len() {
        Err("Gamma event has no active orderbook market")
    } else {
        let outcomes = markets[i].outcomes@;
        let tokens = markets[i].clob_token_ids@;
        let n = outcomes.len() as int;
        if outcomes.len() != tokens.len() {
            Err("Gamma outcomes/token IDs length mismatch")
        } else if token_for(outcomes, tokens, n, true) is None {
            Err("Gamma market has no UP/YES outcome")
        } else if token_for(outcomes, tokens, n, false) is None {
            Err("Gamma market has no DOWN/NO outcome")
        } else {
            Ok(
                ActiveMarket {
                    slug,
                    yes_asset_id: token_for(outcomes, tokens, n, true)->0,
                    no_asset_id: token_for(outcomes, tokens, n, false)->0,
                    open_ts_ms: (window_start * 1_000) as u64,
                    close_ts_ms: ((window_start + interval) * 1_000) as u64,
                },
            )
        }
    }
}

fn is_up(label: &str) -> (r: bool)
    ensures
        r == up_label(label@),
{
    same_letters(label, "up") || same_letters(label, "yes")
}

fn is_down(label: &str) -> (r: bool)
    ensures
        r == down_label(label@),
{
    !is_up(label) && (same_letters(label, "down") || same_letters(label, "no"))
}

fn find_token(outcomes: &Vec<String>, tokens: &Vec<String>, up: bool) -> (r: Option<String>)
    requires
        outcomes@.len() == tokens@.len(),
    ensures
        r == token_for(outcomes@, tokens@, outcomes@.len() as int, up),
{
    let mut i: usize = outcomes.len();
    while i > 0
        invariant
            i <= outcomes@.len(),
            outcomes@.len() == tokens@.len(),
            token_for(outcomes@, tokens@, outcomes@.len() as int, up) == token_for(
                outcomes@,
                tokens@,
                i as int,
                up,
            ),
        decreases i,
    {
        let label: &str = outcomes[i - 1].as_str();
        let found: bool = if up {
            is_up(label)
        } else {
            is_down(label)
        };
        if found {
            return Some(tokens[i - 1].clone());
        }
        i -= 1;
    }
    None
}

/// Selects the market of an event whose window begins at `window_start_seconds`.
pub fn select_market(
    markets: &Vec<GammaMarket>,
    slug: String,
    window_start_seconds: u64,
    interval_seconds: u64,
) -> (r: Result<ActiveMarket, &'static str>)
    requires
        (window_start_seconds + interval_seconds) * 1_000 <= u64::MAX,
    ensures
        r == selected(markets@, slug, window_start_seconds, interval_seconds),
{
    let mut i: usize = 0;
    while i < markets.len() && !(markets[i].active && !markets[i].closed
        && markets[i].enable_order_book)
        invariant
            i <= markets@.len(),
            tradable_index(markets@, 0) == tradable_index(markets@, i as int),
        decreases markets@.len() - i,
    {
        i += 1;
    }
    if i >= markets.len() {
        return Err("Gamma event has no active orderbook market");
    }
    let market: &GammaMarket = &markets[i];
    if market.outcomes.len() != market.clob_token_ids.len() {
        return Err("Gamma outcomes/token IDs length mismatch");
    }
    let yes_asset_id: String = match find_token(&market.outcomes, &market.clob_token_ids, true) {
        Some(id) => id,
        None => return Err("Gamma market has no UP/YES outcome"),
    };
    let no_asset_id: String = match find_token(&market.outcomes, &market.clob_token_ids, false) {
        Some(id) => id,
        None => return Err("Gamma market has no DOWN/NO outcome"),
    };
    Ok(
        ActiveMarket {
            slug,
            yes_asset_id,
            no_asset_id,
            open_ts_ms: window_start_seconds * 1_000,
            close_ts_ms: (window_start_seconds + interval_seconds) * 1_000,
        },
    )
}

/// The beginning of the window that `now_ms` lies in, in seconds.
pub open spec fn window_start_of(now_ms: u64, interval_seconds: u64) -> u64 {
    (now_ms as int / 1_000 / interval_seconds as int * interval_seconds) as u64
}

/// The name of the market whose window begins at `window_start`.
pub open spec fn slug_of(prefix: Seq<char>, window_start: u64) -> Seq<char> {
    prefix + "-"@ + decimal(window_start as nat)
}

/// The window that a moment lies in.
pub fn window_start(now_ms: u64, interval_seconds: u64) -> (r: u64)
    requires
        interval_seconds > 0,
    ensures
        r == window_start_of(now_ms, interval_seconds),
        r <= now_ms / 1_000,
        now_ms / 1_000 < r + interval_seconds,
        r % interval_seconds == 0,
{
    let seconds: u64 = now_ms / 1_000;
    let count: u64 = seconds / interval_seconds;
    proof {
        vstd::arithmetic::div_mod::lemma_fundamental_div_mod(
            seconds as int,
            interval_seconds as int,
        );
        assert(interval_seconds * count == count * interval_seconds) by (nonlinear_arith);
        assert(0 <= count * interval_seconds) by (nonlinear_arith);
        vstd::arithmetic::div_mod::lemma_mod_multiples_basic(count as int, interval_seconds as int);
    }
    count * interval_seconds
}

/// The name of a market.
pub fn market_slug(prefix: &str, window_start: u64) -> (r: String)
    ensures
        r@ == slug_of(prefix@, window_start),
{
    join(join(prefix, "-").as_str(), decimal_text(window_start).as_str())
}

/// The address of an event in the directory.
pub fn event_url(base_url: &str, slug: &str) -> (r: String)
    ensures
        r@ == without_tail(base_url@, '/') + "/events/slug/"@ + slug@,
{
    join(join(strip_tail(base_url, '/').as_str(), "/events/slug/").as_str(), slug)
}

/// A market to look for.
#[derive(Debug)]
pub struct Discovery {
    pub slug: String,
    pub window_start_seconds: u64,
}

/// Which market was found last.
#[derive(Debug)]
pub struct MarketWatch {
    pub current_slug: String,
}

impl MarketWatch {
    pub fn new() -> (r: Self)
        ensures
            r.current_slug@ == Seq::<char>::empty(),
    {
        MarketWatch { current_slug: String::new() }
    }

    /// The market to look for at a moment: none while the one that was found is still open.
    pub fn due(&self, config: &MarketConfig, now_ms: u64) -> (r: Option<Discovery>)
        requires
            config.interval_seconds > 0,
        ensures
            ({
                let start = window_start_of(now_ms, config.interval_seconds);
                let slug = slug_of(config.slug_prefix@, start);
                match r {
                    Some(d) => slug != self.current_slug@ && d.slug@ == slug
                        && d.window_start_seconds == start,
                    None => slug == self.current_slug@,
                }
            }),
    {
        let start: u64 = window_start(now_ms, config.interval_seconds);
        let slug: String = market_slug(config.slug_prefix.as_str(), start);
        if same_text(slug.as_str(), self.current_slug.as_str()) {
            None
        } else {
            Some(Discovery { slug, window_start_seconds: start })
        }
    }

    /// Takes the answer to a discovery in.  Either way the market is not ready until its books
    /// come in; a market that was found sets the clock and is handed on.
    pub fn discovered(
        &mut self,
        answer: Result<ActiveMarket, &'static str>,
        clock: &mut MarketClock,
        health: &mut HealthState,
    ) -> (r: Option<ActiveMarket>)
        ensures
            *final(health) == (HealthState { market_ready: false, ..*old(health) }),
            match answer {
                Ok(market) => {
                    &&& r == Some(market)
                    &&& final(self).current_slug == market.slug
                    &&& *final(clock) == (MarketClock {
                        open_ts_ms: market.open_ts_ms,
                        close_ts_ms: market.close_ts_ms,
                        configured: true,
                    })
                },
                Err(_) => {
                    &&& r is None
                    &&& *final(self) == *old(self)
                    &&& *final(clock) == *old(clock)
                },
            },
    {
        health.set_market_ready(false);
        match answer {
            Ok(market) => {
                clock.update(&market);
                self.current_slug = market.slug.clone();
                Some(market)
            },
            Err(_) => None,
        }
    }
}

/// Trading is allowed at no moment outside of the market's window.
pub proof fn law_clock_window(clock: MarketClock, now_ms: u64, low: Binary64, high: Binary64)
    requires
        now_ms < clock.open_ts_ms || now_ms > clock.close_ts_ms,
    ensures
        !clock.allows(now_ms, low, high),
{
}

/// A wider range of progress allows every moment that a narrower one does.
pub proof fn law_clock_monotone(
    clock: MarketClock,
    now_ms: u64,
    low: Binary64,
    high: Binary64,
    lower: Binary64,
    higher: Binary64,
)
    requires
        clock.allows(now_ms, low, high),
        at_most(lower, low),
        at_most(high, higher),
    ensures
        clock.allows(now_ms, lower, higher),
{
    reveal(at_most);
}

/// A market that was selected lasts one interval, from the beginning of its window.
pub proof fn law_selected_window(
    markets: Seq<GammaMarket>,
    slug: String,
    start: u64,
    interval: u64,
)
    requires
        (start + interval) * 1_000 <= u64::MAX,
    ensures
        selected(markets, slug, start, interval) matches Ok(m) ==> {
            &&& m.slug == slug
            &&& m.open_ts_ms == start * 1_000
            &&& m.close_ts_ms - m.open_ts_ms == interval * 1_000
        },
{
}

/// Trading is allowed exactly while the market's window is known, open and not empty, and the part of
/// it that has gone by lies within the range: none at its beginning, all at its end.
pub proof fn law_progress(clock: MarketClock, now_ms: u64, low: Binary64, high: Binary64)
    ensures
        clock.allows(now_ms, low, high) <==> {
            let gone = of_nat((now_ms - clock.open_ts_ms) as nat);
            let whole = of_nat((clock.close_ts_ms - clock.open_ts_ms) as nat);
            &&& clock.configured
            &&& clock.open_ts_ms <= now_ms
            &&& now_ms <= clock.close_ts_ms
            &&& clock.open_ts_ms < clock.close_ts_ms
            &&& at_most(low, over(gone, whole))
            &&& at_most(over(gone, whole), high)
        },
        clock.open_ts_ms < clock.close_ts_ms < 2 * HIDDEN ==> clock.progress(clock.close_ts_ms)
            == of_nat(1) && clock.progress(clock.open_ts_ms).zero(),
{
    if clock.open_ts_ms < clock.close_ts_ms < 2 * HIDDEN {
        let whole = (clock.close_ts_ms - clock.open_ts_ms) as nat;
        assert(1 * whole == whole);
        lemma_whole_quotient(1, whole);
        lemma_of_nat_zero();
        lemma_whole_is_exact(whole);
        reveal(over);
        let d = mag_value(of_nat(whole).magnitude());
        let u = unit();
        vstd::arithmetic::power2::lemma_pow2_pos(1074);
        crate::binary64::order::lemma_magnitude_zero(0);
        assert(d > 0) by (nonlinear_arith)
            requires
                d == whole * u,
                whole > 0,
                u > 0,
        ;
        assert(0 * u == 0) by (nonlinear_arith);
        lemma_nearest_zero(d);
    }
}

proof fn lemma_token_for(outcomes: Seq<String>, tokens: Seq<String>, n: int, up: bool)
    requires
        0 <= n <= outcomes.len(),
    ensures
        match token_for(outcomes, tokens, n, up) {
            Some(token) => exists|k: int|
                {
                    &&& 0 <= k < n
                    &&& labelled(#[trigger] outcomes[k], up)
                    &&& token == tokens[k]
                    &&& forall|j: int| k < j < n ==> !labelled(#[trigger] outcomes[j], up)
                },
            None => forall|j: int| 0 <= j < n ==> !labelled(#[trigger] outcomes[j], up),
        },
    decreases n,
{
    if n > 0 {
        if labelled(outcomes[n - 1], up) {
            assert(token_for(outcomes, tokens, n, up) == Some(tokens[n - 1]));
        } else {
            lemma_token_for(outcomes, tokens, n - 1, up);
        }
    }
}

proof fn lemma_tradable_index(markets: Seq<GammaMarket>, i: int)
    requires
        0 <= i <= markets.len(),
    ensures
        i <= tradable_index(markets, i) <= markets.len(),
        forall|j: int|
            i <= j < tradable_index(markets, i) ==> !((#[trigger] markets[j]).active
                && !markets[j].closed && markets[j].enable_order_book),
        tradable_index(markets, i) < markets.len() ==> {
            let m = markets[tradable_index(markets, i)];
            m.active && !m.closed && m.enable_order_book
        },
    decreases markets.len() - i,
{
    if i < markets.len() && !markets[i].tradable() {
        lemma_tradable_index(markets, i + 1);
    }
}

/// An outcome is labelled as a rise, "up" or "yes", or as a fall, "down" or "no", in letters of any
/// case.
pub open spec fn labelled(outcome: String, up: bool) -> bool {
    let label = lowered(outcome@);
    let rises = label == lowered("up"@) || label == lowered("yes"@);
    if up {
        rises
    } else {
        !rises && (label == lowered("down"@) || label == lowered("no"@))
    }
}

/// The market that is selected is the first of the event that is active, not closed and has an order
/// book.  Its yes token is that of its last outcome that is labelled as a rise, and its no token
/// that of the last one labelled as a fall; nothing is selected where one of them is missing.
pub proof fn law_selected_tokens(
    markets: Seq<GammaMarket>,
    slug: String,
    start: u64,
    interval: u64,
    i: int,
)
    requires
        0 <= i < markets.len(),
        markets[i].active && !markets[i].closed && markets[i].enable_order_book,
        forall|j: int|
            0 <= j < i ==> !((#[trigger] markets[j]).active && !markets[j].closed
                && markets[j].enable_order_book),
    ensures
        ({
            let outcomes = markets[i].outcomes@;
            let tokens = markets[i].clob_token_ids@;
            let choice = selected(markets, slug, start, interval);
            &&& choice matches Ok(market) ==> {
                &&& outcomes.len() == tokens.len()
                &&& exists|k: int|
                    {
                        &&& 0 <= k < outcomes.len()
                        &&& labelled(#[trigger] outcomes[k], true)
                        &&& market.yes_asset_id == tokens[k]
                        &&& forall|j: int|
                            k < j < outcomes.len() ==> !labelled(#[trigger] outcomes[j], true)
                    }
                &&& exists|k: int|
                    {
                        &&& 0 <= k < outcomes.len()
                        &&& labelled(#[trigger] outcomes[k], false)
                        &&& market.no_asset_id == tokens[k]
                        &&& forall|j: int|
                            k < j < outcomes.len() ==> !labelled(#[trigger] outcomes[j], false)
                    }
            }
            &&& outcomes.len() == tokens.len() && (exists|k: int|
                0 <= k < outcomes.len() && labelled(#[trigger] outcomes[k], true)) && (exists|
                k: int,
            |
                0 <= k < outcomes.len() && labelled(#[trigger] outcomes[k], false)) ==> choice is Ok
        }),
{
    lemma_tradable_index(markets, 0);
    let t = tradable_index(markets, 0);
    if t < i {
        assert(markets[t].active && !markets[t].closed && markets[t].enable_order_book);
    }
    assert(t == i);
    let outcomes = markets[i].outcomes@;
    let tokens = markets[i].clob_token_ids@;
    lemma_token_for(outcomes, tokens, outcomes.len() as int, true);
    lemma_token_for(outcomes, tokens, outcomes.len() as int, false);
}

/// An event without a market that can be traded gives none.
pub proof fn law_no_tradable_market(
    markets: Seq<GammaMarket>,
    slug: String,
    start: u64,
    interval: u64,
)
    requires
        forall|j: int|
            0 <= j < markets.len() ==> !((#[trigger] markets[j]).active && !markets[j].closed
                && markets[j].enable_order_book),
    ensures
        selected(markets, slug, start, interval) is Err,
{
    lemma_tradable_index(markets, 0);
}

/// The window of a moment begins with a multiple of its length, at or before the moment, and ends
/// after it; the next window begins where it ends.
pub proof fn law_windows(now_ms: u64, interval_seconds: u64)
    requires
        interval_seconds > 0,
    ensures
        ({
            let start = window_start_of(now_ms, interval_seconds);
            &&& start * 1_000 <= now_ms < (start + interval_seconds) * 1_000
            &&& start as int % interval_seconds as int == 0
        }),
{
    let seconds = now_ms as int / 1_000;
    let n = interval_seconds as int;
    let count = seconds / n;
    vstd::arithmetic::div_mod::lemma_fundamental_div_mod(seconds, n);
    assert(n * count == count * n) by (nonlinear_arith);
    assert(0 <= count) by (nonlinear_arith)
        requires
            seconds < n * count + n,
            seconds >= 0,
            n > 0,
    ;
    assert(0 <= count * n) by (nonlinear_arith)
        requires
            count >= 0,
            n > 0,
    ;
    vstd::arithmetic::div_mod::lemma_mod_multiples_basic(count, n);
}

} // verus!
