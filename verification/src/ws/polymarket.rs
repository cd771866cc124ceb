//! The order books of a market's two outcomes.

use vstd::prelude::*;
use vstd::string::StringSliceAdditionalSpecFns;
use vstd::utf8::encode_utf8;

use crate::binary64::exact::{lemma_difference_with_itself, lemma_zero_is_close};
use crate::binary64::model::{
    at_most, greater, less, lesser, minus, of_nat, ratio, same, unsigned, QUIET_NAN,
};
use crate::binary64::Binary64;
use crate::health::HealthState;
use crate::json::{json_string, push_string, push_text};
use crate::text::{characters, lowered, number, parse_number, same_letters, same_text};

verus! {

#[derive(Debug, Clone, Copy, PartialEq, Eq, Structural)]
pub struct OutcomeBook {
    pub bid: Option<Binary64>,
    pub ask: Option<Binary64>,
}

#[derive(Debug, Clone, Copy, PartialEq, Eq, Structural)]
pub struct BookSnapshot {
    pub yes: OutcomeBook,
    pub no: OutcomeBook,
    pub received_at_ms: u64,
    pub source_ts_ms: u64,
}

#[derive(Debug, Clone, Copy, PartialEq, Eq, Structural)]
pub struct DepthLevel {
    pub price: Binary64,
    pub size: Binary64,
}

#[derive(Debug, PartialEq, Eq)]
pub struct OutcomeDepth {
    pub bids: Vec<DepthLevel>,
    pub asks: Vec<DepthLevel>,
}

#[derive(Debug, PartialEq, Eq)]
pub struct DepthSnapshot {
    pub yes: OutcomeDepth,
    pub no: OutcomeDepth,
    pub received_at_ms: u64,
    pub source_ts_ms: u64,
}

/// The levels of an outcome's book.
#[verifier::ext_equal]
pub struct OutcomeLevels {
    pub bids: Seq<DepthLevel>,
    pub asks: Seq<DepthLevel>,
}

/// The levels of both books.
#[verifier::ext_equal]
pub struct MarketLevels {
    pub yes: OutcomeLevels,
    pub no: OutcomeLevels,
    pub received_at_ms: u64,
    pub source_ts_ms: u64,
}

impl View for OutcomeDepth {
    type V = OutcomeLevels;

    open spec fn view(&self) -> OutcomeLevels {
        OutcomeLevels { bids: self.bids@, asks: self.asks@ }
    }
}

impl View for DepthSnapshot {
    type V = MarketLevels;

    open spec fn view(&self) -> MarketLevels {
        MarketLevels {
            yes: self.yes@,
            no: self.no@,
            received_at_ms: self.received_at_ms,
            source_ts_ms: self.source_ts_ms,
        }
    }
}

#[derive(Debug, Clone, Copy, PartialEq, Eq, Structural)]
pub enum TradeSide {
    Buy,
    Sell,
}

#[derive(Debug, Clone, Copy, PartialEq, Eq, Structural)]
pub struct TradePrint {
    pub is_yes: bool,
    pub side: TradeSide,
    pub price: Binary64,
    pub size: Binary64,
    pub received_at_ms: u64,
    pub source_ts_ms: u64,
}

/// A number that a message writes as text: none where the text writes no number.
#[derive(Debug, Clone, Copy, PartialEq, Eq, Structural)]
pub struct Quoted {
    pub value: Option<Binary64>,
}

#[derive(Debug, Clone, Copy, PartialEq, Eq, Structural)]
pub struct PriceLevel {
    pub price: Quoted,
    pub size: Quoted,
}

#[derive(Debug)]
pub struct PriceChange {
    pub asset_id: String,
    pub best_bid: Option<Quoted>,
    pub best_ask: Option<Quoted>,
    pub price: Option<Quoted>,
    pub size: Option<Quoted>,
    pub side: Option<String>,
}

/// A whole number that a message writes as a number or as text.
#[derive(Debug)]
pub enum WireU64 {
    Number(u64),
    Text(String),
}

/// A message of the market stream.
#[derive(Debug)]
pub enum MarketEvent {
    Book {
        asset_id: String,
        bids: Vec<PriceLevel>,
        asks: Vec<PriceLevel>,
        timestamp: Option<WireU64>,
    },
    PriceChange { price_changes: Vec<PriceChange>, timestamp: Option<WireU64> },
    LastTradePrice {
        asset_id: String,
        price: Quoted,
        side: Option<String>,
        size: Option<Quoted>,
        timestamp: Option<WireU64>,
    },
    Other,
}

// ---------------------------------------------------------------------------------------------
// What the numbers of a message stand for.

pub open spec fn valid_price(q: Quoted) -> Option<Binary64> {
    match q.value {
        Some(p) if at_most(of_nat(0), p) && at_most(p, of_nat(1)) => Some(p),
        _ => None,
    }
}

pub open spec fn valid_size(q: Quoted) -> Option<Binary64> {
    match q.value {
        Some(s) if at_most(of_nat(0), s) => Some(s),
        _ => None,
    }
}

pub open spec fn valid_side(side: Seq<char>) -> Option<TradeSide> {
    if lowered(side) == lowered("BUY"@) {
        Some(TradeSide::Buy)
    } else if lowered(side) == lowered("SELL"@) {
        Some(TradeSide::Sell)
    } else {
        None
    }
}

/// The better of two prices for one side of a book: the higher bid, the lower ask.
pub open spec fn better(a: Binary64, b: Binary64, highest: bool) -> Binary64 {
    if highest {
        greater(a, b)
    } else {
        lesser(a, b)
    }
}

/// The better of two prices that may be missing.
pub open spec fn better_some(
    a: Option<Binary64>,
    b: Option<Binary64>,
    highest: bool,
) -> Option<Binary64> {
    match (a, b) {
        (Some(a), Some(b)) => Some(better(a, b, highest)),
        (Some(a), None) => Some(a),
        (None, b) => b,
    }
}

/// The best of the valid prices, in the order of the message.
pub open spec fn best_of(levels: Seq<PriceLevel>, highest: bool) -> Option<Binary64>
    decreases levels.len(),
{
    if levels.len() == 0 {
        None
    } else {
        better_some(
            best_of(levels.drop_last(), highest),
            valid_price(levels.last().price),
            highest,
        )
    }
}

/// The best price of a book's side.
pub open spec fn top_of(levels: Seq<DepthLevel>, highest: bool) -> Option<Binary64>
    decreases levels.len(),
{
    if levels.len() == 0 {
        None
    } else {
        better_some(top_of(levels.drop_last(), highest), Some(levels.last().price), highest)
    }
}

/// The levels whose price and size are both valid.
pub open spec fn levels_of(levels: Seq<PriceLevel>) -> Seq<DepthLevel>
    decreases levels.len(),
{
    if levels.len() == 0 {
        Seq::empty()
    } else {
        let rest = levels_of(levels.drop_last());
        match (valid_price(levels.last().price), valid_size(levels.last().size)) {
            (Some(price), Some(size)) => rest.push(DepthLevel { price, size }),
            _ => rest,
        }
    }
}

/// Two prices are the same level: they differ by less than the spacing of numbers around one.
pub open spec fn same_level(a: Binary64, b: Binary64) -> bool {
    less(unsigned(minus(a, b)), ratio(1, 0x10_0000_0000_0000))
}

/// The first level at `price`, from `i` on; the length where there is none.
pub open spec fn level_index(levels: Seq<DepthLevel>, price: Binary64, i: int) -> int
    decreases levels.len() - i,
{
    if i >= levels.len() {
        levels.len() as int
    } else if same_level(levels[i].price, price) {
        i
    } else {
        level_index(levels, price, i + 1)
    }
}

/// The levels once the size at `price` is `size`: a level of no size leaves, and the last one
/// takes its place.
pub open spec fn leveled(levels: Seq<DepthLevel>, price: Binary64, size: Binary64) -> Seq<
    DepthLevel,
> {
    let i = level_index(levels, price, 0);
    if i < levels.len() {
        if same(size, of_nat(0)) {
            levels.update(i, levels.last()).drop_last()
        } else {
            levels.update(i, DepthLevel { price: levels[i].price, size })
        }
    } else if less(of_nat(0), size) {
        levels.push(DepthLevel { price, size })
    } else {
        levels
    }
}

/// The outcome that an asset is: true for yes, false for no.
pub open spec fn outcome_of(asset: Seq<char>, yes: Seq<char>, no: Seq<char>) -> Option<bool> {
    if asset == yes {
        Some(true)
    } else if asset == no {
        Some(false)
    } else {
        None
    }
}

impl WireU64 {
    pub open spec fn value(self) -> Option<u64> {
        match self {
            WireU64::Number(n) => Some(n),
            WireU64::Text(t) => match number(t@) {
                Some(n) if n <= u64::MAX => Some(n as u64),
                _ => None,
            },
        }
    }

    /// The number, where one is written.
    pub fn get(&self) -> (r: Option<u64>)
        ensures
            r == self.value(),
    {
        match self {
            WireU64::Number(value) => Some(*value),
            WireU64::Text(value) => {
                let c: Vec<char> = characters(value.as_str());
                parse_number(c.as_slice(), u64::MAX)
            },
        }
    }
}

pub open spec fn stamped(snapshot: BookSnapshot, timestamp: Option<WireU64>) -> BookSnapshot {
    match timestamp {
        Some(t) => match t.value() {
            Some(ms) => BookSnapshot { source_ts_ms: ms, ..snapshot },
            None => snapshot,
        },
        None => snapshot,
    }
}

// ---------------------------------------------------------------------------------------------
// What a message does to the books.

/// The books that the engine keeps: the best prices, and the levels where they are tracked.
#[verifier::ext_equal]
pub struct Books {
    pub snapshot: BookSnapshot,
    pub depth: Option<MarketLevels>,
}

impl Books {
    pub open spec fn with_top(self, yes: bool, book: OutcomeBook) -> Self {
        Books {
            snapshot: if yes {
                BookSnapshot { yes: book, ..self.snapshot }
            } else {
                BookSnapshot { no: book, ..self.snapshot }
            },
            ..self
        }
    }

    pub open spec fn with_levels(self, yes: bool, levels: OutcomeLevels) -> Self {
        match self.depth {
            Some(d) => Books {
                depth: Some(
                    if yes {
                        MarketLevels { yes: levels, ..d }
                    } else {
                        MarketLevels { no: levels, ..d }
                    },
                ),
                ..self
            },
            None => self,
        }
    }

    pub open spec fn top(self, yes: bool) -> OutcomeBook {
        if yes {
            self.snapshot.yes
        } else {
            self.snapshot.no
        }
    }

    pub open spec fn levels(self, yes: bool) -> OutcomeLevels {
        if yes {
            self.depth->0.yes
        } else {
            self.depth->0.no
        }
    }

    /// The books after a whole book of one outcome came in.
    pub open spec fn replaced(
        self,
        yes: bool,
        bids: Seq<PriceLevel>,
        asks: Seq<PriceLevel>,
    ) -> Self {
        self.with_top(
            yes,
            OutcomeBook { bid: best_of(bids, true), ask: best_of(asks, false) },
        ).with_levels(yes, OutcomeLevels { bids: levels_of(bids), asks: levels_of(asks) })
    }

    /// The books after one changed level: its outcome's levels are updated where they are
    /// tracked, and the best prices follow them; else the message's own best prices are taken.
    /// A change of a tracked level on neither side of the book is passed over.
    pub open spec fn changed(self, change: PriceChange, yes: bool) -> (Self, bool) {
        if self.depth is Some && change.price is Some && change.size is Some && change.side is Some
            && valid_price(change.price->0) is Some && valid_size(change.size->0) is Some {
            let price = valid_price(change.price->0)->0;
            let size = valid_size(change.size->0)->0;
            let old_levels = self.levels(yes);
            match valid_side(change.side->0@) {
                Some(side) => {
                    let levels = match side {
                        TradeSide::Buy => OutcomeLevels {
                            bids: leveled(old_levels.bids, price, size),
                            ..old_levels
                        },
                        TradeSide::Sell => OutcomeLevels {
                            asks: leveled(old_levels.asks, price, size),
                            ..old_levels
                        },
                    };
                    let book = OutcomeBook {
                        bid: top_of(levels.bids, true),
                        ask: top_of(levels.asks, false),
                    };
                    (self.with_levels(yes, levels).with_top(yes, book), true)
                },
                None => (self, false),
            }
        } else {
            let book = OutcomeBook {
                bid: match change.best_bid {
                    Some(q) => valid_price(q),
                    None => self.top(yes).bid,
                },
                ask: match change.best_ask {
                    Some(q) => valid_price(q),
                    None => self.top(yes).ask,
                },
            };
            (self.with_top(yes, book), true)
        }
    }

    /// The books after the first `n` changes of a message, and whether any was taken.
    pub open spec fn changed_by(
        self,
        changes: Seq<PriceChange>,
        n: int,
        yes: Seq<char>,
        no: Seq<char>,
    ) -> (Self, bool)
        decreases n,
    {
        if n <= 0 {
            (self, false)
        } else {
            let (books, any) = self.changed_by(changes, n - 1, yes, no);
            match outcome_of(changes[n - 1].asset_id@, yes, no) {
                Some(outcome) => {
                    let (next, taken) = books.changed(changes[n - 1], outcome);
                    (next, any || taken)
                },
                None => (books, any),
            }
        }
    }

    /// The books after a message, and whether it changed them.
    pub open spec fn after(self, event: MarketEvent, yes: Seq<char>, no: Seq<char>) -> (
        Self,
        bool,
    ) {
        match event {
            MarketEvent::Book { asset_id, bids, asks, timestamp } => match outcome_of(
                asset_id@,
                yes,
                no,
            ) {
                Some(outcome) => {
                    let books = self.replaced(outcome, bids@, asks@);
                    (Books { snapshot: stamped(books.snapshot, timestamp), ..books }, true)
                },
                None => (self, false),
            },
            MarketEvent::PriceChange { price_changes, timestamp } => {
                let (books, any) = self.changed_by(
                    price_changes@,
                    price_changes@.len() as int,
                    yes,
                    no,
                );
                (Books { snapshot: stamped(books.snapshot, timestamp), ..books }, any)
            },
            MarketEvent::LastTradePrice { .. } => (self, false),
            MarketEvent::Other => (self, false),
        }
    }

    /// The books after the first `n` messages, and whether any changed them.
    pub open spec fn after_all(
        self,
        events: Seq<MarketEvent>,
        n: int,
        yes: Seq<char>,
        no: Seq<char>,
    ) -> (Self, bool)
        decreases n,
    {
        if n <= 0 {
            (self, false)
        } else {
            let (books, any) = self.after_all(events, n - 1, yes, no);
            let (next, taken) = books.after(events[n - 1], yes, no);
            (next, any || taken)
        }
    }
}

/// The trade that a message reports, received at `received_at_ms`.
pub open spec fn trade_of(
    event: MarketEvent,
    yes: Seq<char>,
    no: Seq<char>,
    received_at_ms: u64,
) -> Option<TradePrint> {
    match event {
        MarketEvent::LastTradePrice { asset_id, price, side, size, timestamp } => {
            if outcome_of(asset_id@, yes, no) is Some && valid_price(price) is Some && size is Some
                && valid_size(size->0) is Some && side is Some && valid_side(side->0@) is Some {
                Some(
                    TradePrint {
                        is_yes: outcome_of(asset_id@, yes, no)->0,
                        side: valid_side(side->0@)->0,
                        price: valid_price(price)->0,
                        size: valid_size(size->0)->0,
                        received_at_ms,
                        source_ts_ms: match timestamp {
                            Some(t) => match t.value() {
                                Some(ms) => ms,
                                None => 0,
                            },
                            None => 0,
                        },
                    },
                )
            } else {
                None
            }
        },
        _ => None,
    }
}

/// The trades that the first `n` messages report.
pub open spec fn trades_of(
    events: Seq<MarketEvent>,
    n: int,
    yes: Seq<char>,
    no: Seq<char>,
    received_at_ms: u64,
) -> Seq<TradePrint>
    decreases n,
{
    if n <= 0 {
        Seq::empty()
    } else {
        let rest = trades_of(events, n - 1, yes, no, received_at_ms);
        match trade_of(events[n - 1], yes, no, received_at_ms) {
            Some(trade) => rest.push(trade),
            None => rest,
        }
    }
}

// ---------------------------------------------------------------------------------------------

impl Default for OutcomeBook {
    fn default() -> (r: Self)
        ensures
            r == (OutcomeBook { bid: None, ask: None }),
    {
        OutcomeBook { bid: None, ask: None }
    }
}

impl Default for BookSnapshot {
    fn default() -> (r: Self)
        ensures
            r == empty_snapshot(),
    {
        BookSnapshot {
            yes: OutcomeBook { bid: None, ask: None },
            no: OutcomeBook { bid: None, ask: None },
            received_at_ms: 0,
            source_ts_ms: 0,
        }
    }
}

pub open spec fn empty_snapshot() -> BookSnapshot {
    BookSnapshot {
        yes: OutcomeBook { bid: None, ask: None },
        no: OutcomeBook { bid: None, ask: None },
        received_at_ms: 0,
        source_ts_ms: 0,
    }
}

impl Default for DepthLevel {
    fn default() -> (r: Self)
        ensures
            r == (DepthLevel { price: of_nat(0), size: of_nat(0) }),
    {
        DepthLevel { price: Binary64::from_u64(0), size: Binary64::from_u64(0) }
    }
}

pub open spec fn no_levels() -> OutcomeLevels {
    OutcomeLevels { bids: Seq::empty(), asks: Seq::empty() }
}

impl Default for OutcomeDepth {
    fn default() -> (r: Self)
        ensures
            r@ == no_levels(),
    {
        OutcomeDepth { bids: Vec::new(), asks: Vec::new() }
    }
}

impl Default for DepthSnapshot {
    fn default() -> (r: Self)
        ensures
            r@ == (MarketLevels {
                yes: no_levels(),
                no: no_levels(),
                received_at_ms: 0,
                source_ts_ms: 0,
            }),
    {
        DepthSnapshot {
            yes: OutcomeDepth { bids: Vec::new(), asks: Vec::new() },
            no: OutcomeDepth { bids: Vec::new(), asks: Vec::new() },
            received_at_ms: 0,
            source_ts_ms: 0,
        }
    }
}

fn copy_levels(levels: &Vec<DepthLevel>) -> (r: Vec<DepthLevel>)
    ensures
        r@ == levels@,
{
    let mut r: Vec<DepthLevel> = Vec::new();
    let mut i: usize = 0;
    while i < levels.len()
        invariant
            i <= levels@.len(),
            r@ == levels@.take(i as int),
        decreases levels@.len() - i,
    {
        r.push(levels[i]);
        assert(levels@.take(i as int).push(levels@[i as int]) == levels@.take(i + 1));
        i += 1;
    }
    assert(levels@.take(levels@.len() as int) == levels@);
    r
}

impl Clone for OutcomeDepth {
    fn clone(&self) -> (r: Self)
        ensures
            r@ == self@,
    {
        OutcomeDepth { bids: copy_levels(&self.bids), asks: copy_levels(&self.asks) }
    }
}

impl Clone for DepthSnapshot {
    fn clone(&self) -> (r: Self)
        ensures
            r@ == self@,
    {
        DepthSnapshot {
            yes: self.yes.clone(),
            no: self.no.clone(),
            received_at_ms: self.received_at_ms,
            source_ts_ms: self.source_ts_ms,
        }
    }
}

pub fn parse_price(value: Quoted) -> (r: Option<Binary64>)
    ensures
        r == valid_price(value),
{
    match value.value {
        Some(price) => {
            if Binary64::from_u64(0).le(price) && price.le(Binary64::from_u64(1)) {
                Some(price)
            } else {
                None
            }
        },
        None => None,
    }
}

pub fn parse_size(value: Quoted) -> (r: Option<Binary64>)
    ensures
        r == valid_size(value),
{
    match value.value {
        Some(size) => {
            if Binary64::from_u64(0).le(size) {
                Some(size)
            } else {
                None
            }
        },
        None => None,
    }
}

pub fn parse_trade_side(value: &str) -> (r: Option<TradeSide>)
    ensures
        r == valid_side(value@),
{
    if same_letters(value, "BUY") {
        Some(TradeSide::Buy)
    } else if same_letters(value, "SELL") {
        Some(TradeSide::Sell)
    } else {
        None
    }
}

fn select_outcome(asset_id: &str, yes_asset_id: &str, no_asset_id: &str) -> (r: Option<bool>)
    ensures
        r == outcome_of(asset_id@, yes_asset_id@, no_asset_id@),
{
    if same_text(asset_id, yes_asset_id) {
        Some(true)
    } else if same_text(asset_id, no_asset_id) {
        Some(false)
    } else {
        None
    }
}

fn pick(a: Option<Binary64>, b: Option<Binary64>, highest: bool) -> (r: Option<Binary64>)
    ensures
        r == better_some(a, b, highest),
{
    match (a, b) {
        (Some(a), Some(b)) => Some(
            if highest {
                a.max(b)
            } else {
                a.min(b)
            },
        ),
        (Some(a), None) => Some(a),
        (None, b) => b,
    }
}

fn best_price(levels: &Vec<PriceLevel>, highest: bool) -> (r: Option<Binary64>)
    ensures
        r == best_of(levels@, highest),
{
    let mut best: Option<Binary64> = None;
    let mut i: usize = 0;
    while i < levels.len()
        invariant
            i <= levels@.len(),
            best == best_of(levels@.take(i as int), highest),
        decreases levels@.len() - i,
    {
        assert(levels@.take(i + 1).drop_last() == levels@.take(i as int));
        best = pick(best, parse_price(levels[i].price), highest);
        i += 1;
    }
    assert(levels@.take(levels@.len() as int) == levels@);
    best
}

fn best_depth_price(levels: &Vec<DepthLevel>, highest: bool) -> (r: Option<Binary64>)
    ensures
        r == top_of(levels@, highest),
{
    let mut best: Option<Binary64> = None;
    let mut i: usize = 0;
    while i < levels.len()
        invariant
            i <= levels@.len(),
            best == top_of(levels@.take(i as int), highest),
        decreases levels@.len() - i,
    {
        assert(levels@.take(i + 1).drop_last() == levels@.take(i as int));
        best = pick(best, Some(levels[i].price), highest);
        i += 1;
    }
    assert(levels@.take(levels@.len() as int) == levels@);
    best
}

fn parse_levels(levels: &Vec<PriceLevel>) -> (r: Vec<DepthLevel>)
    ensures
        r@ == levels_of(levels@),
{
    let mut r: Vec<DepthLevel> = Vec::new();
    let mut i: usize = 0;
    while i < levels.len()
        invariant
            i <= levels@.len(),
            r@ == levels_of(levels@.take(i as int)),
        decreases levels@.len() - i,
    {
        assert(levels@.take(i + 1).drop_last() == levels@.take(i as int));
        match (parse_price(levels[i].price), parse_size(levels[i].size)) {
            (Some(price), Some(size)) => r.push(DepthLevel { price, size }),
            _ => {},
        }
        i += 1;
    }
    assert(levels@.take(levels@.len() as int) == levels@);
    r
}

/// Sets the size of a price level.
pub fn update_level(levels: &mut Vec<DepthLevel>, price: Binary64, size: Binary64)
    ensures
        final(levels)@ == leveled(old(levels)@, price, size),
{
    let mut i: usize = 0;
    while i < levels.len() && !levels[i].price.sub(price).abs().lt(
        Binary64::from_ratio(1, 0x10_0000_0000_0000),
    )
        invariant
            i <= levels@.len(),
            level_index(levels@, price, 0) == level_index(levels@, price, i as int),
            levels@ == old(levels)@,
        decreases levels@.len() - i,
    {
        i += 1;
    }
    if i < levels.len() {
        if size.equals(Binary64::from_u64(0)) {
            levels.swap_remove(i);
            assert(levels@ == leveled(old(levels)@, price, size));
        } else {
            let level: DepthLevel = DepthLevel { price: levels[i].price, size };
            levels.set(i, level);
        }
    } else if Binary64::from_u64(0).lt(size) {
        levels.push(DepthLevel { price, size });
    }
}

/// The tops and the tracked levels that a stream's messages are applied to.
#[derive(Debug)]
pub struct BookTracker {
    pub snapshot: BookSnapshot,
    pub depth: Option<DepthSnapshot>,
}

impl View for BookTracker {
    type V = Books;

    open spec fn view(&self) -> Books {
        Books {
            snapshot: self.snapshot,
            depth: match self.depth {
                Some(d) => Some(d@),
                None => None,
            },
        }
    }
}

impl BookTracker {
    /// Empty books, with or without their levels.
    pub fn new(track_levels: bool) -> (r: Self)
        ensures
            r@ == (Books {
                snapshot: empty_snapshot(),
                depth: if track_levels {
                    Some(
                        MarketLevels {
                            yes: no_levels(),
                            no: no_levels(),
                            received_at_ms: 0,
                            source_ts_ms: 0,
                        },
                    )
                } else {
                    None
                },
            }),
    {
        BookTracker {
            snapshot: BookSnapshot::default(),
            depth: if track_levels {
                Some(DepthSnapshot::default())
            } else {
                None
            },
        }
    }

    fn set_top(&mut self, yes: bool, book: OutcomeBook)
        ensures
            final(self)@ == old(self)@.with_top(yes, book),
            final(self).depth == old(self).depth,
    {
        if yes {
            self.snapshot.yes = book;
        } else {
            self.snapshot.no = book;
        }
    }

    fn set_levels(&mut self, yes: bool, levels: OutcomeDepth)
        ensures
            final(self)@ == old(self)@.with_levels(yes, levels@),
            final(self).snapshot == old(self).snapshot,
    {
        match self.depth.take() {
            Some(depth) => {
                self.depth = Some(
                    if yes {
                        DepthSnapshot { yes: levels, ..depth }
                    } else {
                        DepthSnapshot { no: levels, ..depth }
                    },
                );
            },
            None => {},
        }
    }

    fn stamp(&mut self, timestamp: &Option<WireU64>)
        ensures
            final(self)@ == (Books {
                snapshot: stamped(old(self)@.snapshot, *timestamp),
                ..old(self)@
            }),
    {
        match timestamp {
            Some(t) => {
                match t.get() {
                    Some(ms) => {
                        self.snapshot.source_ts_ms = ms;
                    },
                    None => {},
                }
            },
            None => {},
        }
    }

    fn apply_change(&mut self, change: &PriceChange, yes: bool) -> (r: bool)
        ensures
            (final(self)@, r) == old(self)@.changed(*change, yes),
    {
        if let (Some(depth), Some(price), Some(size), Some(side)) = (
            &self.depth,
            change.price,
            change.size,
            &change.side,
        ) {
            if let (Some(price), Some(size)) = (parse_price(price), parse_size(size)) {
                let mut levels: OutcomeDepth = if yes {
                    depth.yes.clone()
                } else {
                    depth.no.clone()
                };
                match parse_trade_side(side.as_str()) {
                    Some(TradeSide::Buy) => update_level(&mut levels.bids, price, size),
                    Some(TradeSide::Sell) => update_level(&mut levels.asks, price, size),
                    None => return false,
                }
                let book: OutcomeBook = OutcomeBook {
                    bid: best_depth_price(&levels.bids, true),
                    ask: best_depth_price(&levels.asks, false),
                };
                self.set_levels(yes, levels);
                self.set_top(yes, book);
                return true;
            }
        }
        let mut book: OutcomeBook = if yes {
            self.snapshot.yes
        } else {
            self.snapshot.no
        };
        if let Some(bid) = change.best_bid {
            book.bid = parse_price(bid);
        }
        if let Some(ask) = change.best_ask {
            book.ask = parse_price(ask);
        }
        self.set_top(yes, book);
        true
    }

    /// Applies a message to the books.
    pub fn apply_event(&mut self, event: &MarketEvent, yes_asset_id: &str, no_asset_id: &str) -> (r:
        bool)
        ensures
            (final(self)@, r) == old(self)@.after(*event, yes_asset_id@, no_asset_id@),
    {
        match event {
            MarketEvent::Book { asset_id, bids, asks, timestamp } => {
                match select_outcome(asset_id.as_str(), yes_asset_id, no_asset_id) {
                    Some(yes) => {
                        let book: OutcomeBook = OutcomeBook {
                            bid: best_price(bids, true),
                            ask: best_price(asks, false),
                        };
                        self.set_top(yes, book);
                        if self.depth.is_some() {
                            let levels: OutcomeDepth = OutcomeDepth {
                                bids: parse_levels(bids),
                                asks: parse_levels(asks),
                            };
                            self.set_levels(yes, levels);
                        }
                        self.stamp(timestamp);
                        true
                    },
                    None => false,
                }
            },
            MarketEvent::PriceChange { price_changes, timestamp } => {
                let mut changed: bool = false;
                let mut i: usize = 0;
                while i < price_changes.len()
                    invariant
                        i <= price_changes@.len(),
                        (self@, changed) == old(self)@.changed_by(
                            price_changes@,
                            i as int,
                            yes_asset_id@,
                            no_asset_id@,
                        ),
                    decreases price_changes@.len() - i,
                {
                    let change: &PriceChange = &price_changes[i];
                    match select_outcome(change.asset_id.as_str(), yes_asset_id, no_asset_id) {
                        Some(yes) => {
                            if self.apply_change(change, yes) {
                                changed = true;
                            }
                        },
                        None => {},
                    }
                    i += 1;
                }
                self.stamp(timestamp);
                changed
            },
            MarketEvent::LastTradePrice { .. } => false,
            MarketEvent::Other => false,
        }
    }
}

/// The trade that a message reports.
pub fn trade_print(
    event: &MarketEvent,
    yes_asset_id: &str,
    no_asset_id: &str,
    received_at_ms: u64,
) -> (r: Option<TradePrint>)
    ensures
        r == trade_of(*event, yes_asset_id@, no_asset_id@, received_at_ms),
{
    match event {
        MarketEvent::LastTradePrice { asset_id, price, side, size, timestamp } => {
            let is_yes: bool = match select_outcome(asset_id.as_str(), yes_asset_id, no_asset_id) {
                Some(is_yes) => is_yes,
                None => return None,
            };
            let price: Binary64 = match parse_price(*price) {
                Some(price) => price,
                None => return None,
            };
            let size: Binary64 = match size {
                Some(size) => match parse_size(*size) {
                    Some(size) => size,
                    None => return None,
                },
                None => return None,
            };
            let side: TradeSide = match side {
                Some(side) => match parse_trade_side(side.as_str()) {
                    Some(side) => side,
                    None => return None,
                },
                None => return None,
            };
            let source_ts_ms: u64 = match timestamp {
                Some(t) => match t.get() {
                    Some(ms) => ms,
                    None => 0,
                },
                None => 0,
            };
            Some(TradePrint { is_yes, side, price, size, received_at_ms, source_ts_ms })
        },
        _ => None,
    }
}

/// Applies messages to the best prices alone.
pub fn parse_and_apply(
    events: &Vec<MarketEvent>,
    yes_asset_id: &str,
    no_asset_id: &str,
    snapshot: &mut BookSnapshot,
) -> (r: bool)
    ensures
        ({
            let (books, any) = (Books { snapshot: *old(snapshot), depth: None }).after_all(
                events@,
                events@.len() as int,
                yes_asset_id@,
                no_asset_id@,
            );
            *final(snapshot) == books.snapshot && r == any
        }),
{
    let mut tracker: BookTracker = BookTracker { snapshot: *snapshot, depth: None };
    let (changed, _) = parse_and_apply_with_depth(
        events,
        yes_asset_id,
        no_asset_id,
        &mut tracker,
        0,
    );
    *snapshot = tracker.snapshot;
    changed
}

/// Applies messages to the books, and collects the trades that they report.
pub fn parse_and_apply_with_depth(
    events: &Vec<MarketEvent>,
    yes_asset_id: &str,
    no_asset_id: &str,
    tracker: &mut BookTracker,
    received_at_ms: u64,
) -> (r: (bool, Vec<TradePrint>))
    ensures
        (final(tracker)@, r.0) == old(tracker)@.after_all(
            events@,
            events@.len() as int,
            yes_asset_id@,
            no_asset_id@,
        ),
        r.1@ == trades_of(
            events@,
            events@.len() as int,
            yes_asset_id@,
            no_asset_id@,
            received_at_ms,
        ),
{
    let mut changed: bool = false;
    let mut trades: Vec<TradePrint> = Vec::new();
    let mut i: usize = 0;
    while i < events.len()
        invariant
            i <= events@.len(),
            (tracker@, changed) == old(tracker)@.after_all(
                events@,
                i as int,
                yes_asset_id@,
                no_asset_id@,
            ),
            trades@ == trades_of(
                events@,
                i as int,
                yes_asset_id@,
                no_asset_id@,
                received_at_ms,
            ),
        decreases events@.len() - i,
    {
        if tracker.apply_event(&events[i], yes_asset_id, no_asset_id) {
            changed = true;
        }
        match trade_print(&events[i], yes_asset_id, no_asset_id, received_at_ms) {
            Some(trade) => trades.push(trade),
            None => {},
        }
        i += 1;
    }
    (changed, trades)
}

/// The message that asks for the books of two assets.
pub open spec fn subscription_object(yes: Seq<char>, no: Seq<char>, custom: bool) -> Seq<u8> {
    encode_utf8("{\"assets_ids\":["@) + json_string(yes) + encode_utf8(","@) + json_string(no)
        + encode_utf8(
        if custom {
            "],\"custom_feature_enabled\":true,\"type\":\"market\"}"@
        } else {
            "],\"type\":\"market\"}"@
        },
    )
}

/// Asks for the books of two assets, with or without the stream's additional messages.
pub fn subscription(yes_asset_id: &str, no_asset_id: &str, custom_feature_enabled: bool) -> (r: Vec<
    u8,
>)
    ensures
        r@ == subscription_object(yes_asset_id@, no_asset_id@, custom_feature_enabled),
{
    let mut bytes: Vec<u8> = Vec::new();
    push_text(&mut bytes, "{\"assets_ids\":[");
    assert(bytes@ == encode_utf8("{\"assets_ids\":["@));
    push_string(&mut bytes, yes_asset_id);
    push_text(&mut bytes, ",");
    push_string(&mut bytes, no_asset_id);
    push_text(
        &mut bytes,
        if custom_feature_enabled {
            "],\"custom_feature_enabled\":true,\"type\":\"market\"}"
        } else {
            "],\"type\":\"market\"}"
        },
    );
    bytes
}

/// Whether a text holds a list of messages rather than one.
pub fn is_batch(raw: &str) -> (r: bool)
    ensures
        r == (raw.spec_bytes().len() > 0 && raw.spec_bytes()[0] == 0x5b),
{
    let bytes: &[u8] = raw.as_bytes();
    bytes.len() > 0 && bytes[0] == 0x5b
}

// ---------------------------------------------------------------------------------------------
// The books as the rest of the engine reads them.

pub open spec fn bits_of(value: Option<Binary64>) -> u64 {
    match value {
        Some(v) => v.bits,
        None => QUIET_NAN,
    }
}

pub open spec fn of_bits(bits: u64) -> Option<Binary64> {
    if (Binary64 { bits }).nan() {
        None
    } else {
        Some(Binary64 { bits })
    }
}

/// A price that may be missing, with one that is not a number taken for missing.
pub open spec fn cleaned(value: Option<Binary64>) -> Option<Binary64> {
    match value {
        Some(v) if !v.nan() => Some(v),
        _ => None,
    }
}

pub open spec fn cleaned_snapshot(s: BookSnapshot) -> BookSnapshot {
    BookSnapshot {
        yes: OutcomeBook { bid: cleaned(s.yes.bid), ask: cleaned(s.yes.ask) },
        no: OutcomeBook { bid: cleaned(s.no.bid), ask: cleaned(s.no.ask) },
        ..s
    }
}

fn option_to_bits(value: Option<Binary64>) -> (r: u64)
    ensures
        r == bits_of(value),
{
    match value {
        Some(value) => value.bits,
        None => QUIET_NAN,
    }
}

fn bits_to_option(bits: u64) -> (r: Option<Binary64>)
    ensures
        r == of_bits(bits),
{
    let value: Binary64 = Binary64 { bits };
    if value.is_nan() {
        None
    } else {
        Some(value)
    }
}

/// The latest best prices, as bit patterns, and the latest levels.
#[derive(Debug)]
pub struct BookState {
    pub yes_bid: u64,
    pub yes_ask: u64,
    pub no_bid: u64,
    pub no_ask: u64,
    pub received_at_ms: u64,
    pub source_ts_ms: u64,
    pub depth: DepthSnapshot,
}

impl BookState {
    /// The best prices that are stored.
    pub open spec fn tops(self) -> BookSnapshot {
        BookSnapshot {
            yes: OutcomeBook { bid: of_bits(self.yes_bid), ask: of_bits(self.yes_ask) },
            no: OutcomeBook { bid: of_bits(self.no_bid), ask: of_bits(self.no_ask) },
            received_at_ms: self.received_at_ms,
            source_ts_ms: self.source_ts_ms,
        }
    }

    /// Replaces the best prices.
    pub fn store(&mut self, snapshot: BookSnapshot)
        ensures
            final(self).tops() == cleaned_snapshot(snapshot),
            final(self).depth == old(self).depth,
    {
        self.yes_bid = option_to_bits(snapshot.yes.bid);
        self.yes_ask = option_to_bits(snapshot.yes.ask);
        self.no_bid = option_to_bits(snapshot.no.bid);
        self.no_ask = option_to_bits(snapshot.no.ask);
        self.received_at_ms = snapshot.received_at_ms;
        self.source_ts_ms = snapshot.source_ts_ms;
    }

    /// The best prices.
    pub fn load(&self) -> (r: BookSnapshot)
        ensures
            r == self.tops(),
    {
        BookSnapshot {
            yes: OutcomeBook {
                bid: bits_to_option(self.yes_bid),
                ask: bits_to_option(self.yes_ask),
            },
            no: OutcomeBook { bid: bits_to_option(self.no_bid), ask: bits_to_option(self.no_ask) },
            received_at_ms: self.received_at_ms,
            source_ts_ms: self.source_ts_ms,
        }
    }

    /// Replaces the levels.
    pub fn store_depth(&mut self, snapshot: &DepthSnapshot)
        ensures
            final(self).depth@ == snapshot@,
            final(self).tops() == old(self).tops(),
    {
        self.depth = snapshot.clone();
    }

    /// The levels.
    pub fn load_depth(&self) -> (r: DepthSnapshot)
        ensures
            r@ == self.depth@,
    {
        self.depth.clone()
    }
}

impl Default for BookState {
    fn default() -> (r: Self)
        ensures
            r.tops() == empty_snapshot(),
            r.depth@ == (MarketLevels {
                yes: no_levels(),
                no: no_levels(),
                received_at_ms: 0,
                source_ts_ms: 0,
            }),
    {
        BookState {
            yes_bid: QUIET_NAN,
            yes_ask: QUIET_NAN,
            no_bid: QUIET_NAN,
            no_ask: QUIET_NAN,
            received_at_ms: 0,
            source_ts_ms: 0,
            depth: DepthSnapshot::default(),
        }
    }
}

/// Every best price is there.
pub open spec fn complete(s: BookSnapshot) -> bool {
    s.yes.bid is Some && s.yes.ask is Some && s.no.bid is Some && s.no.ask is Some
}

/// Books dated by the arrival of the message that changed them.
pub open spec fn dated(books: Books, received_at_ms: u64) -> Books {
    Books {
        snapshot: BookSnapshot { received_at_ms, ..books.snapshot },
        depth: match books.depth {
            Some(d) => Some(
                MarketLevels {
                    received_at_ms,
                    source_ts_ms: books.snapshot.source_ts_ms,
                    ..d
                },
            ),
            None => None,
        },
    }
}

impl BookTracker {
    fn date(&mut self, received_at_ms: u64)
        ensures
            final(self)@ == dated(old(self)@, received_at_ms),
    {
        self.snapshot.received_at_ms = received_at_ms;
        match self.depth.take() {
            Some(depth) => {
                self.depth = Some(
                    DepthSnapshot {
                        received_at_ms,
                        source_ts_ms: self.snapshot.source_ts_ms,
                        ..depth
                    },
                );
            },
            None => {},
        }
    }

    /// Takes a payload of the stream in: the books change with its messages, and where they do,
    /// they are dated and stored, and the market is ready if every best price is there.
    /// Returns the trades that the payload reports.
    pub fn absorb(
        &mut self,
        events: &Vec<MarketEvent>,
        yes_asset_id: &str,
        no_asset_id: &str,
        received_at_ms: u64,
        book_state: &mut BookState,
        health: &mut HealthState,
    ) -> (r: Vec<TradePrint>)
        ensures
            r@ == trades_of(
                events@,
                events@.len() as int,
                yes_asset_id@,
                no_asset_id@,
                received_at_ms,
            ),
            ({
                let (books, changed) = old(self)@.after_all(
                    events@,
                    events@.len() as int,
                    yes_asset_id@,
                    no_asset_id@,
                );
                if changed {
                    &&& final(self)@ == dated(books, received_at_ms)
                    &&& final(book_state).tops() == cleaned_snapshot(final(self)@.snapshot)
                    &&& final(book_state).depth@ == (match final(self)@.depth {
                        Some(d) => d,
                        None => old(book_state).depth@,
                    })
                    &&& *final(health) == (HealthState {
                        last_book_ms: received_at_ms,
                        market_ready: complete(books.snapshot),
                        ..*old(health)
                    })
                } else {
                    &&& final(self)@ == books
                    &&& *final(book_state) == *old(book_state)
                    &&& *final(health) == *old(health)
                }
            }),
    {
        let (changed, trades) = parse_and_apply_with_depth(
            events,
            yes_asset_id,
            no_asset_id,
            self,
            received_at_ms,
        );
        if changed {
            self.date(received_at_ms);
            book_state.store(self.snapshot);
            match &self.depth {
                Some(depth) => book_state.store_depth(depth),
                None => {},
            }
            health.mark_book(received_at_ms);
            health.set_market_ready(
                self.snapshot.yes.bid.is_some() && self.snapshot.yes.ask.is_some()
                    && self.snapshot.no.bid.is_some() && self.snapshot.no.ask.is_some(),
            );
        }
        trades
    }
}

// ---------------------------------------------------------------------------------------------
// Laws.

/// No price of the snapshot is a NaN.
pub open spec fn all_numbers(s: BookSnapshot) -> bool {
    &&& s.yes.bid matches Some(p) ==> !p.nan()
    &&& s.yes.ask matches Some(p) ==> !p.nan()
    &&& s.no.bid matches Some(p) ==> !p.nan()
    &&& s.no.ask matches Some(p) ==> !p.nan()
}

/// What is loaded is what was stored, for prices that are numbers.
pub proof fn law_load_after_store(state: BookState, s: BookSnapshot)
    requires
        state.tops() == cleaned_snapshot(s),
        all_numbers(s),
    ensures
        state.tops() == s,
{
    assert(cleaned(s.yes.bid) == s.yes.bid);
    assert(cleaned(s.yes.ask) == s.yes.ask);
    assert(cleaned(s.no.bid) == s.no.bid);
    assert(cleaned(s.no.ask) == s.no.ask);
}

/// `a` is at least as good a price as `b` for a side of the book.
pub open spec fn no_worse(a: Binary64, b: Binary64, highest: bool) -> bool {
    if highest {
        at_most(b, a)
    } else {
        at_most(a, b)
    }
}

/// The best price of a message is one of its valid prices, and none of them is better.
pub proof fn law_best_price(levels: Seq<PriceLevel>, highest: bool)
    ensures
        best_of(levels, highest) is None <==> forall|i: int|
            0 <= i < levels.len() ==> valid_price((#[trigger] levels[i]).price) is None,
        best_of(levels, highest) matches Some(best) ==> {
            &&& exists|i: int|
                0 <= i < levels.len() && valid_price((#[trigger] levels[i]).price) == Some(best)
            &&& forall|i: int|
                #![trigger levels[i]]
                0 <= i < levels.len() ==> (valid_price(levels[i].price) matches Some(p) ==>
                    no_worse(best, p, highest))
        },
    decreases levels.len(),
{
    reveal(at_most);
    if levels.len() > 0 {
        let rest = levels.drop_last();
        law_best_price(rest, highest);
        let last = levels.last();
        assert(levels[levels.len() - 1] == last);
        if let Some(b) = best_of(rest, highest) {
            let i = choose|i: int|
                0 <= i < rest.len() && valid_price((#[trigger] rest[i]).price) == Some(b);
            assert(levels[i] == rest[i]);
            assert(valid_price(rest[i].price) == Some(b));
            assert(no_worse(b, b, highest));
        }
        assert forall|i: int| 0 <= i < rest.len() implies rest[i] == #[trigger] levels[i] by {}
        if best_of(levels, highest) is None {
            assert forall|i: int| 0 <= i < levels.len() implies valid_price(
                (#[trigger] levels[i]).price,
            ) is None by {
                if i < rest.len() {
                    assert(rest[i] == levels[i]);
                }
            }
        }
        if let Some(best) = best_of(levels, highest) {
            assert forall|i: int|
                #![trigger levels[i]]
                0 <= i < levels.len() implies (valid_price(levels[i].price) matches Some(p) ==>
                no_worse(best, p, highest)) by {
                if i < rest.len() {
                    assert(rest[i] == levels[i]);
                }
            }
        }
    }
}

/// The best prices that a whole book or its own best prices give are within zero and one.
pub proof fn law_valid_prices(q: Quoted)
    ensures
        valid_price(q) matches Some(p) ==> !p.nan() && at_most(of_nat(0), p) && at_most(
            p,
            of_nat(1),
        ),
{
    reveal(at_most);
}

/// A message about another asset changes nothing.
pub proof fn law_foreign_asset(
    books: Books,
    asset: String,
    bids: Vec<PriceLevel>,
    asks: Vec<PriceLevel>,
    timestamp: Option<WireU64>,
    yes: Seq<char>,
    no: Seq<char>,
)
    requires
        asset@ != yes,
        asset@ != no,
    ensures
        books.after(MarketEvent::Book { asset_id: asset, bids, asks, timestamp }, yes, no) == (
            books,
            false,
        ),
{
}

/// Messages are applied one after another: a list of them is as good as its parts, and changes
/// the books where one of its parts does.
pub proof fn law_messages_compose(
    books: Books,
    events: Seq<MarketEvent>,
    m: int,
    yes: Seq<char>,
    no: Seq<char>,
)
    requires
        0 <= m <= events.len(),
    ensures
        ({
            let (first, first_changed) = books.after_all(events, m, yes, no);
            let (both, second_changed) = first.after_all(
                events.skip(m),
                events.len() - m,
                yes,
                no,
            );
            books.after_all(events, events.len() as int, yes, no) == (
                both,
                first_changed || second_changed,
            )
        }),
{
    lemma_after_all_split(books, events, m, events.len() as int, yes, no);
}

proof fn lemma_after_all_split(
    books: Books,
    events: Seq<MarketEvent>,
    m: int,
    n: int,
    yes: Seq<char>,
    no: Seq<char>,
)
    requires
        0 <= m <= n <= events.len(),
    ensures
        ({
            let (first, first_changed) = books.after_all(events, m, yes, no);
            let (both, second_changed) = first.after_all(events.skip(m), n - m, yes, no);
            books.after_all(events, n, yes, no) == (both, first_changed || second_changed)
        }),
    decreases n - m,
{
    if m < n {
        lemma_after_all_split(books, events, m, n - 1, yes, no);
        assert(events.skip(m)[n - m - 1] == events[n - 1]);
    }
}

/// A level that a change sets to a size above zero is found again at its price.
pub proof fn law_level_is_set(levels: Seq<DepthLevel>, price: Binary64, size: Binary64)
    requires
        price.finite(),
        less(of_nat(0), size),
    ensures
        ({
            let next = leveled(levels, price, size);
            exists|i: int|
                {
                    &&& 0 <= i < next.len()
                    &&& (#[trigger] next[i]).size == size
                    &&& same_level(next[i].price, price)
                }
        }),
{
    assert(same_level(price, price)) by {
        lemma_difference_with_itself(price);
        lemma_zero_is_close();
    }
    reveal(less);
    reveal(same);
    lemma_level_index(levels, price, 0);
    let i = level_index(levels, price, 0);
    let next = leveled(levels, price, size);
    if i < levels.len() {
        assert(next[i].size == size);
    } else {
        assert(next[levels.len() as int].size == size);
    }
}

proof fn lemma_level_index(levels: Seq<DepthLevel>, price: Binary64, i: int)
    requires
        0 <= i <= levels.len(),
    ensures
        i <= level_index(levels, price, i) <= levels.len(),
        level_index(levels, price, i) < levels.len() ==> same_level(
            levels[level_index(levels, price, i)].price,
            price,
        ),
    decreases levels.len() - i,
{
    if i < levels.len() && !same_level(levels[i].price, price) {
        lemma_level_index(levels, price, i + 1);
    }
}

/// Every level's price is a number.
pub open spec fn priced(levels: Seq<DepthLevel>) -> bool {
    forall|i: int| 0 <= i < levels.len() ==> !(#[trigger] levels[i]).price.nan()
}

/// Every tracked level's price is a number.
pub open spec fn all_priced(books: Books) -> bool {
    books.depth matches Some(d) ==> {
        &&& priced(d.yes.bids)
        &&& priced(d.yes.asks)
        &&& priced(d.no.bids)
        &&& priced(d.no.asks)
    }
}

/// `best` is the price of one of the levels and no level's price is better; there is none exactly
/// where there is no level.
pub open spec fn is_best_of(best: Option<Binary64>, levels: Seq<DepthLevel>, highest: bool) -> bool {
    &&& best is None <==> levels.len() == 0
    &&& best matches Some(price) ==> {
        &&& exists|i: int| 0 <= i < levels.len() && (#[trigger] levels[i]).price == price
        &&& forall|i: int|
            0 <= i < levels.len() ==> if highest {
                at_most((#[trigger] levels[i]).price, price)
            } else {
                at_most(price, levels[i].price)
            }
    }
}

/// The best price of a book's side is the price of one of its levels, and no level has a better
/// one.
pub proof fn law_best_level(levels: Seq<DepthLevel>, highest: bool)
    requires
        priced(levels),
    ensures
        is_best_of(top_of(levels, highest), levels, highest),
    decreases levels.len(),
{
    reveal(at_most);
    if levels.len() > 0 {
        let rest = levels.drop_last();
        assert forall|i: int| 0 <= i < rest.len() implies rest[i] == #[trigger] levels[i] by {}
        assert(priced(rest));
        law_best_level(rest, highest);
        let last = levels[levels.len() - 1];
        assert(!last.price.nan());
        let best = top_of(levels, highest)->0;
        if let Some(b) = top_of(rest, highest) {
            let i = choose|i: int| 0 <= i < rest.len() && (#[trigger] rest[i]).price == b;
            assert(levels[i].price == b);
            assert(!b.nan());
        }
        assert forall|i: int| 0 <= i < levels.len() implies (if highest {
            at_most((#[trigger] levels[i]).price, best)
        } else {
            at_most(best, levels[i].price)
        }) by {
            if i < rest.len() {
                assert(rest[i] == levels[i]);
            }
        }
    }
}

proof fn lemma_levels_are_priced(levels: Seq<PriceLevel>)
    ensures
        priced(levels_of(levels)),
    decreases levels.len(),
{
    reveal(at_most);
    if levels.len() > 0 {
        lemma_levels_are_priced(levels.drop_last());
    }
}

proof fn lemma_change_is_priced(levels: Seq<DepthLevel>, price: Binary64, size: Binary64)
    requires
        priced(levels),
        !price.nan(),
    ensures
        priced(leveled(levels, price, size)),
{
    lemma_level_index(levels, price, 0);
    let i = level_index(levels, price, 0);
    let next = leveled(levels, price, size);
    assert forall|j: int| 0 <= j < next.len() implies !(#[trigger] next[j]).price.nan() by {
        if j < levels.len() {
            assert(!levels[j].price.nan());
        }
        if i < levels.len() {
            assert(!levels[i].price.nan());
            assert(!levels[levels.len() - 1].price.nan());
        }
    }
}

/// The books keep numbers only as the prices of their levels, whatever messages come in.
pub proof fn law_levels_keep_numbers(
    books: Books,
    events: Seq<MarketEvent>,
    n: int,
    yes: Seq<char>,
    no: Seq<char>,
)
    requires
        all_priced(books),
        0 <= n <= events.len(),
    ensures
        all_priced(books.after_all(events, n, yes, no).0),
    decreases n,
{
    if n > 0 {
        law_levels_keep_numbers(books, events, n - 1, yes, no);
        let before = books.after_all(events, n - 1, yes, no).0;
        match events[n - 1] {
            MarketEvent::Book { asset_id, bids, asks, timestamp } => {
                lemma_levels_are_priced(bids@);
                lemma_levels_are_priced(asks@);
            },
            MarketEvent::PriceChange { price_changes, timestamp } => {
                lemma_changes_are_priced(
                    before,
                    price_changes@,
                    price_changes@.len() as int,
                    yes,
                    no,
                );
            },
            _ => {},
        }
    }
}

proof fn lemma_changes_are_priced(
    books: Books,
    changes: Seq<PriceChange>,
    n: int,
    yes: Seq<char>,
    no: Seq<char>,
)
    requires
        all_priced(books),
    ensures
        all_priced(books.changed_by(changes, n, yes, no).0),
    decreases n,
{
    reveal(at_most);
    if n > 0 {
        lemma_changes_are_priced(books, changes, n - 1, yes, no);
        let before = books.changed_by(changes, n - 1, yes, no).0;
        let change = changes[n - 1];
        if let Some(outcome) = outcome_of(change.asset_id@, yes, no) {
            if before.depth is Some && change.price is Some && change.size is Some && valid_price(
                change.price->0,
            ) is Some && valid_size(change.size->0) is Some {
                let price = valid_price(change.price->0)->0;
                let size = valid_size(change.size->0)->0;
                lemma_change_is_priced(before.levels(outcome).bids, price, size);
                lemma_change_is_priced(before.levels(outcome).asks, price, size);
            }
        }
    }
}

/// A number that a message writes is a price between zero and one.
pub open spec fn writes_price(q: Option<Quoted>, price: Binary64) -> bool {
    &&& q matches Some(written)
    &&& written.value == Some(price)
    &&& at_most(of_nat(0), price)
    &&& at_most(price, of_nat(1))
}

/// A number that a message writes is a size of zero or more.
pub open spec fn writes_size(q: Option<Quoted>, size: Binary64) -> bool {
    &&& q matches Some(written)
    &&& written.value == Some(size)
    &&& at_most(of_nat(0), size)
}

/// After a level change of a tracked book the best bid is the highest of the tracked bids and the
/// best ask is the lowest of the tracked asks.  The change is to the bids where its side is to buy
/// and to the asks where it is to sell; the other side's levels, the other outcome and the
/// times stay.
pub proof fn law_level_change_moves_the_top(
    books: Books,
    change: PriceChange,
    yes: bool,
    price: Binary64,
    size: Binary64,
)
    requires
        books.depth is Some,
        all_priced(books),
        writes_price(change.price, price),
        writes_size(change.size, size),
        change.side is Some,
        lowered(change.side->0@) == lowered("BUY"@) || lowered(change.side->0@) == lowered(
            "SELL"@,
        ),
    ensures
        ({
            let (next, taken) = books.changed(change, yes);
            let buys = lowered(change.side->0@) == lowered("BUY"@);
            let old_depth = books.depth->0;
            let depth = next.depth->0;
            &&& taken
            &&& next.depth is Some
            &&& yes ==> {
                &&& is_best_of(next.snapshot.yes.bid, depth.yes.bids, true)
                &&& is_best_of(next.snapshot.yes.ask, depth.yes.asks, false)
                &&& next.snapshot.no == books.snapshot.no
                &&& depth.no == old_depth.no
                &&& buys ==> depth.yes.asks == old_depth.yes.asks && depth.yes.bids == leveled(
                    old_depth.yes.bids,
                    price,
                    size,
                )
                &&& !buys ==> depth.yes.bids == old_depth.yes.bids && depth.yes.asks == leveled(
                    old_depth.yes.asks,
                    price,
                    size,
                )
            }
            &&& !yes ==> {
                &&& is_best_of(next.snapshot.no.bid, depth.no.bids, true)
                &&& is_best_of(next.snapshot.no.ask, depth.no.asks, false)
                &&& next.snapshot.yes == books.snapshot.yes
                &&& depth.yes == old_depth.yes
                &&& buys ==> depth.no.asks == old_depth.no.asks && depth.no.bids == leveled(
                    old_depth.no.bids,
                    price,
                    size,
                )
                &&& !buys ==> depth.no.bids == old_depth.no.bids && depth.no.asks == leveled(
                    old_depth.no.asks,
                    price,
                    size,
                )
            }
            &&& next.snapshot.received_at_ms == books.snapshot.received_at_ms
            &&& next.snapshot.source_ts_ms == books.snapshot.source_ts_ms
            &&& depth.received_at_ms == old_depth.received_at_ms
            &&& depth.source_ts_ms == old_depth.source_ts_ms
        }),
{
    reveal(at_most);
    let d = books.depth->0;
    lemma_change_is_priced(d.yes.bids, price, size);
    lemma_change_is_priced(d.yes.asks, price, size);
    lemma_change_is_priced(d.no.bids, price, size);
    lemma_change_is_priced(d.no.asks, price, size);
    law_best_level(leveled(d.yes.bids, price, size), true);
    law_best_level(leveled(d.yes.asks, price, size), false);
    law_best_level(leveled(d.no.bids, price, size), true);
    law_best_level(leveled(d.no.asks, price, size), false);
    law_best_level(d.yes.bids, true);
    law_best_level(d.yes.asks, false);
    law_best_level(d.no.bids, true);
    law_best_level(d.no.asks, false);
    lemma_buy_is_not_sell();
}

proof fn lemma_buy_is_not_sell()
    ensures
        lowered("BUY"@) != lowered("SELL"@),
{
    reveal_strlit("BUY");
    reveal_strlit("SELL");
    assert(lowered("BUY"@).len() == 3);
    assert(lowered("SELL"@).len() == 4);
}

/// The change names a sound price, a sound size and a side, so that it tells a level.
pub open spec fn tells_level(change: PriceChange) -> bool {
    &&& change.price is Some && exists|p: Binary64| #[trigger] writes_price(change.price, p)
    &&& change.size is Some && exists|z: Binary64| #[trigger] writes_size(change.size, z)
    &&& change.side is Some
}

/// A change of a book that is not tracked, or one that tells no level, moves the best prices that it
/// names, to none where what it names is no price, and leaves those that it does not name, the levels
/// and the other outcome.
pub proof fn law_named_best_prices(books: Books, change: PriceChange, yes: bool)
    requires
        books.depth is None || !tells_level(change),
    ensures
        ({
            let (next, taken) = books.changed(change, yes);
            let old_top = if yes {
                books.snapshot.yes
            } else {
                books.snapshot.no
            };
            let top = if yes {
                next.snapshot.yes
            } else {
                next.snapshot.no
            };
            &&& taken
            &&& next.depth == books.depth
            &&& yes ==> next.snapshot.no == books.snapshot.no
            &&& !yes ==> next.snapshot.yes == books.snapshot.yes
            &&& next.snapshot.received_at_ms == books.snapshot.received_at_ms
            &&& next.snapshot.source_ts_ms == books.snapshot.source_ts_ms
            &&& change.best_bid is None ==> top.bid == old_top.bid
            &&& change.best_ask is None ==> top.ask == old_top.ask
            &&& change.best_bid is Some ==> (top.bid matches Some(p) ==> writes_price(
                change.best_bid,
                p,
            ))
            &&& change.best_ask is Some ==> (top.ask matches Some(p) ==> writes_price(
                change.best_ask,
                p,
            ))
            &&& forall|p: Binary64| writes_price(change.best_bid, p) ==> top.bid == Some(p)
            &&& forall|p: Binary64| writes_price(change.best_ask, p) ==> top.ask == Some(p)
        }),
{
    if change.price is Some && valid_price(change.price->0) is Some {
        assert(writes_price(change.price, valid_price(change.price->0)->0));
    }
    if change.size is Some && valid_size(change.size->0) is Some {
        assert(writes_size(change.size, valid_size(change.size->0)->0));
    }
}

/// A change of a tracked book that tells a level on neither side is passed over.
pub proof fn law_sideless_change(books: Books, change: PriceChange, yes: bool)
    requires
        books.depth is Some,
        tells_level(change),
        lowered(change.side->0@) != lowered("BUY"@),
        lowered(change.side->0@) != lowered("SELL"@),
    ensures
        books.changed(change, yes) == (books, false),
{
    let p = choose|p: Binary64| #[trigger] writes_price(change.price, p);
    let z = choose|z: Binary64| #[trigger] writes_size(change.size, z);
    assert(writes_price(change.price, p));
    assert(writes_size(change.size, z));
}

/// The books, with the time that a message was sent where it tells one.
pub open spec fn sent_at(books: Books, timestamp: Option<WireU64>) -> Books {
    Books {
        snapshot: BookSnapshot {
            source_ts_ms: match timestamp {
                Some(WireU64::Number(ms)) => ms,
                Some(WireU64::Text(text)) => match number(text@) {
                    Some(n) => if n <= u64::MAX {
                        n as u64
                    } else {
                        books.snapshot.source_ts_ms
                    },
                    None => books.snapshot.source_ts_ms,
                },
                None => books.snapshot.source_ts_ms,
            },
            ..books.snapshot
        },
        ..books
    }
}

/// A message is about the outcome whose asset it names: a whole book replaces that outcome's, and a
/// change changes that outcome's.  A message about any other asset changes no book.
pub proof fn law_message_is_of_its_outcome(
    books: Books,
    asset: String,
    bids: Vec<PriceLevel>,
    asks: Vec<PriceLevel>,
    changes: Vec<PriceChange>,
    timestamp: Option<WireU64>,
    yes: Seq<char>,
    no: Seq<char>,
)
    requires
        yes != no,
        changes@.len() == 1,
        changes@[0].asset_id == asset,
    ensures
        ({
            let whole = MarketEvent::Book { asset_id: asset, bids, asks, timestamp };
            let part = MarketEvent::PriceChange { price_changes: changes, timestamp };
            &&& asset@ == yes ==> {
                &&& books.after(whole, yes, no) == (
                    sent_at(books.replaced(true, bids@, asks@), timestamp),
                    true,
                )
                &&& books.after(part, yes, no) == (
                    sent_at(books.changed(changes@[0], true).0, timestamp),
                    books.changed(changes@[0], true).1,
                )
            }
            &&& asset@ == no ==> {
                &&& books.after(whole, yes, no) == (
                    sent_at(books.replaced(false, bids@, asks@), timestamp),
                    true,
                )
                &&& books.after(part, yes, no) == (
                    sent_at(books.changed(changes@[0], false).0, timestamp),
                    books.changed(changes@[0], false).1,
                )
            }
            &&& asset@ != yes && asset@ != no ==> {
                &&& books.after(whole, yes, no) == (books, false)
                &&& books.after(part, yes, no) == (sent_at(books, timestamp), false)
            }
        }),
{
    reveal_with_fuel(Books::changed_by, 2);
}

/// The changes of a message are applied one after another, each to what the ones before it left.
pub proof fn law_changes_compose(
    books: Books,
    changes: Seq<PriceChange>,
    m: int,
    n: int,
    yes: Seq<char>,
    no: Seq<char>,
)
    requires
        0 <= m <= n <= changes.len(),
    ensures
        ({
            let (first, first_taken) = books.changed_by(changes, m, yes, no);
            let (both, second_taken) = first.changed_by(changes.skip(m), n - m, yes, no);
            books.changed_by(changes, n, yes, no) == (both, first_taken || second_taken)
        }),
    decreases n - m,
{
    if m < n {
        law_changes_compose(books, changes, m, n - 1, yes, no);
        assert(changes.skip(m)[n - m - 1] == changes[n - 1]);
    }
}

/// Messages report their trades in their order, those of a list those of its parts.
pub proof fn law_trades_compose(
    events: Seq<MarketEvent>,
    m: int,
    n: int,
    yes: Seq<char>,
    no: Seq<char>,
    received_at_ms: u64,
)
    requires
        0 <= m <= n <= events.len(),
    ensures
        trades_of(events, n, yes, no, received_at_ms) == trades_of(
            events,
            m,
            yes,
            no,
            received_at_ms,
        ) + trades_of(events.skip(m), n - m, yes, no, received_at_ms),
        n == m + 1 ==> trades_of(events.skip(m), 1, yes, no, received_at_ms) == (match trade_of(
            events[m],
            yes,
            no,
            received_at_ms,
        ) {
            Some(trade) => seq![trade],
            None => seq![],
        }),
    decreases n - m,
{
    reveal_with_fuel(trades_of, 2);
    if m < n {
        law_trades_compose(events, m, n - 1, yes, no, received_at_ms);
        assert(events.skip(m)[n - m - 1] == events[n - 1]);
        let last = trade_of(events[n - 1], yes, no, received_at_ms);
        let first = trades_of(events, m, yes, no, received_at_ms);
        let rest = trades_of(events.skip(m), n - 1 - m, yes, no, received_at_ms);
        if let Some(trade) = last {
            assert((first + rest).push(trade) == first + rest.push(trade));
        }
    } else {
        assert(trades_of(events.skip(m), 0, yes, no, received_at_ms) == Seq::<TradePrint>::empty());
    }
    if n == m + 1 {
        assert(events.skip(m)[0] == events[m]);
        assert(trades_of(events.skip(m), 0, yes, no, received_at_ms) == Seq::<TradePrint>::empty());
    }
}

/// Two prices are less than the spacing of numbers around one apart.
pub open spec fn one_level(a: Binary64, b: Binary64) -> bool {
    less(unsigned(minus(a, b)), ratio(1, 0x10_0000_0000_0000))
}

/// A change at the price of a level sets the size of the first level of that price and nothing
/// else, or takes that level out where the size is zero.
pub proof fn law_level_is_changed(
    levels: Seq<DepthLevel>,
    price: Binary64,
    size: Binary64,
    i: int,
)
    requires
        0 <= i < levels.len(),
        one_level(levels[i].price, price),
        forall|j: int| 0 <= j < i ==> !one_level((#[trigger] levels[j]).price, price),
    ensures
        ({
            let next = leveled(levels, price, size);
            if same(size, of_nat(0)) {
                &&& next.len() == levels.len() - 1
                &&& next.to_multiset() == levels.to_multiset().remove(levels[i])
            } else {
                &&& next.len() == levels.len()
                &&& next[i].price == levels[i].price
                &&& next[i].size == size
                &&& forall|j: int| 0 <= j < levels.len() && j != i ==> next[j] == levels[j]
            }
        }),
{
    lemma_first_level(levels, price, 0, i);
    if same(size, of_nat(0)) {
        let last = levels.last();
        let moved = levels.update(i, last);
        let n = levels.len() - 1;
        vstd::seq_lib::to_multiset_update(levels, i, last);
        vstd::seq_lib::to_multiset_remove(moved, n);
        assert(moved.remove(n) =~= moved.drop_last());
        assert(moved[n] == last);
        vstd::seq_lib::to_multiset_contains(levels, last);
        assert(levels[n] == last);
        assert(levels.to_multiset().remove(levels[i]).insert(last).remove(last)
            =~= levels.to_multiset().remove(levels[i]));
    }
}

proof fn lemma_first_level(levels: Seq<DepthLevel>, price: Binary64, from: int, i: int)
    requires
        0 <= from <= i < levels.len(),
        one_level(levels[i].price, price),
        forall|j: int| from <= j < i ==> !one_level((#[trigger] levels[j]).price, price),
    ensures
        level_index(levels, price, from) == i,
    decreases i - from,
{
    if from < i {
        lemma_first_level(levels, price, from + 1, i);
    }
}

/// A change at a price without a level adds a level of that price and size at the end, where the
/// size is above zero, and changes nothing where it is not.
pub proof fn law_level_is_added(levels: Seq<DepthLevel>, price: Binary64, size: Binary64)
    requires
        forall|j: int| 0 <= j < levels.len() ==> !one_level((#[trigger] levels[j]).price, price),
    ensures
        less(of_nat(0), size) ==> leveled(levels, price, size) == levels.push(
            DepthLevel { price, size },
        ),
        !less(of_nat(0), size) ==> leveled(levels, price, size) == levels,
{
    lemma_level_index(levels, price, 0);
}

/// Of two changes at one price, the second tells the size.
pub proof fn law_last_change_counts(
    levels: Seq<DepthLevel>,
    price: Binary64,
    first: Binary64,
    second: Binary64,
)
    requires
        price.finite(),
        less(of_nat(0), first),
        less(of_nat(0), second),
    ensures
        leveled(leveled(levels, price, first), price, second) == leveled(levels, price, second),
{
    reveal(less);
    reveal(same);
    assert(same_level(price, price)) by {
        lemma_difference_with_itself(price);
        lemma_zero_is_close();
    }
    lemma_level_index(levels, price, 0);
    lemma_before_index(levels, price, 0);
    let i = level_index(levels, price, 0);
    let once = leveled(levels, price, first);
    assert forall|j: int| 0 <= j < i implies !one_level((#[trigger] once[j]).price, price) by {
        assert(once[j] == levels[j]);
    }
    assert(one_level(once[i].price, price));
    lemma_first_level(once, price, 0, i);
    assert(leveled(once, price, second) =~= leveled(levels, price, second));
}

proof fn lemma_before_index(levels: Seq<DepthLevel>, price: Binary64, i: int)
    requires
        0 <= i <= levels.len(),
    ensures
        forall|j: int|
            i <= j < level_index(levels, price, i) ==> !one_level(
                (#[trigger] levels[j]).price,
                price,
            ),
    decreases levels.len() - i,
{
    if i < levels.len() && !same_level(levels[i].price, price) {
        lemma_before_index(levels, price, i + 1);
    }
}

/// A whole book replaces the best prices and the tracked levels of its outcome and of no other:
/// its levels are those of the message whose price and size are both valid, in its order.
pub proof fn law_whole_book(
    books: Books,
    yes: bool,
    bids: Seq<PriceLevel>,
    asks: Seq<PriceLevel>,
)
    ensures
        ({
            let next = books.replaced(yes, bids, asks);
            let top = if yes {
                next.snapshot.yes
            } else {
                next.snapshot.no
            };
            &&& top.bid == best_of(bids, true)
            &&& top.ask == best_of(asks, false)
            &&& yes ==> next.snapshot.no == books.snapshot.no
            &&& !yes ==> next.snapshot.yes == books.snapshot.yes
            &&& next.snapshot.received_at_ms == books.snapshot.received_at_ms
            &&& books.depth is None <==> next.depth is None
            &&& books.depth is Some ==> {
                let d = next.depth->0;
                let changed = if yes {
                    d.yes
                } else {
                    d.no
                };
                &&& changed.bids == sound_levels(bids)
                &&& changed.asks == sound_levels(asks)
                &&& yes ==> d.no == books.depth->0.no
                &&& !yes ==> d.yes == books.depth->0.yes
            }
        }),
{
    lemma_sound_levels(bids);
    lemma_sound_levels(asks);
}

/// The level's price lies within zero and one, and its size is zero or more.
pub open spec fn sound_level(level: PriceLevel) -> bool {
    &&& level.price.value matches Some(p) && at_most(of_nat(0), p) && at_most(p, of_nat(1))
    &&& level.size.value matches Some(s) && at_most(of_nat(0), s)
}

/// The sound levels of a message.
pub open spec fn sound_levels(levels: Seq<PriceLevel>) -> Seq<DepthLevel> {
    levels.filter(|level: PriceLevel| sound_level(level)).map_values(
        |level: PriceLevel| DepthLevel { price: level.price.value->0, size: level.size.value->0 },
    )
}

proof fn lemma_sound_levels(levels: Seq<PriceLevel>)
    ensures
        levels_of(levels) == sound_levels(levels),
    decreases levels.len(),
{
    reveal(Seq::filter);
    if levels.len() > 0 {
        lemma_sound_levels(levels.drop_last());
    }
    assert(levels_of(levels) =~= sound_levels(levels));
}

/// A trade is reported of an asset of the market alone, with a sound price and size and a side,
/// and as the message says; no other message reports one.
pub proof fn law_reported_trade(
    event: MarketEvent,
    yes: Seq<char>,
    no: Seq<char>,
    received_at_ms: u64,
)
    requires
        yes != no,
    ensures
        trade_of(event, yes, no, received_at_ms) matches Some(trade) ==> {
            &&& event is LastTradePrice
            &&& trade.is_yes ==> event->LastTradePrice_asset_id@ == yes
            &&& !trade.is_yes ==> event->LastTradePrice_asset_id@ == no
            &&& writes_price(Some(event->LastTradePrice_price), trade.price)
            &&& writes_size(event->LastTradePrice_size, trade.size)
            &&& event->LastTradePrice_side is Some
            &&& trade.side == TradeSide::Buy <==> lowered(event->LastTradePrice_side->0@)
                == lowered("BUY"@)
            &&& trade.side == TradeSide::Sell <==> lowered(event->LastTradePrice_side->0@)
                == lowered("SELL"@)
            &&& trade.received_at_ms == received_at_ms
            &&& event->LastTradePrice_timestamp is None ==> trade.source_ts_ms == 0
            &&& event->LastTradePrice_timestamp matches Some(t) ==> trade.source_ts_ms == (
            match t.value() {
                Some(ms) => ms,
                None => 0,
            })
        },
        forall|price: Binary64, size: Binary64|
            #![trigger writes_price(Some(event->LastTradePrice_price), price), writes_size(
                event->LastTradePrice_size,
                size,
            )]
            event is LastTradePrice && writes_price(Some(event->LastTradePrice_price), price)
                && writes_size(event->LastTradePrice_size, size)
                && event->LastTradePrice_side is Some && (lowered(
                event->LastTradePrice_side->0@,
            ) == lowered("BUY"@) || lowered(event->LastTradePrice_side->0@) == lowered("SELL"@))
                && (event->LastTradePrice_asset_id@ == yes || event->LastTradePrice_asset_id@
                == no) ==> trade_of(event, yes, no, received_at_ms) is Some,
{
    lemma_buy_is_not_sell();
}

/// A message about a trade, or of another kind, changes no book.
pub proof fn law_trades_change_no_book(books: Books, event: MarketEvent, yes: Seq<char>, no: Seq<char>)
    requires
        event is LastTradePrice || event is Other,
    ensures
        books.after(event, yes, no) == (books, false),
{
}

/// A book that has changed is dated by its message's arrival: its prices and levels stay, and it
/// is ready to trade where both outcomes have a bid and an ask.
pub proof fn law_dated_books(books: Books, received_at_ms: u64)
    ensures
        ({
            let next = dated(books, received_at_ms);
            &&& next.snapshot.yes == books.snapshot.yes
            &&& next.snapshot.no == books.snapshot.no
            &&& next.snapshot.source_ts_ms == books.snapshot.source_ts_ms
            &&& next.snapshot.received_at_ms == received_at_ms
            &&& next.depth is Some <==> books.depth is Some
            &&& next.depth matches Some(d) ==> {
                &&& d.yes == books.depth->0.yes
                &&& d.no == books.depth->0.no
                &&& d.received_at_ms == received_at_ms
                &&& d.source_ts_ms == books.snapshot.source_ts_ms
            }
        }),
        complete(books.snapshot) <==> books.snapshot.yes.bid is Some && books.snapshot.yes.ask
            is Some && books.snapshot.no.bid is Some && books.snapshot.no.ask is Some,
{
}

/// Without a message no price of either outcome is known.
pub proof fn law_nothing_heard_yet()
    ensures
        ({
            let book = empty_snapshot();
            &&& book.yes.bid is None && book.yes.ask is None
            &&& book.no.bid is None && book.no.ask is None
            &&& book.received_at_ms == 0
            &&& book.source_ts_ms == 0
        }),
{
}

} // verus!
