//! Market data as the feature engine reads it: order-book levels, trades,
//! liquidations, funding rates, open interest, and the snapshot that bundles
//! them for one synchronization period.
//!
//! Each type has a mathematical view over unbounded integers (counts of
//! hundred-millionths) and a validity predicate.  Validity says that sizes are
//! not negative and that magnitudes and lengths stay inside the range in which
//! the engine's 128-bit arithmetic is exact.

use vstd::prelude::*;
use crate::numeric::{Fixed, MAX_ITEMS, in_range, size_in_range};

verus! {

/// One resting price and size.
#[derive(Clone, Copy, Debug, PartialEq, Eq, Structural)]
pub struct Level {
    pub price: Fixed,
    pub volume: Fixed,
}

/// A level as a pair of integers.
pub struct LevelView {
    pub price: int,
    pub volume: int,
}

impl LevelView {
    pub open spec fn wf(self) -> bool {
        in_range(self.price) && size_in_range(self.volume)
    }
}

impl View for Level {
    type V = LevelView;

    open spec fn view(&self) -> LevelView {
        LevelView { price: self.price@, volume: self.volume@ }
    }
}

impl Level {
    pub open spec fn wf(&self) -> bool {
        self@.wf()
    }

    pub fn new(price: Fixed, volume: Fixed) -> (r: Level)
        ensures
            r.price == price,
            r.volume == volume,
    {
        Level { price, volume }
    }

    /// Run-time test of `wf`.
    pub fn is_valid(&self) -> (b: bool)
        ensures
            b == self.wf(),
    {
        self.price.is_bounded() && self.volume.is_bounded_nonneg()
    }
}

/// The views of a run of levels, in order.
pub open spec fn level_views(s: Seq<Level>) -> Seq<LevelView> {
    Seq::new(s.len(), |i: int| s[i]@)
}

/// Whether every level of a side is valid and the side is not too long.
pub open spec fn side_wf(s: Seq<LevelView>) -> bool {
    &&& s.len() <= MAX_ITEMS
    &&& forall|i: int| 0 <= i < s.len() ==> (#[trigger] s[i]).wf()
}

/// A venue's resting liquidity: both sides best price first.
#[derive(Clone, Debug)]
pub struct Orderbook {
    pub bids: Vec<Level>,
    pub asks: Vec<Level>,
}

/// An order book as two sequences of level views.
pub struct BookView {
    pub bids: Seq<LevelView>,
    pub asks: Seq<LevelView>,
}

impl BookView {
    pub open spec fn wf(self) -> bool {
        side_wf(self.bids) && side_wf(self.asks)
    }

    /// Whether a side has no level, so that no best price exists.
    pub open spec fn missing_side(self) -> bool {
        self.bids.len() == 0 || self.asks.len() == 0
    }
}

impl View for Orderbook {
    type V = BookView;

    open spec fn view(&self) -> BookView {
        BookView { bids: level_views(self.bids@), asks: level_views(self.asks@) }
    }
}

/// Run-time test of `side_wf`.
pub fn side_is_valid(levels: &Vec<Level>) -> (b: bool)
    ensures
        b == side_wf(level_views(levels@)),
{
    if levels.len() > MAX_ITEMS {
        return false;
    }
    let ghost views = level_views(levels@);
    let mut i: usize = 0;
    while i < levels.len()
        invariant
            i <= levels@.len(),
            views == level_views(levels@),
            forall|k: int| 0 <= k < i ==> (#[trigger] views[k]).wf(),
        decreases levels@.len() - i,
    {
        if !levels[i].is_valid() {
            assert(!views[i as int].wf());
            return false;
        }
        i = i + 1;
    }
    true
}

impl Orderbook {
    pub open spec fn wf(&self) -> bool {
        self@.wf()
    }

    pub fn new(bids: Vec<Level>, asks: Vec<Level>) -> (r: Orderbook)
        ensures
            r.bids == bids,
            r.asks == asks,
    {
        Orderbook { bids, asks }
    }

    /// Run-time test of `wf`.
    pub fn is_valid(&self) -> (b: bool)
        ensures
            b == self.wf(),
    {
        side_is_valid(&self.bids) && side_is_valid(&self.asks)
    }
}

/// An executed transaction or a forced closure, as integers and text.
pub struct FillView {
    pub price: int,
    pub amount: int,
    pub side: Seq<char>,
}

impl FillView {
    pub open spec fn wf(self) -> bool {
        in_range(self.price) && size_in_range(self.amount)
    }
}

/// Whether every fill is valid and the run is not too long.
pub open spec fn fills_wf(s: Seq<FillView>) -> bool {
    &&& s.len() <= MAX_ITEMS
    &&& forall|i: int| 0 <= i < s.len() ==> (#[trigger] s[i]).wf()
}

/// One executed transaction.  `side` is free-form text; only the exact values
/// `Buy` and `Sell` count toward directional volume.
#[derive(Clone, Debug)]
pub struct Trade {
    pub price: Fixed,
    pub amount: Fixed,
    pub side: String,
}

impl View for Trade {
    type V = FillView;

    open spec fn view(&self) -> FillView {
        FillView { price: self.price@, amount: self.amount@, side: self.side@ }
    }
}

impl Trade {
    pub open spec fn wf(&self) -> bool {
        self@.wf()
    }

    pub fn new(price: Fixed, amount: Fixed, side: String) -> (r: Trade)
        ensures
            r.price == price,
            r.amount == amount,
            r.side == side,
    {
        Trade { price, amount, side }
    }

    /// Run-time test of `wf`.
    pub fn is_valid(&self) -> (b: bool)
        ensures
            b == self.wf(),
    {
        self.price.is_bounded() && self.amount.is_bounded_nonneg()
    }
}

/// The views of a run of trades, in order.
pub open spec fn trade_views(s: Seq<Trade>) -> Seq<FillView> {
    Seq::new(s.len(), |i: int| s[i]@)
}

/// One forced position closure.
#[derive(Clone, Debug)]
pub struct Liquidation {
    pub price: Fixed,
    pub amount: Fixed,
    pub side: String,
}

impl View for Liquidation {
    type V = FillView;

    open spec fn view(&self) -> FillView {
        FillView { price: self.price@, amount: self.amount@, side: self.side@ }
    }
}

impl Liquidation {
    pub open spec fn wf(&self) -> bool {
        self@.wf()
    }

    pub fn new(price: Fixed, amount: Fixed, side: String) -> (r: Liquidation)
        ensures
            r.price == price,
            r.amount == amount,
            r.side == side,
    {
        Liquidation { price, amount, side }
    }

    /// Run-time test of `wf`.
    pub fn is_valid(&self) -> (b: bool)
        ensures
            b == self.wf(),
    {
        self.price.is_bounded() && self.amount.is_bounded_nonneg()
    }
}

/// The views of a run of liquidations, in order.
pub open spec fn liquidation_views(s: Seq<Liquidation>) -> Seq<FillView> {
    Seq::new(s.len(), |i: int| s[i]@)
}

/// Run-time test of `fills_wf` on trades.
pub fn trades_are_valid(trades: &[Trade]) -> (b: bool)
    ensures
        b == fills_wf(trade_views(trades@)),
{
    if trades.len() > MAX_ITEMS {
        return false;
    }
    let ghost views = trade_views(trades@);
    let mut i: usize = 0;
    while i < trades.len()
        invariant
            i <= trades@.len(),
            views == trade_views(trades@),
            forall|k: int| 0 <= k < i ==> (#[trigger] views[k]).wf(),
        decreases trades@.len() - i,
    {
        if !trades[i].is_valid() {
            assert(!views[i as int].wf());
            return false;
        }
        i = i + 1;
    }
    true
}

/// Run-time test of `fills_wf` on liquidations.
pub fn liquidations_are_valid(liqs: &[Liquidation]) -> (b: bool)
    ensures
        b == fills_wf(liquidation_views(liqs@)),
{
    if liqs.len() > MAX_ITEMS {
        return false;
    }
    let ghost views = liquidation_views(liqs@);
    let mut i: usize = 0;
    while i < liqs.len()
        invariant
            i <= liqs@.len(),
            views == liquidation_views(liqs@),
            forall|k: int| 0 <= k < i ==> (#[trigger] views[k]).wf(),
        decreases liqs@.len() - i,
    {
        if !liqs[i].is_valid() {
            assert(!views[i as int].wf());
            return false;
        }
        i = i + 1;
    }
    true
}

/// A periodic payment rate between long and short positions.
#[derive(Clone, Copy, Debug, PartialEq, Eq, Structural)]
pub struct FundingRate {
    pub funding_rate: Fixed,
}

impl View for FundingRate {
    type V = int;

    open spec fn view(&self) -> int {
        self.funding_rate@
    }
}

impl FundingRate {
    pub open spec fn wf(&self) -> bool {
        in_range(self@)
    }

    pub fn new(funding_rate: Fixed) -> (r: FundingRate)
        ensures
            r.funding_rate == funding_rate,
    {
        FundingRate { funding_rate }
    }
}

/// Outstanding notional.
#[derive(Clone, Copy, Debug, PartialEq, Eq, Structural)]
pub struct OpenInterest {
    pub open_interest: Fixed,
}

impl View for OpenInterest {
    type V = int;

    open spec fn view(&self) -> int {
        self.open_interest@
    }
}

impl OpenInterest {
    pub open spec fn wf(&self) -> bool {
        in_range(self@)
    }

    pub fn new(open_interest: Fixed) -> (r: OpenInterest)
        ensures
            r.open_interest == open_interest,
    {
        OpenInterest { open_interest }
    }
}

/// Everything that arrived from the five sources in one synchronization
/// period.  Each source may be absent.
#[derive(Clone, Debug)]
pub struct MarketSnapshot {
    pub orderbook: Option<Orderbook>,
    pub trades: Vec<Trade>,
    pub liquidations: Vec<Liquidation>,
    pub funding_rate: Option<FundingRate>,
    pub open_interest: Option<OpenInterest>,
}

/// A snapshot as integers, sequences and text.
pub struct SnapshotView {
    pub book: Option<BookView>,
    pub trades: Seq<FillView>,
    pub liquidations: Seq<FillView>,
    pub funding_rate: Option<int>,
    pub open_interest: Option<int>,
}

impl SnapshotView {
    pub open spec fn wf(self) -> bool {
        &&& self.book matches Some(b) ==> b.wf()
        &&& fills_wf(self.trades)
        &&& fills_wf(self.liquidations)
        &&& self.funding_rate matches Some(f) ==> in_range(f)
        &&& self.open_interest matches Some(v) ==> in_range(v)
    }
}

impl View for MarketSnapshot {
    type V = SnapshotView;

    open spec fn view(&self) -> SnapshotView {
        SnapshotView {
            book: match self.orderbook {
                Some(ob) => Some(ob@),
                None => None,
            },
            trades: trade_views(self.trades@),
            liquidations: liquidation_views(self.liquidations@),
            funding_rate: match self.funding_rate {
                Some(f) => Some(f@),
                None => None,
            },
            open_interest: match self.open_interest {
                Some(v) => Some(v@),
                None => None,
            },
        }
    }
}

impl MarketSnapshot {
    pub open spec fn wf(&self) -> bool {
        self@.wf()
    }

    /// Run-time test of `wf`.
    pub fn is_valid(&self) -> (b: bool)
        ensures
            b == self.wf(),
    {
        let book_ok = match &self.orderbook {
            Some(ob) => ob.is_valid(),
            None => true,
        };
        let funding_ok = match &self.funding_rate {
            Some(f) => f.funding_rate.is_bounded(),
            None => true,
        };
        let interest_ok = match &self.open_interest {
            Some(v) => v.open_interest.is_bounded(),
            None => true,
        };
        book_ok && funding_ok && interest_ok && trades_are_valid(self.trades.as_slice())
            && liquidations_are_valid(self.liquidations.as_slice())
    }
}

/// The views of a run of snapshots, in order.
pub open spec fn snapshot_views(s: Seq<MarketSnapshot>) -> Seq<SnapshotView> {
    Seq::new(s.len(), |i: int| s[i]@)
}

/// Whether every snapshot of a run is valid.
pub open spec fn snapshots_wf(s: Seq<SnapshotView>) -> bool {
    forall|i: int| 0 <= i < s.len() ==> (#[trigger] s[i]).wf()
}

} // verus!
