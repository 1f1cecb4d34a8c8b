//! Volume features: the volume-weighted average price over the best levels
//! and the volume resting within a price band of the best prices.

use vstd::prelude::*;
use crate::errors::{FeatureError, FeatureErrorView, Outcome};
use crate::interface::{Feature, FeatureCategory, OrderbookConfig};
use crate::market::{BookView, Level, LevelView, Orderbook, level_views, side_wf};
use crate::numeric::{
    Fixed,
    MAX_MAGNITUDE,
    MAX_PRODUCT,
    SCALE,
    div_trunc,
    in_range,
    mul_in_range,
    trunc_div,
};

verus! {

/// Sum of price times size over a run of levels.
pub open spec fn notional_sum(s: Seq<LevelView>) -> int
    decreases s.len(),
{
    if s.len() == 0 {
        0
    } else {
        notional_sum(s.drop_last()) + s.last().price * s.last().volume
    }
}

/// Sum of the sizes of a run of levels.
pub open spec fn volume_sum(s: Seq<LevelView>) -> int
    decreases s.len(),
{
    if s.len() == 0 {
        0
    } else {
        volume_sum(s.drop_last()) + s.last().volume
    }
}

/// The smaller of two lengths.
pub open spec fn shorter(a: int, b: int) -> int {
    if a <= b {
        a
    } else {
        b
    }
}

/// Price times size summed over the best `depth` levels of both sides,
/// divided by the summed sizes and cut off toward zero.  `EmptyOrderbook` when
/// a side is missing; `InsufficientDepth` when a side holds fewer than `depth`
/// levels, with the length of the shorter side as what is available;
/// `ZeroVolume` when the sizes add up to nothing.
pub open spec fn vwap_outcome(book: BookView, depth: int) -> Outcome {
    if book.missing_side() {
        Err(FeatureErrorView::EmptyOrderbook)
    } else if depth > book.bids.len() || depth > book.asks.len() {
        Err(
            FeatureErrorView::InsufficientDepth {
                requested: depth,
                available: shorter(book.bids.len() as int, book.asks.len() as int),
            },
        )
    } else {
        let bids = book.bids.take(depth);
        let asks = book.asks.take(depth);
        let volume = volume_sum(bids) + volume_sum(asks);
        if volume > 0 {
            Ok(trunc_div(notional_sum(bids) + notional_sum(asks), volume))
        } else {
            Err(FeatureErrorView::ZeroVolume)
        }
    }
}

/// Whether a bid at `price` lies no further below the best bid than the
/// tolerance allows: `price >= best * (1 - bps)`, both sides scaled to whole
/// numbers.
pub open spec fn in_bid_band(price: int, best: int, bps: int) -> bool {
    price * SCALE >= best * (SCALE - bps)
}

/// Whether an ask at `price` lies no further above the best ask than the
/// tolerance allows: `price <= best * (1 + bps)`, both sides scaled to whole
/// numbers.
pub open spec fn in_ask_band(price: int, best: int, bps: int) -> bool {
    price * SCALE <= best * (SCALE + bps)
}

/// Summed size of the bids inside the band below `best`.
pub open spec fn bid_band_volume(s: Seq<LevelView>, best: int, bps: int) -> int
    decreases s.len(),
{
    if s.len() == 0 {
        0
    } else {
        bid_band_volume(s.drop_last(), best, bps) + if in_bid_band(s.last().price, best, bps) {
            s.last().volume
        } else {
            0
        }
    }
}

/// Summed size of the asks inside the band above `best`.
pub open spec fn ask_band_volume(s: Seq<LevelView>, best: int, bps: int) -> int
    decreases s.len(),
{
    if s.len() == 0 {
        0
    } else {
        ask_band_volume(s.drop_last(), best, bps) + if in_ask_band(s.last().price, best, bps) {
            s.last().volume
        } else {
            0
        }
    }
}

/// The size resting within the tolerance of the best price, both sides
/// together, or `EmptyOrderbook` when a side is missing.
pub open spec fn tav_outcome(book: BookView, bps: int) -> Outcome {
    if book.missing_side() {
        Err(FeatureErrorView::EmptyOrderbook)
    } else {
        Ok(
            bid_band_volume(book.bids, book.bids[0].price, bps) + ask_band_volume(
                book.asks,
                book.asks[0].price,
                bps,
            ),
        )
    }
}

/// Notional and size summed over the first `depth` levels of one side.
fn side_totals(levels: &Vec<Level>, depth: usize) -> (r: (i128, i128))
    requires
        side_wf(level_views(levels@)),
        depth <= levels@.len(),
    ensures
        r.0 == notional_sum(level_views(levels@).take(depth as int)),
        r.1 == volume_sum(level_views(levels@).take(depth as int)),
        -(depth * MAX_PRODUCT) <= r.0 <= depth * MAX_PRODUCT,
        0 <= r.1 <= depth * MAX_MAGNITUDE,
{
    let ghost views = level_views(levels@);
    let mut notional: i128 = 0;
    let mut volume: i128 = 0;
    let mut i: usize = 0;
    while i < depth
        invariant
            i <= depth <= levels@.len(),
            views == level_views(levels@),
            side_wf(views),
            notional == notional_sum(views.take(i as int)),
            volume == volume_sum(views.take(i as int)),
            -(i * MAX_PRODUCT) <= notional <= i * MAX_PRODUCT,
            0 <= volume <= i * MAX_MAGNITUDE,
        decreases depth - i,
    {
        proof {
            assert(views[i as int].wf());
            assert(views.take(i as int + 1).drop_last() =~= views.take(i as int));
        }
        let level = levels[i];
        notional = notional + mul_in_range(level.price.raw, level.volume.raw);
        volume = volume + level.volume.raw;
        i = i + 1;
    }
    (notional, volume)
}

/// Summed size of the bids of one side inside the band below the best bid.
fn bid_side_band(levels: &Vec<Level>, best: i128, bps: i128) -> (r: i128)
    requires
        side_wf(level_views(levels@)),
        in_range(best as int),
        in_range(bps as int),
    ensures
        r == bid_band_volume(level_views(levels@), best as int, bps as int),
        0 <= r <= levels@.len() * MAX_MAGNITUDE,
{
    let ghost views = level_views(levels@);
    let factor: i128 = SCALE - bps;
    assert(-MAX_PRODUCT - MAX_PRODUCT <= best * factor <= MAX_PRODUCT + MAX_PRODUCT)
        by (nonlinear_arith)
        requires
            -10_000_000_000_000_000 <= best <= 10_000_000_000_000_000,
            -10_000_000_100_000_000 <= factor <= 10_000_000_100_000_000,
            MAX_PRODUCT == 100_000_000_000_000_000_000_000_000_000_000,
    ;
    let floor: i128 = best * factor;
    let mut volume: i128 = 0;
    let mut i: usize = 0;
    while i < levels.len()
        invariant
            i <= levels@.len(),
            views == level_views(levels@),
            side_wf(views),
            floor == best * (SCALE - bps),
            volume == bid_band_volume(views.take(i as int), best as int, bps as int),
            0 <= volume <= i * MAX_MAGNITUDE,
        decreases levels@.len() - i,
    {
        proof {
            assert(views[i as int].wf());
            assert(views.take(i as int + 1).drop_last() =~= views.take(i as int));
        }
        let level = levels[i];
        if level.price.raw * SCALE >= floor {
            volume = volume + level.volume.raw;
        }
        i = i + 1;
    }
    proof {
        assert(views.take(i as int) =~= views);
    }
    volume
}

/// Summed size of the asks of one side inside the band above the best ask.
fn ask_side_band(levels: &Vec<Level>, best: i128, bps: i128) -> (r: i128)
    requires
        side_wf(level_views(levels@)),
        in_range(best as int),
        in_range(bps as int),
    ensures
        r == ask_band_volume(level_views(levels@), best as int, bps as int),
        0 <= r <= levels@.len() * MAX_MAGNITUDE,
{
    let ghost views = level_views(levels@);
    let factor: i128 = SCALE + bps;
    assert(-MAX_PRODUCT - MAX_PRODUCT <= best * factor <= MAX_PRODUCT + MAX_PRODUCT)
        by (nonlinear_arith)
        requires
            -10_000_000_000_000_000 <= best <= 10_000_000_000_000_000,
            -10_000_000_100_000_000 <= factor <= 10_000_000_100_000_000,
            MAX_PRODUCT == 100_000_000_000_000_000_000_000_000_000_000,
    ;
    let ceiling: i128 = best * factor;
    let mut volume: i128 = 0;
    let mut i: usize = 0;
    while i < levels.len()
        invariant
            i <= levels@.len(),
            views == level_views(levels@),
            side_wf(views),
            ceiling == best * (SCALE + bps),
            volume == ask_band_volume(views.take(i as int), best as int, bps as int),
            0 <= volume <= i * MAX_MAGNITUDE,
        decreases levels@.len() - i,
    {
        proof {
            assert(views[i as int].wf());
            assert(views.take(i as int + 1).drop_last() =~= views.take(i as int));
        }
        let level = levels[i];
        if level.price.raw * SCALE <= ceiling {
            volume = volume + level.volume.raw;
        }
        i = i + 1;
    }
    proof {
        assert(views.take(i as int) =~= views);
    }
    volume
}

/// Volume-weighted average price over the best `depth` levels of each side.
#[derive(Clone, Copy, Debug)]
pub struct VWAPFeature;

impl Feature for VWAPFeature {
    type Input = Orderbook;

    type Output = Fixed;

    type Config = OrderbookConfig;

    open spec fn admits(&self, ob: &Orderbook, config: &OrderbookConfig) -> bool {
        ob.wf() && config.wf()
    }

    open spec fn outcome(&self, ob: &Orderbook, config: &OrderbookConfig) -> Outcome {
        vwap_outcome(ob@, config@.depth)
    }

    open spec fn spec_name(&self) -> Seq<char> {
        "vwap"@
    }

    open spec fn spec_description(&self) -> Seq<char> {
        "Volume-Weighted Average Price up to specified depth"@
    }

    open spec fn spec_default_config(&self) -> OrderbookConfig {
        OrderbookConfig::spec_default()
    }

    open spec fn spec_category(&self) -> FeatureCategory {
        FeatureCategory::Volume
    }

    fn name(&self) -> (r: &'static str) {
        "vwap"
    }

    fn description(&self) -> (r: &'static str) {
        "Volume-Weighted Average Price up to specified depth"
    }

    fn category(&self) -> (r: FeatureCategory) {
        FeatureCategory::Volume
    }

    fn default_config(&self) -> (r: OrderbookConfig) {
        OrderbookConfig::default()
    }

    fn compute(&self, ob: &Orderbook, config: &OrderbookConfig) -> (r: Result<
        Fixed,
        FeatureError,
    >) {
        if ob.bids.len() == 0 || ob.asks.len() == 0 {
            return Err(FeatureError::EmptyOrderbook);
        }
        let depth: usize = config.depth;
        if depth > ob.bids.len() || depth > ob.asks.len() {
            let available: usize = if ob.bids.len() <= ob.asks.len() {
                ob.bids.len()
            } else {
                ob.asks.len()
            };
            return Err(FeatureError::InsufficientDepth { requested: depth, available });
        }
        let bid_totals = side_totals(&ob.bids, depth);
        let ask_totals = side_totals(&ob.asks, depth);
        let sum_p_v: i128 = bid_totals.0 + ask_totals.0;
        let sum_v: i128 = bid_totals.1 + ask_totals.1;
        if sum_v > 0 {
            Ok(Fixed { raw: div_trunc(sum_p_v, sum_v) })
        } else {
            Err(FeatureError::ZeroVolume)
        }
    }
}

/// Total size available within the configured tolerance of the best prices.
#[derive(Clone, Copy, Debug)]
pub struct TAVFeature;

impl Feature for TAVFeature {
    type Input = Orderbook;

    type Output = Fixed;

    type Config = OrderbookConfig;

    open spec fn admits(&self, ob: &Orderbook, config: &OrderbookConfig) -> bool {
        ob.wf() && config.wf()
    }

    open spec fn outcome(&self, ob: &Orderbook, config: &OrderbookConfig) -> Outcome {
        tav_outcome(ob@, config@.bps)
    }

    open spec fn spec_name(&self) -> Seq<char> {
        "tav"@
    }

    open spec fn spec_description(&self) -> Seq<char> {
        "Total Available Volume within X bps of midprice"@
    }

    open spec fn spec_default_config(&self) -> OrderbookConfig {
        OrderbookConfig::spec_default()
    }

    open spec fn spec_category(&self) -> FeatureCategory {
        FeatureCategory::Volume
    }

    fn name(&self) -> (r: &'static str) {
        "tav"
    }

    fn description(&self) -> (r: &'static str) {
        "Total Available Volume within X bps of midprice"
    }

    fn category(&self) -> (r: FeatureCategory) {
        FeatureCategory::Volume
    }

    fn default_config(&self) -> (r: OrderbookConfig) {
        OrderbookConfig::default()
    }

    fn compute(&self, ob: &Orderbook, config: &OrderbookConfig) -> (r: Result<
        Fixed,
        FeatureError,
    >) {
        if ob.bids.len() == 0 || ob.asks.len() == 0 {
            return Err(FeatureError::EmptyOrderbook);
        }
        proof {
            let book = ob@;
            assert(book.bids[0].wf() && book.asks[0].wf());
        }
        let best_bid: i128 = ob.bids[0].price.raw;
        let best_ask: i128 = ob.asks[0].price.raw;
        let bps: i128 = config.bps.raw;
        let bid_volume: i128 = bid_side_band(&ob.bids, best_bid, bps);
        let ask_volume: i128 = ask_side_band(&ob.asks, best_ask, bps);
        Ok(Fixed { raw: bid_volume + ask_volume })
    }
}

} // verus!
