//! Composite features, which read the order book and the trades of one
//! snapshot together.

use vstd::prelude::*;
use crate::errors::{FeatureError, FeatureErrorView, Outcome};
use crate::flow::{flow_toxicity, price_sum, trade_side_volumes, unsigned_share};
use crate::interface::{Feature, FeatureCategory, MarketConfig};
use crate::market::{MarketSnapshot, SnapshotView, Trade, fills_wf, trade_views};
use crate::numeric::{Fixed, MAX_ITEMS, MAX_MAGNITUDE, div_trunc, trunc_div};

verus! {

/// Mean distance of the trade prices from the mid price of the book, cut off
/// toward zero.  The mid price enters exactly, as half the sum of the best
/// prices: the mean of `price - (bid + ask) / 2` over `n` trades is
/// `(2 * sum(price) - n * (bid + ask)) / (2 * n)`.  `EmptyOrderbook` when the
/// snapshot has no book or the book misses a side; zero when there is no
/// trade.
pub open spec fn price_impact_outcome(snap: SnapshotView) -> Outcome {
    match snap.book {
        None => Err(FeatureErrorView::EmptyOrderbook),
        Some(book) => {
            if book.missing_side() {
                Err(FeatureErrorView::EmptyOrderbook)
            } else if snap.trades.len() == 0 {
                Ok(0)
            } else {
                let n = snap.trades.len() as int;
                Ok(
                    trunc_div(
                        2 * price_sum(snap.trades) - n * (book.bids[0].price + book.asks[0].price),
                        2 * n,
                    ),
                )
            }
        },
    }
}

/// Sum of the prices of a run of trades.
pub fn total_trade_price(trades: &[Trade]) -> (r: i128)
    requires
        fills_wf(trade_views(trades@)),
    ensures
        r == price_sum(trade_views(trades@)),
        -(trades@.len() * MAX_MAGNITUDE) <= r <= trades@.len() * MAX_MAGNITUDE,
{
    let ghost views = trade_views(trades@);
    let mut total: i128 = 0;
    let mut i: usize = 0;
    while i < trades.len()
        invariant
            i <= trades@.len(),
            views == trade_views(trades@),
            fills_wf(views),
            total == price_sum(views.take(i as int)),
            -(i * MAX_MAGNITUDE) <= total <= i * MAX_MAGNITUDE,
        decreases trades@.len() - i,
    {
        proof {
            assert(views[i as int].wf());
            assert(views.take(i as int + 1).drop_last() =~= views.take(i as int));
        }
        total = total + trades[i].price.raw;
        i = i + 1;
    }
    proof {
        assert(views.take(i as int) =~= views);
    }
    total
}

/// Mean deviation of the trade prices from the mid price.  Positive when
/// trades print above the mid, negative when below.
#[derive(Clone, Copy, Debug)]
pub struct PriceImpactFeature;

impl Feature for PriceImpactFeature {
    type Input = MarketSnapshot;

    type Output = Fixed;

    type Config = MarketConfig;

    open spec fn admits(&self, snap: &MarketSnapshot, config: &MarketConfig) -> bool {
        snap.wf() && config.wf()
    }

    open spec fn outcome(&self, snap: &MarketSnapshot, config: &MarketConfig) -> Outcome {
        price_impact_outcome(snap@)
    }

    open spec fn spec_name(&self) -> Seq<char> {
        "price_impact"@
    }

    open spec fn spec_description(&self) -> Seq<char> {
        "Mean trade price deviation from midprice"@
    }

    open spec fn spec_default_config(&self) -> MarketConfig {
        MarketConfig::spec_default()
    }

    open spec fn spec_category(&self) -> FeatureCategory {
        FeatureCategory::Liquidity
    }

    fn name(&self) -> (r: &'static str) {
        "price_impact"
    }

    fn description(&self) -> (r: &'static str) {
        "Mean trade price deviation from midprice"
    }

    fn category(&self) -> (r: FeatureCategory) {
        FeatureCategory::Liquidity
    }

    fn default_config(&self) -> (r: MarketConfig) {
        MarketConfig::default()
    }

    fn compute(&self, snap: &MarketSnapshot, _config: &MarketConfig) -> (r: Result<
        Fixed,
        FeatureError,
    >) {
        let ob = match &snap.orderbook {
            Some(ob) => ob,
            None => {
                return Err(FeatureError::EmptyOrderbook);
            },
        };
        if ob.bids.len() == 0 || ob.asks.len() == 0 {
            return Err(FeatureError::EmptyOrderbook);
        }
        if snap.trades.len() == 0 {
            return Ok(Fixed { raw: 0 });
        }
        proof {
            let book = ob@;
            assert(book.bids[0].wf() && book.asks[0].wf());
        }
        let best_sum: i128 = ob.bids[0].price.raw + ob.asks[0].price.raw;
        let count: i128 = snap.trades.len() as i128;
        let prices: i128 = total_trade_price(snap.trades.as_slice());
        assert(-(MAX_ITEMS * (2 * MAX_MAGNITUDE)) <= count * best_sum <= MAX_ITEMS * (2
            * MAX_MAGNITUDE)) by (nonlinear_arith)
            requires
                0 < count <= MAX_ITEMS,
                -(2 * MAX_MAGNITUDE) <= best_sum <= 2 * MAX_MAGNITUDE,
        ;
        let total_impact: i128 = 2 * prices - count * best_sum;
        Ok(Fixed { raw: div_trunc(total_impact, 2 * count) })
    }
}

/// Share of the directional volume that is one-sided, from zero (balanced) to
/// one (all on one side); zero when there is no trade or no directional
/// volume.
#[derive(Clone, Copy, Debug)]
pub struct TradeFlowToxicityFeature;

impl Feature for TradeFlowToxicityFeature {
    type Input = MarketSnapshot;

    type Output = Fixed;

    type Config = MarketConfig;

    open spec fn admits(&self, snap: &MarketSnapshot, config: &MarketConfig) -> bool {
        snap.wf() && config.wf()
    }

    open spec fn outcome(&self, snap: &MarketSnapshot, config: &MarketConfig) -> Outcome {
        Ok(flow_toxicity(snap@.trades))
    }

    open spec fn spec_name(&self) -> Seq<char> {
        "trade_flow_toxicity"@
    }

    open spec fn spec_description(&self) -> Seq<char> {
        "VPIN-inspired toxicity: |buy_vol - sell_vol| / total_vol"@
    }

    open spec fn spec_default_config(&self) -> MarketConfig {
        MarketConfig::spec_default()
    }

    open spec fn spec_category(&self) -> FeatureCategory {
        FeatureCategory::Flow
    }

    fn name(&self) -> (r: &'static str) {
        "trade_flow_toxicity"
    }

    fn description(&self) -> (r: &'static str) {
        "VPIN-inspired toxicity: |buy_vol - sell_vol| / total_vol"
    }

    fn category(&self) -> (r: FeatureCategory) {
        FeatureCategory::Flow
    }

    fn default_config(&self) -> (r: MarketConfig) {
        MarketConfig::default()
    }

    fn compute(&self, snap: &MarketSnapshot, _config: &MarketConfig) -> (r: Result<
        Fixed,
        FeatureError,
    >) {
        if snap.trades.len() == 0 {
            return Ok(Fixed { raw: 0 });
        }
        let volumes = trade_side_volumes(snap.trades.as_slice());
        Ok(Fixed { raw: unsigned_share(volumes.0, volumes.1) })
    }
}

} // verus!
