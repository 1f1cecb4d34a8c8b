//! Mid price and volume-weighted mid price at the best levels.

use vstd::prelude::*;
use crate::errors::{FeatureError, FeatureErrorView, Outcome};
use crate::interface::{Feature, FeatureCategory, OrderbookConfig};
use crate::market::{BookView, Orderbook};
use crate::numeric::{Fixed, div_trunc, mul_in_range, trunc_div};

verus! {

/// Half the sum of the best ask and best bid prices, cut off toward zero, or
/// `EmptyOrderbook` when a side is missing.
pub open spec fn midprice_outcome(book: BookView) -> Outcome {
    if book.missing_side() {
        Err(FeatureErrorView::EmptyOrderbook)
    } else {
        Ok(trunc_div(book.asks[0].price + book.bids[0].price, 2))
    }
}

/// The best prices weighed each by its own size, cut off toward zero;
/// `EmptyOrderbook` when a side is missing, `ZeroVolume` when both best sizes
/// are zero.
pub open spec fn weighted_midprice_outcome(book: BookView) -> Outcome {
    if book.missing_side() {
        Err(FeatureErrorView::EmptyOrderbook)
    } else {
        let bid = book.bids[0];
        let ask = book.asks[0];
        if ask.volume + bid.volume == 0 {
            Err(FeatureErrorView::ZeroVolume)
        } else {
            Ok(
                trunc_div(
                    bid.price * bid.volume + ask.price * ask.volume,
                    ask.volume + bid.volume,
                ),
            )
        }
    }
}

/// Mean of the best bid and the best ask.
#[derive(Clone, Copy, Debug)]
pub struct MidpriceFeature;

impl Feature for MidpriceFeature {
    type Input = Orderbook;

    type Output = Fixed;

    type Config = OrderbookConfig;

    open spec fn admits(&self, ob: &Orderbook, config: &OrderbookConfig) -> bool {
        ob.wf() && config.wf()
    }

    open spec fn outcome(&self, ob: &Orderbook, config: &OrderbookConfig) -> Outcome {
        midprice_outcome(ob@)
    }

    open spec fn spec_name(&self) -> Seq<char> {
        "midprice"@
    }

    open spec fn spec_description(&self) -> Seq<char> {
        "Mid price: (best_bid + best_ask) / 2"@
    }

    open spec fn spec_default_config(&self) -> OrderbookConfig {
        OrderbookConfig::spec_default()
    }

    open spec fn spec_category(&self) -> FeatureCategory {
        FeatureCategory::Price
    }

    fn name(&self) -> (r: &'static str) {
        "midprice"
    }

    fn description(&self) -> (r: &'static str) {
        "Mid price: (best_bid + best_ask) / 2"
    }

    fn category(&self) -> (r: FeatureCategory) {
        FeatureCategory::Price
    }

    fn default_config(&self) -> (r: OrderbookConfig) {
        OrderbookConfig::default()
    }

    fn compute(&self, ob: &Orderbook, _config: &OrderbookConfig) -> (r: Result<
        Fixed,
        FeatureError,
    >) {
        if ob.bids.len() == 0 || ob.asks.len() == 0 {
            return Err(FeatureError::EmptyOrderbook);
        }
        proof {
            let book = ob@;
            assert(book.bids[0].wf() && book.asks[0].wf());
        }
        let sum: i128 = ob.asks[0].price.raw + ob.bids[0].price.raw;
        Ok(Fixed { raw: div_trunc(sum, 2) })
    }
}

/// Mid price in which each best price counts by the size resting at it.
#[derive(Clone, Copy, Debug)]
pub struct WeightedMidpriceFeature;

impl Feature for WeightedMidpriceFeature {
    type Input = Orderbook;

    type Output = Fixed;

    type Config = OrderbookConfig;

    open spec fn admits(&self, ob: &Orderbook, config: &OrderbookConfig) -> bool {
        ob.wf() && config.wf()
    }

    open spec fn outcome(&self, ob: &Orderbook, config: &OrderbookConfig) -> Outcome {
        weighted_midprice_outcome(ob@)
    }

    open spec fn spec_name(&self) -> Seq<char> {
        "w_midprice"@
    }

    open spec fn spec_description(&self) -> Seq<char> {
        "Volume-weighted mid price at best levels"@
    }

    open spec fn spec_default_config(&self) -> OrderbookConfig {
        OrderbookConfig::spec_default()
    }

    open spec fn spec_category(&self) -> FeatureCategory {
        FeatureCategory::Price
    }

    fn name(&self) -> (r: &'static str) {
        "w_midprice"
    }

    fn description(&self) -> (r: &'static str) {
        "Volume-weighted mid price at best levels"
    }

    fn category(&self) -> (r: FeatureCategory) {
        FeatureCategory::Price
    }

    fn default_config(&self) -> (r: OrderbookConfig) {
        OrderbookConfig::default()
    }

    fn compute(&self, ob: &Orderbook, _config: &OrderbookConfig) -> (r: Result<
        Fixed,
        FeatureError,
    >) {
        if ob.bids.len() == 0 || ob.asks.len() == 0 {
            return Err(FeatureError::EmptyOrderbook);
        }
        proof {
            let book = ob@;
            assert(book.bids[0].wf() && book.asks[0].wf());
        }
        let bid = ob.bids[0];
        let ask = ob.asks[0];
        let total_volume: i128 = ask.volume.raw + bid.volume.raw;
        if total_volume == 0 {
            return Err(FeatureError::ZeroVolume);
        }
        let weighted: i128 = mul_in_range(bid.price.raw, bid.volume.raw) + mul_in_range(
            ask.price.raw,
            ask.volume.raw,
        );
        Ok(Fixed { raw: div_trunc(weighted, total_volume) })
    }
}

} // verus!
