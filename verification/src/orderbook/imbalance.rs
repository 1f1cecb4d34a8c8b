//! Order imbalance at the best levels.

use vstd::prelude::*;
use crate::errors::{FeatureError, FeatureErrorView, Outcome};
use crate::interface::{Feature, FeatureCategory, OrderbookConfig};
use crate::market::{BookView, Orderbook};
use crate::numeric::{Fixed, SCALE, div_trunc, trunc_div};

verus! {

/// The best ask size as a share of the two best sizes, cut off toward zero;
/// `EmptyOrderbook` when a side is missing, `ZeroVolume` when both best sizes
/// are zero.
pub open spec fn imbalance_outcome(book: BookView) -> Outcome {
    if book.missing_side() {
        Err(FeatureErrorView::EmptyOrderbook)
    } else {
        let bid = book.bids[0];
        let ask = book.asks[0];
        if ask.volume + bid.volume == 0 {
            Err(FeatureErrorView::ZeroVolume)
        } else {
            Ok(trunc_div(ask.volume * SCALE, ask.volume + bid.volume))
        }
    }
}

/// Share of the best-level size that rests on the ask side.
#[derive(Clone, Copy, Debug)]
pub struct ImbalanceFeature;

impl Feature for ImbalanceFeature {
    type Input = Orderbook;

    type Output = Fixed;

    type Config = OrderbookConfig;

    open spec fn admits(&self, ob: &Orderbook, config: &OrderbookConfig) -> bool {
        ob.wf() && config.wf()
    }

    open spec fn outcome(&self, ob: &Orderbook, config: &OrderbookConfig) -> Outcome {
        imbalance_outcome(ob@)
    }

    open spec fn spec_name(&self) -> Seq<char> {
        "imb"@
    }

    open spec fn spec_description(&self) -> Seq<char> {
        "Order imbalance: ask_volume / (ask_volume + bid_volume)"@
    }

    open spec fn spec_default_config(&self) -> OrderbookConfig {
        OrderbookConfig::spec_default()
    }

    open spec fn spec_category(&self) -> FeatureCategory {
        FeatureCategory::Imbalance
    }

    fn name(&self) -> (r: &'static str) {
        "imb"
    }

    fn description(&self) -> (r: &'static str) {
        "Order imbalance: ask_volume / (ask_volume + bid_volume)"
    }

    fn category(&self) -> (r: FeatureCategory) {
        FeatureCategory::Imbalance
    }

    fn default_config(&self) -> (r: OrderbookConfig) {
        OrderbookConfig::default()
    }

    fn compute(&self, ob: &Orderbook, _config: &OrderbookConfig) -> (r: Result<
        Fixed,
        FeatureError,
    >) {
        if ob.bids.len() == 0 || ob.asks.len() == 0 {
            return Err(FeatureError::EmptyOrderbook);
        }
        proof {
            let book = ob@;
            assert(book.bids[0].wf() && book.asks[0].wf());
        }
        let ask_volume: i128 = ob.asks[0].volume.raw;
        let total_volume: i128 = ask_volume + ob.bids[0].volume.raw;
        if total_volume == 0 {
            return Err(FeatureError::ZeroVolume);
        }
        Ok(Fixed { raw: div_trunc(ask_volume * SCALE, total_volume) })
    }
}

} // verus!
