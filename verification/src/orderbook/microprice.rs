//! Microprice: a fair-value estimate from the imbalance at the best levels.
//!
//! Each best price is weighed by the size resting on the other side, which
//! pulls the estimate toward the side with less liquidity.

use vstd::prelude::*;
use crate::errors::{FeatureError, FeatureErrorView, Outcome};
use crate::interface::{Feature, FeatureCategory, OrderbookConfig};
use crate::market::{BookView, Orderbook};
use crate::numeric::{Fixed, div_trunc, mul_in_range, trunc_div};

verus! {

/// The best bid price times the ask share of the best sizes plus the best ask
/// price times the bid share, cut off toward zero; `EmptyOrderbook` when a
/// side is missing, `ZeroVolume` when both best sizes are zero.
pub open spec fn microprice_outcome(book: BookView) -> Outcome {
    if book.missing_side() {
        Err(FeatureErrorView::EmptyOrderbook)
    } else {
        let bid = book.bids[0];
        let ask = book.asks[0];
        if bid.volume + ask.volume == 0 {
            Err(FeatureErrorView::ZeroVolume)
        } else {
            Ok(
                trunc_div(
                    bid.price * ask.volume + ask.price * bid.volume,
                    bid.volume + ask.volume,
                ),
            )
        }
    }
}

/// Size-imbalance-weighted fair value.
#[derive(Clone, Copy, Debug)]
pub struct MicropriceFeature;

impl Feature for MicropriceFeature {
    type Input = Orderbook;

    type Output = Fixed;

    type Config = OrderbookConfig;

    open spec fn admits(&self, ob: &Orderbook, config: &OrderbookConfig) -> bool {
        ob.wf() && config.wf()
    }

    open spec fn outcome(&self, ob: &Orderbook, config: &OrderbookConfig) -> Outcome {
        microprice_outcome(ob@)
    }

    open spec fn spec_name(&self) -> Seq<char> {
        "microprice"@
    }

    open spec fn spec_description(&self) -> Seq<char> {
        "Microprice: size-imbalance-weighted fair value"@
    }

    open spec fn spec_default_config(&self) -> OrderbookConfig {
        OrderbookConfig::spec_default()
    }

    open spec fn spec_category(&self) -> FeatureCategory {
        FeatureCategory::Price
    }

    fn name(&self) -> (r: &'static str) {
        "microprice"
    }

    fn description(&self) -> (r: &'static str) {
        "Microprice: size-imbalance-weighted fair value"
    }

    fn category(&self) -> (r: FeatureCategory) {
        FeatureCategory::Price
    }

    fn default_config(&self) -> (r: OrderbookConfig) {
        OrderbookConfig::default()
    }

    fn compute(&self, ob: &Orderbook, _config: &OrderbookConfig) -> (r: Result<
        Fixed,
        FeatureError,
    >) {
        if ob.bids.len() == 0 || ob.asks.len() == 0 {
            return Err(FeatureError::EmptyOrderbook);
        }
        proof {
            let book = ob@;
            assert(book.bids[0].wf() && book.asks[0].wf());
        }
        let bid_price: i128 = ob.bids[0].price.raw;
        let ask_price: i128 = ob.asks[0].price.raw;
        let bid_size: i128 = ob.bids[0].volume.raw;
        let ask_size: i128 = ob.asks[0].volume.raw;
        let total_size: i128 = bid_size + ask_size;
        if total_size == 0 {
            return Err(FeatureError::ZeroVolume);
        }
        let weighted: i128 = mul_in_range(bid_price, ask_size) + mul_in_range(
            ask_price,
            bid_size,
        );
        Ok(Fixed { raw: div_trunc(weighted, total_size) })
    }
}

} // verus!
