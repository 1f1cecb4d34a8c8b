//! Bid-ask spread.

use vstd::prelude::*;
use crate::errors::{FeatureError, FeatureErrorView, Outcome};
use crate::interface::{Feature, FeatureCategory, OrderbookConfig};
use crate::market::{BookView, Orderbook};
use crate::numeric::Fixed;

verus! {

/// The best ask price less the best bid price, or `EmptyOrderbook` when a side
/// is missing.
pub open spec fn spread_outcome(book: BookView) -> Outcome {
    if book.missing_side() {
        Err(FeatureErrorView::EmptyOrderbook)
    } else {
        Ok(book.asks[0].price - book.bids[0].price)
    }
}

/// Distance between the best ask and the best bid.
#[derive(Clone, Copy, Debug)]
pub struct SpreadFeature;

impl Feature for SpreadFeature {
    type Input = Orderbook;

    type Output = Fixed;

    type Config = OrderbookConfig;

    open spec fn admits(&self, ob: &Orderbook, config: &OrderbookConfig) -> bool {
        ob.wf() && config.wf()
    }

    open spec fn outcome(&self, ob: &Orderbook, config: &OrderbookConfig) -> Outcome {
        spread_outcome(ob@)
    }

    open spec fn spec_name(&self) -> Seq<char> {
        "spread"@
    }

    open spec fn spec_description(&self) -> Seq<char> {
        "Bid-ask spread (ask_price - bid_price)"@
    }

    open spec fn spec_default_config(&self) -> OrderbookConfig {
        OrderbookConfig::spec_default()
    }

    open spec fn spec_category(&self) -> FeatureCategory {
        FeatureCategory::Spread
    }

    fn name(&self) -> (r: &'static str) {
        "spread"
    }

    fn description(&self) -> (r: &'static str) {
        "Bid-ask spread (ask_price - bid_price)"
    }

    fn category(&self) -> (r: FeatureCategory) {
        FeatureCategory::Spread
    }

    fn default_config(&self) -> (r: OrderbookConfig) {
        OrderbookConfig::default()
    }

    fn compute(&self, ob: &Orderbook, _config: &OrderbookConfig) -> (r: Result<
        Fixed,
        FeatureError,
    >) {
        if ob.bids.len() == 0 || ob.asks.len() == 0 {
            return Err(FeatureError::EmptyOrderbook);
        }
        proof {
            let book = ob@;
            assert(book.bids[0].wf() && book.asks[0].wf());
        }
        let spread: i128 = ob.asks[0].price.raw - ob.bids[0].price.raw;
        Ok(Fixed { raw: spread })
    }
}

} // verus!
