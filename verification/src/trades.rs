//! Trade-flow features over the trades of one synchronization period.

use vstd::prelude::*;
use crate::errors::{FeatureError, Outcome};
use crate::flow::{amount_sum, direction_imbalance, signed_share, trade_side_volumes};
use crate::interface::{Feature, FeatureCategory, MarketConfig};
use crate::market::{Trade, fills_wf, trade_views};
use crate::numeric::{Fixed, MAX_MAGNITUDE};

verus! {

/// Sum of the amounts of a run of trades.
pub fn total_trade_amount(trades: &[Trade]) -> (r: i128)
    requires
        fills_wf(trade_views(trades@)),
    ensures
        r == amount_sum(trade_views(trades@)),
        0 <= r <= trades@.len() * MAX_MAGNITUDE,
{
    let ghost views = trade_views(trades@);
    let mut total: i128 = 0;
    let mut i: usize = 0;
    while i < trades.len()
        invariant
            i <= trades@.len(),
            views == trade_views(trades@),
            fills_wf(views),
            total == amount_sum(views.take(i as int)),
            0 <= total <= i * MAX_MAGNITUDE,
        decreases trades@.len() - i,
    {
        proof {
            assert(views[i as int].wf());
            assert(views.take(i as int + 1).drop_last() =~= views.take(i as int));
        }
        total = total + trades[i].amount.raw;
        i = i + 1;
    }
    proof {
        assert(views.take(i as int) =~= views);
    }
    total
}

/// Total traded amount in the period; zero when there is no trade.
#[derive(Clone, Copy, Debug)]
pub struct TradeIntensityFeature;

impl Feature for TradeIntensityFeature {
    type Input = [Trade];

    type Output = Fixed;

    type Config = MarketConfig;

    open spec fn admits(&self, trades: &[Trade], config: &MarketConfig) -> bool {
        fills_wf(trade_views(trades@)) && config.wf()
    }

    open spec fn outcome(&self, trades: &[Trade], config: &MarketConfig) -> Outcome {
        Ok(amount_sum(trade_views(trades@)))
    }

    open spec fn spec_name(&self) -> Seq<char> {
        "trade_intensity"@
    }

    open spec fn spec_description(&self) -> Seq<char> {
        "Total trade volume (sum of amounts) in the period"@
    }

    open spec fn spec_default_config(&self) -> MarketConfig {
        MarketConfig::spec_default()
    }

    open spec fn spec_category(&self) -> FeatureCategory {
        FeatureCategory::Flow
    }

    fn name(&self) -> (r: &'static str) {
        "trade_intensity"
    }

    fn description(&self) -> (r: &'static str) {
        "Total trade volume (sum of amounts) in the period"
    }

    fn category(&self) -> (r: FeatureCategory) {
        FeatureCategory::Flow
    }

    fn default_config(&self) -> (r: MarketConfig) {
        MarketConfig::default()
    }

    fn compute(&self, trades: &[Trade], _config: &MarketConfig) -> (r: Result<
        Fixed,
        FeatureError,
    >) {
        if trades.len() == 0 {
            return Ok(Fixed { raw: 0 });
        }
        Ok(Fixed { raw: total_trade_amount(trades) })
    }
}

/// Net aggressor direction, from minus one (all selling) to one (all buying);
/// zero when there is no trade or no directional volume.
#[derive(Clone, Copy, Debug)]
pub struct TradeDirectionImbalanceFeature;

impl Feature for TradeDirectionImbalanceFeature {
    type Input = [Trade];

    type Output = Fixed;

    type Config = MarketConfig;

    open spec fn admits(&self, trades: &[Trade], config: &MarketConfig) -> bool {
        fills_wf(trade_views(trades@)) && config.wf()
    }

    open spec fn outcome(&self, trades: &[Trade], config: &MarketConfig) -> Outcome {
        Ok(direction_imbalance(trade_views(trades@)))
    }

    open spec fn spec_name(&self) -> Seq<char> {
        "trade_direction_imbalance"@
    }

    open spec fn spec_description(&self) -> Seq<char> {
        "Signed net aggressor imbalance: (buy_vol - sell_vol) / total_vol"@
    }

    open spec fn spec_default_config(&self) -> MarketConfig {
        MarketConfig::spec_default()
    }

    open spec fn spec_category(&self) -> FeatureCategory {
        FeatureCategory::Flow
    }

    fn name(&self) -> (r: &'static str) {
        "trade_direction_imbalance"
    }

    fn description(&self) -> (r: &'static str) {
        "Signed net aggressor imbalance: (buy_vol - sell_vol) / total_vol"
    }

    fn category(&self) -> (r: FeatureCategory) {
        FeatureCategory::Flow
    }

    fn default_config(&self) -> (r: MarketConfig) {
        MarketConfig::default()
    }

    fn compute(&self, trades: &[Trade], _config: &MarketConfig) -> (r: Result<
        Fixed,
        FeatureError,
    >) {
        if trades.len() == 0 {
            return Ok(Fixed { raw: 0 });
        }
        let volumes = trade_side_volumes(trades);
        Ok(Fixed { raw: signed_share(volumes.0, volumes.1) })
    }
}

} // verus!
