//! Liquidation features: the size and the directional skew of the forced
//! closures of one synchronization period.

use vstd::prelude::*;
use crate::errors::{FeatureError, Outcome};
use crate::flow::{direction_imbalance, fill_notional_sum, liquidation_side_volumes, signed_share};
use crate::interface::{Feature, FeatureCategory, MarketConfig};
use crate::market::{Liquidation, fills_wf, liquidation_views};
use crate::numeric::{Fixed, MAX_PRODUCT, SCALE, div_trunc, mul_in_range, trunc_div};

verus! {

/// Sum of price times amount over a run of liquidations, in squared raw
/// units.
pub fn total_liquidation_notional(liqs: &[Liquidation]) -> (r: i128)
    requires
        fills_wf(liquidation_views(liqs@)),
    ensures
        r == fill_notional_sum(liquidation_views(liqs@)),
        -(liqs@.len() * MAX_PRODUCT) <= r <= liqs@.len() * MAX_PRODUCT,
{
    let ghost views = liquidation_views(liqs@);
    let mut total: i128 = 0;
    let mut i: usize = 0;
    while i < liqs.len()
        invariant
            i <= liqs@.len(),
            views == liquidation_views(liqs@),
            fills_wf(views),
            total == fill_notional_sum(views.take(i as int)),
            -(i * MAX_PRODUCT) <= total <= i * MAX_PRODUCT,
        decreases liqs@.len() - i,
    {
        proof {
            assert(views[i as int].wf());
            assert(views.take(i as int + 1).drop_last() =~= views.take(i as int));
        }
        total = total + mul_in_range(liqs[i].price.raw, liqs[i].amount.raw);
        i = i + 1;
    }
    proof {
        assert(views.take(i as int) =~= views);
    }
    total
}

/// Total liquidated notional in the period; zero when there is no
/// liquidation.
#[derive(Clone, Copy, Debug)]
pub struct LiquidationPressureFeature;

impl Feature for LiquidationPressureFeature {
    type Input = [Liquidation];

    type Output = Fixed;

    type Config = MarketConfig;

    open spec fn admits(&self, liqs: &[Liquidation], config: &MarketConfig) -> bool {
        fills_wf(liquidation_views(liqs@)) && config.wf()
    }

    open spec fn outcome(&self, liqs: &[Liquidation], config: &MarketConfig) -> Outcome {
        Ok(trunc_div(fill_notional_sum(liquidation_views(liqs@)), SCALE as int))
    }

    open spec fn spec_name(&self) -> Seq<char> {
        "liquidation_pressure"@
    }

    open spec fn spec_description(&self) -> Seq<char> {
        "Total liquidation notional (price * amount) in the period"@
    }

    open spec fn spec_default_config(&self) -> MarketConfig {
        MarketConfig::spec_default()
    }

    open spec fn spec_category(&self) -> FeatureCategory {
        FeatureCategory::Flow
    }

    fn name(&self) -> (r: &'static str) {
        "liquidation_pressure"
    }

    fn description(&self) -> (r: &'static str) {
        "Total liquidation notional (price * amount) in the period"
    }

    fn category(&self) -> (r: FeatureCategory) {
        FeatureCategory::Flow
    }

    fn default_config(&self) -> (r: MarketConfig) {
        MarketConfig::default()
    }

    fn compute(&self, liqs: &[Liquidation], _config: &MarketConfig) -> (r: Result<
        Fixed,
        FeatureError,
    >) {
        if liqs.len() == 0 {
            assert(0int / (SCALE as int) == 0);
            return Ok(Fixed { raw: 0 });
        }
        let notional: i128 = total_liquidation_notional(liqs);
        Ok(Fixed { raw: div_trunc(notional, SCALE) })
    }
}

/// Directional skew of the liquidations, from minus one (only sells forced)
/// to one (only buys forced); zero when there is no liquidation or no
/// directional volume.
#[derive(Clone, Copy, Debug)]
pub struct LiquidationImbalanceFeature;

impl Feature for LiquidationImbalanceFeature {
    type Input = [Liquidation];

    type Output = Fixed;

    type Config = MarketConfig;

    open spec fn admits(&self, liqs: &[Liquidation], config: &MarketConfig) -> bool {
        fills_wf(liquidation_views(liqs@)) && config.wf()
    }

    open spec fn outcome(&self, liqs: &[Liquidation], config: &MarketConfig) -> Outcome {
        Ok(direction_imbalance(liquidation_views(liqs@)))
    }

    open spec fn spec_name(&self) -> Seq<char> {
        "liquidation_imbalance"@
    }

    open spec fn spec_description(&self) -> Seq<char> {
        "Liquidation direction imbalance: (buy - sell) / total"@
    }

    open spec fn spec_default_config(&self) -> MarketConfig {
        MarketConfig::spec_default()
    }

    open spec fn spec_category(&self) -> FeatureCategory {
        FeatureCategory::Imbalance
    }

    fn name(&self) -> (r: &'static str) {
        "liquidation_imbalance"
    }

    fn description(&self) -> (r: &'static str) {
        "Liquidation direction imbalance: (buy - sell) / total"
    }

    fn category(&self) -> (r: FeatureCategory) {
        FeatureCategory::Imbalance
    }

    fn default_config(&self) -> (r: MarketConfig) {
        MarketConfig::default()
    }

    fn compute(&self, liqs: &[Liquidation], _config: &MarketConfig) -> (r: Result<
        Fixed,
        FeatureError,
    >) {
        if liqs.len() == 0 {
            return Ok(Fixed { raw: 0 });
        }
        let volumes = liquidation_side_volumes(liqs);
        Ok(Fixed { raw: signed_share(volumes.0, volumes.1) })
    }
}

} // verus!
