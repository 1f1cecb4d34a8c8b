//! Funding-rate feature.

use vstd::prelude::*;
use crate::errors::{FeatureError, Outcome};
use crate::interface::{Feature, FeatureCategory, MarketConfig};
use crate::market::FundingRate;
use crate::numeric::Fixed;

verus! {

/// Basis points in one whole: the factor from a rate to basis points.
pub const BASIS_POINTS: i128 = 10_000;

/// The signed funding rate in basis points.  Positive when longs pay shorts.
#[derive(Clone, Copy, Debug)]
pub struct FundingRateFeature;

impl Feature for FundingRateFeature {
    type Input = FundingRate;

    type Output = Fixed;

    type Config = MarketConfig;

    open spec fn admits(&self, fr: &FundingRate, config: &MarketConfig) -> bool {
        fr.wf() && config.wf()
    }

    open spec fn outcome(&self, fr: &FundingRate, config: &MarketConfig) -> Outcome {
        Ok(fr@ * BASIS_POINTS)
    }

    open spec fn spec_name(&self) -> Seq<char> {
        "funding_rate"@
    }

    open spec fn spec_description(&self) -> Seq<char> {
        "Signed funding rate in basis points (×10000)"@
    }

    open spec fn spec_default_config(&self) -> MarketConfig {
        MarketConfig::spec_default()
    }

    open spec fn spec_category(&self) -> FeatureCategory {
        FeatureCategory::Flow
    }

    fn name(&self) -> (r: &'static str) {
        "funding_rate"
    }

    fn description(&self) -> (r: &'static str) {
        "Signed funding rate in basis points (×10000)"
    }

    fn category(&self) -> (r: FeatureCategory) {
        FeatureCategory::Flow
    }

    fn default_config(&self) -> (r: MarketConfig) {
        MarketConfig::default()
    }

    fn compute(&self, fr: &FundingRate, _config: &MarketConfig) -> (r: Result<
        Fixed,
        FeatureError,
    >) {
        Ok(Fixed { raw: fr.funding_rate.raw * BASIS_POINTS })
    }
}

} // verus!
