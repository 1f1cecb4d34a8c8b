//! Open-interest change feature.

use vstd::prelude::*;
use vstd::string::*;
use crate::errors::{FeatureError, FeatureErrorView, Outcome, zero_base_message};
use crate::interface::{Feature, FeatureCategory, MarketConfig};
use crate::numeric::{Fixed, SCALE, div_trunc, in_range, trunc_div};

verus! {

/// The change from `prev` to `curr` in percent of `prev`, cut off toward
/// zero.  With `prev` at zero the change is zero when `curr` is zero too and
/// has no value otherwise.
pub open spec fn oi_change_outcome(prev: int, curr: int) -> Outcome {
    if prev == 0 {
        if curr == 0 {
            Ok(0)
        } else {
            Err(FeatureErrorView::ComputationError { message: zero_base_message() })
        }
    } else if prev > 0 {
        Ok(trunc_div((curr - prev) * 100 * SCALE, prev))
    } else {
        Ok(trunc_div((prev - curr) * 100 * SCALE, -prev))
    }
}

/// Percentage change in open interest between two observations, given as the
/// pair of the previous and the current value.
#[derive(Clone, Copy, Debug)]
pub struct OIChangeFeature;

impl Feature for OIChangeFeature {
    type Input = [Fixed; 2];

    type Output = Fixed;

    type Config = MarketConfig;

    open spec fn admits(&self, oi_pair: &[Fixed; 2], config: &MarketConfig) -> bool {
        in_range(oi_pair[0]@) && in_range(oi_pair[1]@) && config.wf()
    }

    open spec fn outcome(&self, oi_pair: &[Fixed; 2], config: &MarketConfig) -> Outcome {
        oi_change_outcome(oi_pair[0]@, oi_pair[1]@)
    }

    open spec fn spec_name(&self) -> Seq<char> {
        "oi_change"@
    }

    open spec fn spec_description(&self) -> Seq<char> {
        "Percentage change in open interest: (curr - prev) / prev * 100"@
    }

    open spec fn spec_default_config(&self) -> MarketConfig {
        MarketConfig::spec_default()
    }

    open spec fn spec_category(&self) -> FeatureCategory {
        FeatureCategory::Volume
    }

    fn name(&self) -> (r: &'static str) {
        "oi_change"
    }

    fn description(&self) -> (r: &'static str) {
        "Percentage change in open interest: (curr - prev) / prev * 100"
    }

    fn category(&self) -> (r: FeatureCategory) {
        FeatureCategory::Volume
    }

    fn default_config(&self) -> (r: MarketConfig) {
        MarketConfig::default()
    }

    fn compute(&self, oi_pair: &[Fixed; 2], _config: &MarketConfig) -> (r: Result<
        Fixed,
        FeatureError,
    >) {
        let prev: i128 = oi_pair[0].raw;
        let curr: i128 = oi_pair[1].raw;
        if prev == 0 {
            if curr == 0 {
                return Ok(Fixed { raw: 0 });
            }
            return Err(
                FeatureError::ComputationError {
                    message: "previous OI is zero, cannot compute percentage change".to_owned(),
                },
            );
        }
        if prev > 0 {
            Ok(Fixed { raw: div_trunc((curr - prev) * 100 * SCALE, prev) })
        } else {
            Ok(Fixed { raw: div_trunc((prev - curr) * 100 * SCALE, -prev) })
        }
    }
}

} // verus!
