//! The shape that every feature has, and the configuration it reads.

use vstd::prelude::*;
use crate::errors::{FeatureError, FeatureErrorView, Outcome, tolerance_message, zero_depth_message};
use crate::numeric::{Fixed, in_range};

verus! {

/// Semantic grouping of features.
#[derive(Clone, Copy, Debug, PartialEq, Eq, Hash, Structural)]
pub enum FeatureCategory {
    Spread,
    Price,
    Volume,
    Liquidity,
    Imbalance,
    Volatility,
    Flow,
    Timing,
}

/// A configuration as integers: the number of levels to read on each side and
/// the price tolerance in hundred-millionths.
pub struct ConfigView {
    pub depth: int,
    pub bps: int,
}

impl ConfigView {
    /// A depth of at least one and a tolerance within the accepted magnitude.
    pub open spec fn wf(self) -> bool {
        &&& self.depth > 0
        &&& in_range(self.bps)
    }
}

/// Parameters shared by the order-book features.
#[derive(Clone, Copy, Debug, PartialEq, Eq, Structural)]
pub struct OrderbookConfig {
    pub depth: usize,
    pub bps: Fixed,
}

impl View for OrderbookConfig {
    type V = ConfigView;

    open spec fn view(&self) -> ConfigView {
        ConfigView { depth: self.depth as int, bps: self.bps@ }
    }
}

/// What validating a depth and a tolerance gives: nothing to object to, or
/// the failure that names the first value out of its range.
pub open spec fn config_check(depth: int, bps: int) -> Option<FeatureErrorView> {
    if depth <= 0 {
        Some(FeatureErrorView::InvalidConfig { message: zero_depth_message() })
    } else if !in_range(bps) {
        Some(FeatureErrorView::InvalidConfig { message: tolerance_message() })
    } else {
        None
    }
}

/// Run-time form of `config_check`.
pub fn check_config(depth: usize, bps: Fixed) -> (r: Result<(), FeatureError>)
    ensures
        match r {
            Ok(_) => config_check(depth as int, bps@) is None,
            Err(e) => config_check(depth as int, bps@) == Some(e@),
        },
        r is Ok <==> (ConfigView { depth: depth as int, bps: bps@ }).wf(),
{
    if depth == 0 {
        Err(FeatureError::InvalidConfig { message: "depth must be positive".to_owned() })
    } else if !bps.is_bounded() {
        Err(FeatureError::InvalidConfig { message: "bps is out of range".to_owned() })
    } else {
        Ok(())
    }
}

impl OrderbookConfig {
    pub open spec fn wf(&self) -> bool {
        self@.wf()
    }

    /// The default configuration as integers: five levels, ten basis points.
    pub open spec fn default_view() -> ConfigView {
        ConfigView { depth: 5, bps: 100_000 }
    }

    /// The default configuration.
    pub open spec fn spec_default() -> OrderbookConfig {
        OrderbookConfig { depth: 5, bps: Fixed { raw: 100_000 } }
    }

    /// The configuration with these values, or `InvalidConfig` when the depth
    /// is zero or the tolerance is out of range.
    pub fn new(depth: usize, bps: Fixed) -> (r: Result<OrderbookConfig, FeatureError>)
        ensures
            match r {
                Ok(c) => c.depth == depth && c.bps == bps && c.wf() && config_check(
                    depth as int,
                    bps@,
                ) is None,
                Err(e) => config_check(depth as int, bps@) == Some(e@),
            },
    {
        match check_config(depth, bps) {
            Ok(_) => Ok(OrderbookConfig { depth, bps }),
            Err(e) => Err(e),
        }
    }

    /// Run-time test of `wf`.
    pub fn is_valid(&self) -> (b: bool)
        ensures
            b == self.wf(),
    {
        self.depth > 0 && self.bps.is_bounded()
    }
}

impl Default for OrderbookConfig {
    /// Five levels and a tolerance of ten basis points.
    fn default() -> (r: OrderbookConfig)
        ensures
            r == OrderbookConfig::spec_default(),
            r@ == OrderbookConfig::default_view(),
            r.wf(),
    {
        OrderbookConfig { depth: 5, bps: Fixed { raw: 100_000 } }
    }
}

/// Parameters shared by the features that read a whole snapshot.  It has the
/// shape of `OrderbookConfig` and is kept apart from it.
#[derive(Clone, Copy, Debug, PartialEq, Eq, Structural)]
pub struct MarketConfig {
    /// Levels of the book that composite features read.
    pub depth: usize,
    /// Price tolerance of the band features.
    pub bps: Fixed,
}

impl View for MarketConfig {
    type V = ConfigView;

    open spec fn view(&self) -> ConfigView {
        ConfigView { depth: self.depth as int, bps: self.bps@ }
    }
}

impl MarketConfig {
    pub open spec fn wf(&self) -> bool {
        self@.wf()
    }

    /// The default configuration.
    pub open spec fn spec_default() -> MarketConfig {
        MarketConfig { depth: 5, bps: Fixed { raw: 100_000 } }
    }

    /// The configuration with these values, or `InvalidConfig` when the depth
    /// is zero or the tolerance is out of range.
    pub fn new(depth: usize, bps: Fixed) -> (r: Result<MarketConfig, FeatureError>)
        ensures
            match r {
                Ok(c) => c.depth == depth && c.bps == bps && c.wf() && config_check(
                    depth as int,
                    bps@,
                ) is None,
                Err(e) => config_check(depth as int, bps@) == Some(e@),
            },
    {
        match check_config(depth, bps) {
            Ok(_) => Ok(MarketConfig { depth, bps }),
            Err(e) => Err(e),
        }
    }

    /// Run-time test of `wf`.
    pub fn is_valid(&self) -> (b: bool)
        ensures
            b == self.wf(),
    {
        self.depth > 0 && self.bps.is_bounded()
    }

    /// The order-book configuration with the same depth and tolerance.
    pub fn orderbook_config(&self) -> (r: OrderbookConfig)
        ensures
            r@ == self@,
    {
        OrderbookConfig { depth: self.depth, bps: self.bps }
    }
}

impl Default for MarketConfig {
    /// Five levels and a tolerance of ten basis points.
    fn default() -> (r: MarketConfig)
        ensures
            r == MarketConfig::spec_default(),
            r@ == OrderbookConfig::default_view(),
            r.wf(),
    {
        MarketConfig { depth: 5, bps: Fixed { raw: 100_000 } }
    }
}

/// A metric over market data.
///
/// A feature is stateless: what `compute` returns is `outcome`, a function of
/// the input and the configuration alone, so equal arguments always give equal
/// results and a feature may be shared between callers.
pub trait Feature: Send + Sync + 'static {
    type Input: ?Sized;

    type Output: Clone + Send + 'static + View<V = int>;

    type Config: Default + Clone + Send + Sync + 'static;

    /// Whether the input and the configuration are valid, so that the
    /// arithmetic of `compute` is exact.
    spec fn admits(&self, input: &Self::Input, config: &Self::Config) -> bool;

    /// The value of the feature on this input, or the failure owed.
    spec fn outcome(&self, input: &Self::Input, config: &Self::Config) -> Outcome;

    /// Unique identifier of the feature.
    spec fn spec_name(&self) -> Seq<char>;

    /// The grouping the feature belongs to.
    spec fn spec_category(&self) -> FeatureCategory;

    /// Human-readable description.
    spec fn spec_description(&self) -> Seq<char>;

    /// The configuration used when the caller gives none.
    spec fn spec_default_config(&self) -> Self::Config;

    /// Unique identifier of the feature.
    fn name(&self) -> (r: &'static str)
        ensures
            r@ == self.spec_name(),
    ;

    /// Human-readable description.
    fn description(&self) -> (r: &'static str)
        ensures
            r@ == self.spec_description(),
    ;

    /// The grouping the feature belongs to.
    fn category(&self) -> (r: FeatureCategory)
        ensures
            r == self.spec_category(),
    ;

    /// Computes the feature.
    fn compute(&self, input: &Self::Input, config: &Self::Config) -> (r: Result<
        Self::Output,
        FeatureError,
    >)
        requires
            self.admits(input, config),
        ensures
            match r {
                Ok(v) => self.outcome(input, config) == Ok::<int, FeatureErrorView>(v@),
                Err(e) => self.outcome(input, config) == Err::<int, FeatureErrorView>(e@),
            },
    ;

    /// The configuration used when the caller gives none.
    fn default_config(&self) -> (r: Self::Config)
        ensures
            r == self.spec_default_config(),
    ;

    /// Identifiers of the features this one is computed from.  No feature
    /// declares any by default.
    fn dependencies(&self) -> (r: Vec<&'static str>)
        ensures
            r@.len() == 0,
    {
        Vec::new()
    }
}

} // verus!
