//! Market-microstructure feature engine over fixed-point decimals.
//!
//! Features are scalar metrics derived from order books, trades, liquidations,
//! funding rates and open interest.  Each one is specified by a mathematical
//! function of its input, and each computation is proved to return exactly the
//! value of that function.

pub mod composite;
pub mod compute;
pub mod compute_market;
pub mod datasets;
pub mod decimal;
pub mod errors;
pub mod flow;
pub mod functions;
pub mod funding;
pub mod interface;
pub mod laws;
pub mod liquidations;
pub mod market;
pub mod metrics;
pub mod models;
pub mod numeric;
pub mod open_interest;
pub mod optimizers;
pub mod orderbook;
pub mod persist;
pub mod registry;
pub mod selector;
pub mod text;
pub mod trades;

pub use compute::{
    FeaturesOutput,
    compute_features,
    compute_features_with_config,
    compute_single_orderbook,
};
pub use compute_market::{ALL_FEATURE_NAMES, compute_all_features};
pub use errors::FeatureError;
pub use interface::{Feature, FeatureCategory, MarketConfig, OrderbookConfig};
pub use models::{ModelMode, NalgebraBackend};
pub use numeric::Fixed;
pub use selector::FeatureSelector;
