//! The ways in which a feature computation can fail.

use vstd::prelude::*;
use vstd::string::*;
use crate::text::{decimal_text, usize_text};

verus! {

/// Why a feature could not be computed or selected.
#[derive(Debug)]
pub enum FeatureError {
    /// The book has no bid or no ask, so no best price exists.
    EmptyOrderbook,
    /// The period holds no trade.
    NoTrades,
    /// The period holds no liquidation.
    NoLiquidations,
    /// More levels were asked for than a side holds.
    InsufficientDepth { requested: usize, available: usize },
    /// The sizes that would weigh the result add up to nothing.
    ZeroVolume,
    /// A configuration value is out of its range.
    InvalidConfig { message: String },
    /// The formula has no value on this input.
    ComputationError { message: String },
    /// No feature goes by this name.
    FeatureNotFound { name: String },
}

/// A failure with its texts as character sequences.
pub enum FeatureErrorView {
    EmptyOrderbook,
    NoTrades,
    NoLiquidations,
    InsufficientDepth { requested: int, available: int },
    ZeroVolume,
    InvalidConfig { message: Seq<char> },
    ComputationError { message: Seq<char> },
    FeatureNotFound { name: Seq<char> },
}

impl View for FeatureError {
    type V = FeatureErrorView;

    open spec fn view(&self) -> FeatureErrorView {
        match self {
            FeatureError::EmptyOrderbook => FeatureErrorView::EmptyOrderbook,
            FeatureError::NoTrades => FeatureErrorView::NoTrades,
            FeatureError::NoLiquidations => FeatureErrorView::NoLiquidations,
            FeatureError::InsufficientDepth { requested, available } => {
                FeatureErrorView::InsufficientDepth {
                    requested: *requested as int,
                    available: *available as int,
                }
            },
            FeatureError::ZeroVolume => FeatureErrorView::ZeroVolume,
            FeatureError::InvalidConfig { message } => FeatureErrorView::InvalidConfig {
                message: message@,
            },
            FeatureError::ComputationError { message } => FeatureErrorView::ComputationError {
                message: message@,
            },
            FeatureError::FeatureNotFound { name } => FeatureErrorView::FeatureNotFound {
                name: name@,
            },
        }
    }
}

/// What a computation is owed to return: a raw value or a failure.
pub type Outcome = Result<int, FeatureErrorView>;

/// The outcome that a returned result stands for.
pub open spec fn outcome_of(r: Result<crate::numeric::Fixed, FeatureError>) -> Outcome {
    match r {
        Ok(v) => Ok(v@),
        Err(e) => Err(e@),
    }
}

/// Message of the failure that an unknown previous open interest of zero
/// gives.
pub open spec fn zero_base_message() -> Seq<char> {
    "previous OI is zero, cannot compute percentage change"@
}

/// Message of the failure that a depth of zero gives.
pub open spec fn zero_depth_message() -> Seq<char> {
    "depth must be positive"@
}

/// Message of the failure that a tolerance outside the accepted magnitude
/// gives.
pub open spec fn tolerance_message() -> Seq<char> {
    "bps is out of range"@
}

/// The message of a failure.
pub open spec fn error_text(e: FeatureErrorView) -> Seq<char> {
    match e {
        FeatureErrorView::EmptyOrderbook => "Empty orderbook"@,
        FeatureErrorView::NoTrades => "No trades in period"@,
        FeatureErrorView::NoLiquidations => "No liquidations in period"@,
        FeatureErrorView::InsufficientDepth { requested, available } => {
            "Insufficient depth: requested "@ + decimal_text(requested as nat) + ", available "@
                + decimal_text(available as nat)
        },
        FeatureErrorView::ZeroVolume => "Zero volume"@,
        FeatureErrorView::InvalidConfig { message } => "Invalid configuration: "@ + message,
        FeatureErrorView::ComputationError { message } => "Computation error: "@ + message,
        FeatureErrorView::FeatureNotFound { name } => "Feature not found: "@ + name,
    }
}

impl FeatureError {
    /// The message of the failure.
    pub fn to_text(&self) -> (r: String)
        ensures
            r@ == error_text(self@),
    {
        match self {
            FeatureError::EmptyOrderbook => "Empty orderbook".to_owned(),
            FeatureError::NoTrades => "No trades in period".to_owned(),
            FeatureError::NoLiquidations => "No liquidations in period".to_owned(),
            FeatureError::InsufficientDepth { requested, available } => {
                let mut text = "Insufficient depth: requested ".to_owned();
                let asked = usize_text(*requested);
                text.append(asked.as_str());
                text.append(", available ");
                let held = usize_text(*available);
                text.append(held.as_str());
                text
            },
            FeatureError::ZeroVolume => "Zero volume".to_owned(),
            FeatureError::InvalidConfig { message } => {
                let mut text = "Invalid configuration: ".to_owned();
                text.append(message.as_str());
                text
            },
            FeatureError::ComputationError { message } => {
                let mut text = "Computation error: ".to_owned();
                text.append(message.as_str());
                text
            },
            FeatureError::FeatureNotFound { name } => {
                let mut text = "Feature not found: ".to_owned();
                text.append(name.as_str());
                text
            },
        }
    }
}

} // verus!
