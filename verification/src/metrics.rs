//! What a metric is meant to judge.

use vstd::prelude::*;

verus! {

/// The kind of model output a metric applies to.
#[derive(Clone, Copy, Debug, PartialEq, Eq, Structural)]
pub enum MetricUsage {
    /// Categorical outputs.
    Class,
    /// Numeric outputs.
    Regress,
    /// Both.
    Multiple,
}

} // verus!
