//! Features of the resting liquidity in one order book.

pub mod imbalance;
pub mod microprice;
pub mod price;
pub mod spread;
pub mod volume;
