//! Media files and the outside decoders behind them.

pub mod metadata;
pub mod rational;
