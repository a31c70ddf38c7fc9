//! Indicator families: metadata, lookback arithmetic and option ordering rules.

pub mod indicator;
pub mod math;
