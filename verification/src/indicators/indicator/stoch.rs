//! Stochastic Oscillator: metadata and lookback.

use vstd::prelude::*;

use crate::types::{IndicatorCategory, IndicatorMetadata};

verus! {

/// Stochastic Oscillator.
#[derive(Debug, Clone, Copy)]
pub struct Stoch;

impl Stoch {
    /// Static metadata for this indicator.
    pub fn metadata(&self) -> (r: &'static IndicatorMetadata)
        ensures
            r.describes(
                "stoch"@,
                "Stochastic Oscillator"@,
                IndicatorCategory::Indicator,
                seq!["high"@, "low"@, "close"@],
                seq!["k_period"@, "k_slowing_period"@, "d_period"@],
                seq!["stoch_k"@, "stoch_d"@],
            ),
    {
        &IndicatorMetadata {
            name: "stoch",
            full_name: "Stochastic Oscillator",
            category: IndicatorCategory::Indicator,
            input_names: &["high", "low", "close"],
            option_names: &["k_period", "k_slowing_period", "d_period"],
            output_names: &["stoch_k", "stoch_d"],
        }
    }

    /// Leading samples consumed before the first output, for validated options.
    pub fn lookback(&self, k_period: usize, k_slowing_period: usize, d_period: usize) -> (r: usize)
        requires
            k_period + k_slowing_period + d_period >= 3,
            k_period + k_slowing_period + d_period <= usize::MAX,
        ensures
            r == k_period + k_slowing_period + d_period - 3,
    {
        k_period + k_slowing_period + d_period - 3
    }
}

} // verus!
