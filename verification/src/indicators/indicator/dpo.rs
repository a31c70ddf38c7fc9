//! Detrended Price Oscillator: metadata and lookback.

use vstd::prelude::*;

use crate::types::{IndicatorCategory, IndicatorMetadata};

verus! {

/// Detrended Price Oscillator.
#[derive(Debug, Clone, Copy)]
pub struct Dpo;

impl Dpo {
    /// Static metadata for this indicator.
    pub fn metadata(&self) -> (r: &'static IndicatorMetadata)
        ensures
            r.describes(
                "dpo"@,
                "Detrended Price Oscillator"@,
                IndicatorCategory::Indicator,
                seq!["real"@],
                seq!["period"@],
                seq!["dpo"@],
            ),
    {
        &IndicatorMetadata {
            name: "dpo",
            full_name: "Detrended Price Oscillator",
            category: IndicatorCategory::Indicator,
            input_names: &["real"],
            option_names: &["period"],
            output_names: &["dpo"],
        }
    }

    /// Leading samples consumed before the first output, for validated options.
    pub fn lookback(&self, period: usize) -> (r: usize)
        requires
            period >= 1,
        ensures
            r == period - 1,
    {
        period - 1
    }
}

} // verus!
