//! Stochastic Relative Strength Index: metadata and lookback.

use vstd::prelude::*;

use crate::types::{IndicatorCategory, IndicatorMetadata};

verus! {

/// Stochastic Relative Strength Index.
#[derive(Debug, Clone, Copy)]
pub struct StochRsi;

impl StochRsi {
    /// Static metadata for this indicator.
    pub fn metadata(&self) -> (r: &'static IndicatorMetadata)
        ensures
            r.describes(
                "stochrsi"@,
                "Stochastic Relative Strength Index"@,
                IndicatorCategory::Indicator,
                seq!["real"@],
                seq!["period"@],
                seq!["stochrsi"@],
            ),
    {
        &IndicatorMetadata {
            name: "stochrsi",
            full_name: "Stochastic Relative Strength Index",
            category: IndicatorCategory::Indicator,
            input_names: &["real"],
            option_names: &["period"],
            output_names: &["stochrsi"],
        }
    }

    /// Leading samples consumed before the first output, for validated options.
    pub fn lookback(&self, period: usize) -> (r: usize)
        requires
            period >= 1,
            period * 2 <= usize::MAX,
        ensures
            r == period * 2 - 1,
    {
        period * 2 - 1
    }
}

} // verus!
