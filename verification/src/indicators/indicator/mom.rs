//! Momentum: metadata and lookback.

use vstd::prelude::*;

use crate::types::{IndicatorCategory, IndicatorMetadata};

verus! {

/// Momentum.
#[derive(Debug, Clone, Copy)]
pub struct Mom;

impl Mom {
    /// Static metadata for this indicator.
    pub fn metadata(&self) -> (r: &'static IndicatorMetadata)
        ensures
            r.describes(
                "mom"@,
                "Momentum"@,
                IndicatorCategory::Indicator,
                seq!["real"@],
                seq!["period"@],
                seq!["mom"@],
            ),
    {
        &IndicatorMetadata {
            name: "mom",
            full_name: "Momentum",
            category: IndicatorCategory::Indicator,
            input_names: &["real"],
            option_names: &["period"],
            output_names: &["mom"],
        }
    }

    /// Leading samples consumed before the first output, for validated options.
    pub fn lookback(&self, period: usize) -> (r: usize)
        ensures
            r == period,
    {
        period
    }
}

} // verus!
