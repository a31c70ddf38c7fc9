//! Directional Indicator: metadata and lookback.

use vstd::prelude::*;

use crate::types::{IndicatorCategory, IndicatorMetadata};

verus! {

/// Directional Indicator.
#[derive(Debug, Clone, Copy)]
pub struct Di;

impl Di {
    /// Static metadata for this indicator.
    pub fn metadata(&self) -> (r: &'static IndicatorMetadata)
        ensures
            r.describes(
                "di"@,
                "Directional Indicator"@,
                IndicatorCategory::Indicator,
                seq!["high"@, "low"@, "close"@],
                seq!["period"@],
                seq!["plus_di"@, "minus_di"@],
            ),
    {
        &IndicatorMetadata {
            name: "di",
            full_name: "Directional Indicator",
            category: IndicatorCategory::Indicator,
            input_names: &["high", "low", "close"],
            option_names: &["period"],
            output_names: &["plus_di", "minus_di"],
        }
    }

    /// Leading samples consumed before the first output, for validated options.
    pub fn lookback(&self, period: usize) -> (r: usize)
        ensures
            r == if period >= 1 { period - 1 } else { 0 },
    {
        if period >= 1 { period - 1 } else { 0 }
    }
}

} // verus!
