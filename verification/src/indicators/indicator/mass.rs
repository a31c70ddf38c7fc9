//! Mass Index: metadata and lookback.

use vstd::prelude::*;

use crate::types::{IndicatorCategory, IndicatorMetadata};

verus! {

/// Mass Index.
#[derive(Debug, Clone, Copy)]
pub struct Mass;

impl Mass {
    /// Static metadata for this indicator.
    pub fn metadata(&self) -> (r: &'static IndicatorMetadata)
        ensures
            r.describes(
                "mass"@,
                "Mass Index"@,
                IndicatorCategory::Indicator,
                seq!["high"@, "low"@],
                seq!["period"@],
                seq!["mass"@],
            ),
    {
        &IndicatorMetadata {
            name: "mass",
            full_name: "Mass Index",
            category: IndicatorCategory::Indicator,
            input_names: &["high", "low"],
            option_names: &["period"],
            output_names: &["mass"],
        }
    }

    /// Leading samples consumed before the first output, for validated options.
    pub fn lookback(&self, period: usize) -> (r: usize)
        requires
            period + 15 <= usize::MAX,
        ensures
            r == period + 15,
    {
        period + 15
    }
}

} // verus!
