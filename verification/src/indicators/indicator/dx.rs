//! Directional Movement Index: metadata and lookback.

use vstd::prelude::*;

use crate::types::{IndicatorCategory, IndicatorMetadata};

verus! {

/// Directional Movement Index.
#[derive(Debug, Clone, Copy)]
pub struct Dx;

impl Dx {
    /// Static metadata for this indicator.
    pub fn metadata(&self) -> (r: &'static IndicatorMetadata)
        ensures
            r.describes(
                "dx"@,
                "Directional Movement Index"@,
                IndicatorCategory::Indicator,
                seq!["high"@, "low"@],
                seq!["period"@],
                seq!["dx"@],
            ),
    {
        &IndicatorMetadata {
            name: "dx",
            full_name: "Directional Movement Index",
            category: IndicatorCategory::Indicator,
            input_names: &["high", "low"],
            option_names: &["period"],
            output_names: &["dx"],
        }
    }

    /// Leading samples consumed before the first output, for validated options.
    pub fn lookback(&self, period: usize) -> (r: usize)
        ensures
            r == if period >= 1 { period - 1 } else { 0 },
    {
        if period >= 1 { period - 1 } else { 0 }
    }
}

} // verus!
