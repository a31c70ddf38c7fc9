//! Directional Movement: metadata and lookback.

use vstd::prelude::*;

use crate::types::{IndicatorCategory, IndicatorMetadata};

verus! {

/// Directional Movement.
#[derive(Debug, Clone, Copy)]
pub struct Dm;

impl Dm {
    /// Static metadata for this indicator.
    pub fn metadata(&self) -> (r: &'static IndicatorMetadata)
        ensures
            r.describes(
                "dm"@,
                "Directional Movement"@,
                IndicatorCategory::Indicator,
                seq!["high"@, "low"@],
                seq!["period"@],
                seq!["plus_dm"@, "minus_dm"@],
            ),
    {
        &IndicatorMetadata {
            name: "dm",
            full_name: "Directional Movement",
            category: IndicatorCategory::Indicator,
            input_names: &["high", "low"],
            option_names: &["period"],
            output_names: &["plus_dm", "minus_dm"],
        }
    }

    /// Leading samples consumed before the first output, for validated options.
    pub fn lookback(&self, period: usize) -> (r: usize)
        ensures
            r == if period >= 1 { period - 1 } else { 0 },
    {
        if period >= 1 { period - 1 } else { 0 }
    }
}

} // verus!
