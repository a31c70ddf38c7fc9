//! Average Directional Movement Rating: metadata and lookback.

use vstd::prelude::*;

use crate::types::{IndicatorCategory, IndicatorMetadata};

verus! {

/// Average Directional Movement Rating.
#[derive(Debug, Clone, Copy)]
pub struct Adxr;

impl Adxr {
    /// Static metadata for this indicator.
    pub fn metadata(&self) -> (r: &'static IndicatorMetadata)
        ensures
            r.describes(
                "adxr"@,
                "Average Directional Movement Rating"@,
                IndicatorCategory::Indicator,
                seq!["high"@, "low"@],
                seq!["period"@],
                seq!["adxr"@],
            ),
    {
        &IndicatorMetadata {
            name: "adxr",
            full_name: "Average Directional Movement Rating",
            category: IndicatorCategory::Indicator,
            input_names: &["high", "low"],
            option_names: &["period"],
            output_names: &["adxr"],
        }
    }

    /// Leading samples consumed before the first output, for validated options.
    pub fn lookback(&self, period: usize) -> (r: usize)
        requires
            period >= 1,
            (period - 1) * 3 <= usize::MAX,
        ensures
            r == (period - 1) * 3,
    {
        (period - 1) * 3
    }
}

} // verus!
