//! Average Directional Movement Index: metadata and lookback.

use vstd::prelude::*;

use crate::types::{IndicatorCategory, IndicatorMetadata};

verus! {

/// Average Directional Movement Index.
#[derive(Debug, Clone, Copy)]
pub struct Adx;

impl Adx {
    /// Static metadata for this indicator.
    pub fn metadata(&self) -> (r: &'static IndicatorMetadata)
        ensures
            r.describes(
                "adx"@,
                "Average Directional Movement Index"@,
                IndicatorCategory::Indicator,
                seq!["high"@, "low"@],
                seq!["period"@],
                seq!["adx"@],
            ),
    {
        &IndicatorMetadata {
            name: "adx",
            full_name: "Average Directional Movement Index",
            category: IndicatorCategory::Indicator,
            input_names: &["high", "low"],
            option_names: &["period"],
            output_names: &["adx"],
        }
    }

    /// Leading samples consumed before the first output, for validated options.
    pub fn lookback(&self, period: usize) -> (r: usize)
        requires
            period >= 1,
            (period - 1) * 2 <= usize::MAX,
        ensures
            r == (period - 1) * 2,
    {
        (period - 1) * 2
    }
}

} // verus!
