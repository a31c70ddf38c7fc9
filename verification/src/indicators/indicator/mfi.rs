//! Money Flow Index: metadata and lookback.

use vstd::prelude::*;

use crate::types::{IndicatorCategory, IndicatorMetadata};

verus! {

/// Money Flow Index.
#[derive(Debug, Clone, Copy)]
pub struct Mfi;

impl Mfi {
    /// Static metadata for this indicator.
    pub fn metadata(&self) -> (r: &'static IndicatorMetadata)
        ensures
            r.describes(
                "mfi"@,
                "Money Flow Index"@,
                IndicatorCategory::Indicator,
                seq!["high"@, "low"@, "close"@, "volume"@],
                seq!["period"@],
                seq!["mfi"@],
            ),
    {
        &IndicatorMetadata {
            name: "mfi",
            full_name: "Money Flow Index",
            category: IndicatorCategory::Indicator,
            input_names: &["high", "low", "close", "volume"],
            option_names: &["period"],
            output_names: &["mfi"],
        }
    }

    /// Leading samples consumed before the first output, for validated options.
    pub fn lookback(&self, period: usize) -> (r: usize)
        ensures
            r == period,
    {
        period
    }
}

} // verus!
