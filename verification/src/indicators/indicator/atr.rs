//! Average True Range: metadata and lookback.

use vstd::prelude::*;

use crate::types::{IndicatorCategory, IndicatorMetadata};

verus! {

/// Average True Range.
#[derive(Debug, Clone, Copy)]
pub struct Atr;

impl Atr {
    /// Static metadata for this indicator.
    pub fn metadata(&self) -> (r: &'static IndicatorMetadata)
        ensures
            r.describes(
                "atr"@,
                "Average True Range"@,
                IndicatorCategory::Indicator,
                seq!["high"@, "low"@, "close"@],
                seq!["period"@],
                seq!["atr"@],
            ),
    {
        &IndicatorMetadata {
            name: "atr",
            full_name: "Average True Range",
            category: IndicatorCategory::Indicator,
            input_names: &["high", "low", "close"],
            option_names: &["period"],
            output_names: &["atr"],
        }
    }

    /// Leading samples consumed before the first output, for validated options.
    pub fn lookback(&self, period: usize) -> (r: usize)
        requires
            period >= 1,
        ensures
            r == period - 1,
    {
        period - 1
    }
}

} // verus!
