//! Normalized Average True Range: metadata and lookback.

use vstd::prelude::*;

use crate::types::{IndicatorCategory, IndicatorMetadata};

verus! {

/// Normalized Average True Range.
#[derive(Debug, Clone, Copy)]
pub struct Natr;

impl Natr {
    /// Static metadata for this indicator.
    pub fn metadata(&self) -> (r: &'static IndicatorMetadata)
        ensures
            r.describes(
                "natr"@,
                "Normalized Average True Range"@,
                IndicatorCategory::Indicator,
                seq!["high"@, "low"@, "close"@],
                seq!["period"@],
                seq!["natr"@],
            ),
    {
        &IndicatorMetadata {
            name: "natr",
            full_name: "Normalized Average True Range",
            category: IndicatorCategory::Indicator,
            input_names: &["high", "low", "close"],
            option_names: &["period"],
            output_names: &["natr"],
        }
    }

    /// Leading samples consumed before the first output, for validated options.
    pub fn lookback(&self, period: usize) -> (r: usize)
        requires
            period >= 1,
        ensures
            r == period - 1,
    {
        period - 1
    }
}

} // verus!
