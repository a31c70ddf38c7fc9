//! Intraday Momentum Index: metadata and lookback.

use vstd::prelude::*;

use crate::types::{IndicatorCategory, IndicatorMetadata};

verus! {

/// Intraday Momentum Index.
#[derive(Debug, Clone, Copy)]
pub struct Imi;

impl Imi {
    /// Static metadata for this indicator.
    pub fn metadata(&self) -> (r: &'static IndicatorMetadata)
        ensures
            r.describes(
                "imi"@,
                "Intraday Momentum Index"@,
                IndicatorCategory::Indicator,
                seq!["open"@, "close"@],
                seq!["period"@],
                seq!["imi"@],
            ),
    {
        &IndicatorMetadata {
            name: "imi",
            full_name: "Intraday Momentum Index",
            category: IndicatorCategory::Indicator,
            input_names: &["open", "close"],
            option_names: &["period"],
            output_names: &["imi"],
        }
    }

    /// Leading samples consumed before the first output, for validated options.
    pub fn lookback(&self, period: usize) -> (r: usize)
        ensures
            r == if period >= 1 { period - 1 } else { 0 },
    {
        if period >= 1 { period - 1 } else { 0 }
    }
}

} // verus!
