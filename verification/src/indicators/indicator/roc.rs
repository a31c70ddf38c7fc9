//! Rate of Change: metadata and lookback.

use vstd::prelude::*;

use crate::types::{IndicatorCategory, IndicatorMetadata};

verus! {

/// Rate of Change.
#[derive(Debug, Clone, Copy)]
pub struct Roc;

impl Roc {
    /// Static metadata for this indicator.
    pub fn metadata(&self) -> (r: &'static IndicatorMetadata)
        ensures
            r.describes(
                "roc"@,
                "Rate of Change"@,
                IndicatorCategory::Indicator,
                seq!["real"@],
                seq!["period"@],
                seq!["roc"@],
            ),
    {
        &IndicatorMetadata {
            name: "roc",
            full_name: "Rate of Change",
            category: IndicatorCategory::Indicator,
            input_names: &["real"],
            option_names: &["period"],
            output_names: &["roc"],
        }
    }

    /// Leading samples consumed before the first output, for validated options.
    pub fn lookback(&self, period: usize) -> (r: usize)
        ensures
            r == period,
    {
        period
    }
}

} // verus!
