//! Sum Over Period: metadata and lookback.

use vstd::prelude::*;

use crate::types::{IndicatorCategory, IndicatorMetadata};

verus! {

/// Sum Over Period.
#[derive(Debug, Clone, Copy)]
pub struct Sum;

impl Sum {
    /// Static metadata for this indicator.
    pub fn metadata(&self) -> (r: &'static IndicatorMetadata)
        ensures
            r.describes(
                "sum"@,
                "Sum Over Period"@,
                IndicatorCategory::Math,
                seq!["real"@],
                seq!["period"@],
                seq!["sum"@],
            ),
    {
        &IndicatorMetadata {
            name: "sum",
            full_name: "Sum Over Period",
            category: IndicatorCategory::Math,
            input_names: &["real"],
            option_names: &["period"],
            output_names: &["sum"],
        }
    }

    /// Leading samples consumed before the first output, for validated options.
    pub fn lookback(&self, period: usize) -> (r: usize)
        requires
            period >= 1,
        ensures
            r == period - 1,
    {
        period - 1
    }
}

} // verus!
