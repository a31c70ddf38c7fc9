//! True Strength Index: metadata and lookback.

use vstd::prelude::*;

use crate::types::{IndicatorCategory, IndicatorMetadata};

verus! {

/// True Strength Index.
#[derive(Debug, Clone, Copy)]
pub struct Tsi;

impl Tsi {
    /// Static metadata for this indicator.
    pub fn metadata(&self) -> (r: &'static IndicatorMetadata)
        ensures
            r.describes(
                "tsi"@,
                "True Strength Index"@,
                IndicatorCategory::Indicator,
                seq!["real"@],
                seq!["y_period"@, "z_period"@],
                seq!["tsi"@],
            ),
    {
        &IndicatorMetadata {
            name: "tsi",
            full_name: "True Strength Index",
            category: IndicatorCategory::Indicator,
            input_names: &["real"],
            option_names: &["y_period", "z_period"],
            output_names: &["tsi"],
        }
    }

    /// Leading samples consumed before the first output.
    pub fn lookback(&self) -> (r: usize)
        ensures
            r == 1,
    {
        1
    }
}

} // verus!
