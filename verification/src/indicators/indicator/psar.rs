//! Parabolic SAR: metadata and lookback.

use vstd::prelude::*;

use crate::types::{IndicatorCategory, IndicatorMetadata};

verus! {

/// Parabolic SAR.
#[derive(Debug, Clone, Copy)]
pub struct Psar;

impl Psar {
    /// Static metadata for this indicator.
    pub fn metadata(&self) -> (r: &'static IndicatorMetadata)
        ensures
            r.describes(
                "psar"@,
                "Parabolic SAR"@,
                IndicatorCategory::Indicator,
                seq!["high"@, "low"@],
                seq!["acceleration_factor_step"@, "acceleration_factor_maximum"@],
                seq!["psar"@],
            ),
    {
        &IndicatorMetadata {
            name: "psar",
            full_name: "Parabolic SAR",
            category: IndicatorCategory::Indicator,
            input_names: &["high", "low"],
            option_names: &["acceleration_factor_step", "acceleration_factor_maximum"],
            output_names: &["psar"],
        }
    }

    /// Leading samples consumed before the first output.
    pub fn lookback(&self) -> (r: usize)
        ensures
            r == 1,
    {
        1
    }
}

} // verus!
