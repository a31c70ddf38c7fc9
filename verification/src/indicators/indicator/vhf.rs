//! Vertical Horizontal Filter: metadata and lookback.

use vstd::prelude::*;

use crate::types::{IndicatorCategory, IndicatorMetadata};

verus! {

/// Vertical Horizontal Filter.
#[derive(Debug, Clone, Copy)]
pub struct Vhf;

impl Vhf {
    /// Static metadata for this indicator.
    pub fn metadata(&self) -> (r: &'static IndicatorMetadata)
        ensures
            r.describes(
                "vhf"@,
                "Vertical Horizontal Filter"@,
                IndicatorCategory::Indicator,
                seq!["real"@],
                seq!["period"@],
                seq!["vhf"@],
            ),
    {
        &IndicatorMetadata {
            name: "vhf",
            full_name: "Vertical Horizontal Filter",
            category: IndicatorCategory::Indicator,
            input_names: &["real"],
            option_names: &["period"],
            output_names: &["vhf"],
        }
    }

    /// Leading samples consumed before the first output, for validated options.
    pub fn lookback(&self, period: usize) -> (r: usize)
        ensures
            r == period,
    {
        period
    }
}

} // verus!
