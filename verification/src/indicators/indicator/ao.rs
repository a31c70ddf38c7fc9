//! Awesome Oscillator: metadata and lookback.

use vstd::prelude::*;

use crate::types::{IndicatorCategory, IndicatorMetadata};

verus! {

/// Awesome Oscillator.
#[derive(Debug, Clone, Copy)]
pub struct Ao;

impl Ao {
    /// Static metadata for this indicator.
    pub fn metadata(&self) -> (r: &'static IndicatorMetadata)
        ensures
            r.describes(
                "ao"@,
                "Awesome Oscillator"@,
                IndicatorCategory::Indicator,
                seq!["high"@, "low"@],
                seq![],
                seq!["ao"@],
            ),
    {
        &IndicatorMetadata {
            name: "ao",
            full_name: "Awesome Oscillator",
            category: IndicatorCategory::Indicator,
            input_names: &["high", "low"],
            option_names: &[],
            output_names: &["ao"],
        }
    }

    /// Leading samples consumed before the first output.
    pub fn lookback(&self) -> (r: usize)
        ensures
            r == 33,
    {
        33
    }
}

} // verus!
