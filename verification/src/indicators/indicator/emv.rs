//! Ease of Movement: metadata and lookback.

use vstd::prelude::*;

use crate::types::{IndicatorCategory, IndicatorMetadata};

verus! {

/// Ease of Movement.
#[derive(Debug, Clone, Copy)]
pub struct Emv;

impl Emv {
    /// Static metadata for this indicator.
    pub fn metadata(&self) -> (r: &'static IndicatorMetadata)
        ensures
            r.describes(
                "emv"@,
                "Ease of Movement"@,
                IndicatorCategory::Indicator,
                seq!["high"@, "low"@, "volume"@],
                seq![],
                seq!["emv"@],
            ),
    {
        &IndicatorMetadata {
            name: "emv",
            full_name: "Ease of Movement",
            category: IndicatorCategory::Indicator,
            input_names: &["high", "low", "volume"],
            option_names: &[],
            output_names: &["emv"],
        }
    }

    /// Leading samples consumed before the first output.
    pub fn lookback(&self) -> (r: usize)
        ensures
            r == 1,
    {
        1
    }
}

} // verus!
