//! Parabolic SAR - Extended: metadata and lookback.

use vstd::prelude::*;

use crate::types::{IndicatorCategory, IndicatorMetadata};

verus! {

/// Parabolic SAR - Extended.
#[derive(Debug, Clone, Copy)]
pub struct Sarext;

impl Sarext {
    /// Static metadata for this indicator.
    pub fn metadata(&self) -> (r: &'static IndicatorMetadata)
        ensures
            r.describes(
                "sarext"@,
                "Parabolic SAR - Extended"@,
                IndicatorCategory::Overlay,
                seq!["high"@, "low"@],
                seq!["start_value"@, "offset_on_reverse"@, "acceleration_init_long"@, "acceleration_long"@, "acceleration_max_long"@, "acceleration_init_short"@, "acceleration_short"@, "acceleration_max_short"@],
                seq!["sarext"@],
            ),
    {
        &IndicatorMetadata {
            name: "sarext",
            full_name: "Parabolic SAR - Extended",
            category: IndicatorCategory::Overlay,
            input_names: &["high", "low"],
            option_names: &["start_value", "offset_on_reverse", "acceleration_init_long", "acceleration_long", "acceleration_max_long", "acceleration_init_short", "acceleration_short", "acceleration_max_short"],
            output_names: &["sarext"],
        }
    }

    /// Leading samples consumed before the first output.
    pub fn lookback(&self) -> (r: usize)
        ensures
            r == 1,
    {
        1
    }
}

} // verus!
