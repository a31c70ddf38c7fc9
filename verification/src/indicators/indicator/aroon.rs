//! Aroon and Aroon Oscillator: metadata and lookbacks.

use vstd::prelude::*;

use crate::types::{IndicatorCategory, IndicatorMetadata};

verus! {

/// Aroon.
#[derive(Debug, Clone, Copy)]
pub struct Aroon;

impl Aroon {
    /// Static metadata for this indicator.
    pub fn metadata(&self) -> (r: &'static IndicatorMetadata)
        ensures
            r.describes(
                "aroon"@,
                "Aroon"@,
                IndicatorCategory::Indicator,
                seq!["high"@, "low"@],
                seq!["period"@],
                seq!["aroon_down"@, "aroon_up"@],
            ),
    {
        &IndicatorMetadata {
            name: "aroon",
            full_name: "Aroon",
            category: IndicatorCategory::Indicator,
            input_names: &["high", "low"],
            option_names: &["period"],
            output_names: &["aroon_down", "aroon_up"],
        }
    }

    /// Leading samples consumed before the first output, for validated options.
    pub fn lookback(&self, period: usize) -> (r: usize)
        ensures
            r == period,
    {
        period
    }
}

/// Aroon Oscillator.
#[derive(Debug, Clone, Copy)]
pub struct AroonOsc;

impl AroonOsc {
    /// Static metadata for this indicator.
    pub fn metadata(&self) -> (r: &'static IndicatorMetadata)
        ensures
            r.describes(
                "aroonosc"@,
                "Aroon Oscillator"@,
                IndicatorCategory::Indicator,
                seq!["high"@, "low"@],
                seq!["period"@],
                seq!["aroonosc"@],
            ),
    {
        &IndicatorMetadata {
            name: "aroonosc",
            full_name: "Aroon Oscillator",
            category: IndicatorCategory::Indicator,
            input_names: &["high", "low"],
            option_names: &["period"],
            output_names: &["aroonosc"],
        }
    }

    /// Leading samples consumed before the first output, for validated options.
    pub fn lookback(&self, period: usize) -> (r: usize)
        ensures
            r == period,
    {
        period
    }
}

} // verus!
