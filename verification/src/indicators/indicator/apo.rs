//! Absolute Price Oscillator: metadata and lookback, and the ordering rules between
//! periods.

use vstd::prelude::*;

use crate::error::IndicatorError;
use crate::types::{IndicatorCategory, IndicatorMetadata};

verus! {

/// Absolute Price Oscillator.
#[derive(Debug, Clone, Copy)]
pub struct Apo;

impl Apo {
    /// Static metadata for this indicator.
    pub fn metadata(&self) -> (r: &'static IndicatorMetadata)
        ensures
            r.describes(
                "apo"@,
                "Absolute Price Oscillator"@,
                IndicatorCategory::Indicator,
                seq!["real"@],
                seq!["short_period"@, "long_period"@],
                seq!["apo"@],
            ),
    {
        &IndicatorMetadata {
            name: "apo",
            full_name: "Absolute Price Oscillator",
            category: IndicatorCategory::Indicator,
            input_names: &["real"],
            option_names: &["short_period", "long_period"],
            output_names: &["apo"],
        }
    }

    /// Leading samples consumed before the first output.
    pub fn lookback(&self) -> (r: usize)
        ensures
            r == 1,
    {
        1
    }

    /// Check that the validated periods are ordered (`long_period >= short_period`).
    ///
    /// `long_period_value` is the bit pattern of the caller's `long_period`
    /// option; it is what the error reports.
    pub fn check_periods(short_period: usize, long_period: usize, long_period_value: u64) -> (r: Result<
        (),
        IndicatorError,
    >)
        ensures
            long_period >= short_period ==> r is Ok,
            long_period < short_period ==> r == Err::<(), IndicatorError>(
                IndicatorError::InvalidOption {
                    indicator: "apo",
                    option: "long_period",
                    value: long_period_value,
                    reason: "expected long_period >= short_period",
                },
            ),
    {
        if long_period < short_period {
            return Err(
                IndicatorError::InvalidOption {
                    indicator: "apo",
                    option: "long_period",
                    value: long_period_value,
                    reason: "expected long_period >= short_period",
                },
            );
        }
        Ok(())
    }
}

} // verus!
