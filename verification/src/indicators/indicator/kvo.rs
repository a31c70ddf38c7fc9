//! Klinger Volume Oscillator: metadata and lookback, and the ordering rules between
//! periods.

use vstd::prelude::*;

use crate::error::IndicatorError;
use crate::types::{IndicatorCategory, IndicatorMetadata};

verus! {

/// Klinger Volume Oscillator.
#[derive(Debug, Clone, Copy)]
pub struct Kvo;

impl Kvo {
    /// Static metadata for this indicator.
    pub fn metadata(&self) -> (r: &'static IndicatorMetadata)
        ensures
            r.describes(
                "kvo"@,
                "Klinger Volume Oscillator"@,
                IndicatorCategory::Indicator,
                seq!["high"@, "low"@, "close"@, "volume"@],
                seq!["short_period"@, "long_period"@],
                seq!["kvo"@],
            ),
    {
        &IndicatorMetadata {
            name: "kvo",
            full_name: "Klinger Volume Oscillator",
            category: IndicatorCategory::Indicator,
            input_names: &["high", "low", "close", "volume"],
            option_names: &["short_period", "long_period"],
            output_names: &["kvo"],
        }
    }

    /// Leading samples consumed before the first output.
    pub fn lookback(&self) -> (r: usize)
        ensures
            r == 1,
    {
        1
    }

    /// Check that the validated periods are ordered (`long_period >= short_period`).
    ///
    /// `long_period_value` is the bit pattern of the caller's `long_period`
    /// option; it is what the error reports.
    pub fn check_periods(short_period: usize, long_period: usize, long_period_value: u64) -> (r: Result<
        (),
        IndicatorError,
    >)
        ensures
            long_period >= short_period ==> r is Ok,
            long_period < short_period ==> r == Err::<(), IndicatorError>(
                IndicatorError::InvalidOption {
                    indicator: "kvo",
                    option: "long_period",
                    value: long_period_value,
                    reason: "expected long_period >= short_period",
                },
            ),
    {
        if long_period < short_period {
            return Err(
                IndicatorError::InvalidOption {
                    indicator: "kvo",
                    option: "long_period",
                    value: long_period_value,
                    reason: "expected long_period >= short_period",
                },
            );
        }
        Ok(())
    }
}

} // verus!
