//! Ultimate Oscillator: metadata and lookback, and the ordering rules between periods.

use vstd::prelude::*;

use crate::error::IndicatorError;
use crate::types::{IndicatorCategory, IndicatorMetadata};

verus! {

/// Ultimate Oscillator.
#[derive(Debug, Clone, Copy)]
pub struct UltOsc;

impl UltOsc {
    /// Static metadata for this indicator.
    pub fn metadata(&self) -> (r: &'static IndicatorMetadata)
        ensures
            r.describes(
                "ultosc"@,
                "Ultimate Oscillator"@,
                IndicatorCategory::Indicator,
                seq!["high"@, "low"@, "close"@],
                seq!["short_period"@, "medium_period"@, "long_period"@],
                seq!["ultosc"@],
            ),
    {
        &IndicatorMetadata {
            name: "ultosc",
            full_name: "Ultimate Oscillator",
            category: IndicatorCategory::Indicator,
            input_names: &["high", "low", "close"],
            option_names: &["short_period", "medium_period", "long_period"],
            output_names: &["ultosc"],
        }
    }

    /// Leading samples consumed before the first output, for validated options.
    pub fn lookback(&self, long_period: usize) -> (r: usize)
        ensures
            r == long_period,
    {
        long_period
    }

    /// Check that the validated periods are ordered
    /// (`short_period <= medium_period <= long_period`), medium first.
    ///
    /// The `*_value` arguments are the bit patterns of the caller's options;
    /// the failing one is what the error reports.
    pub fn check_periods(
        short_period: usize,
        medium_period: usize,
        long_period: usize,
        medium_period_value: u64,
        long_period_value: u64,
    ) -> (r: Result<(), IndicatorError>)
        ensures
            short_period <= medium_period <= long_period ==> r is Ok,
            medium_period < short_period ==> r == Err::<(), IndicatorError>(
                IndicatorError::InvalidOption {
                    indicator: "ultosc",
                    option: "medium_period",
                    value: medium_period_value,
                    reason: "expected medium_period >= short_period",
                },
            ),
            short_period <= medium_period && long_period < medium_period ==> r == Err::<(), IndicatorError>(
                IndicatorError::InvalidOption {
                    indicator: "ultosc",
                    option: "long_period",
                    value: long_period_value,
                    reason: "expected long_period >= medium_period",
                },
            ),
    {
        if medium_period < short_period {
            return Err(
                IndicatorError::InvalidOption {
                    indicator: "ultosc",
                    option: "medium_period",
                    value: medium_period_value,
                    reason: "expected medium_period >= short_period",
                },
            );
        }
        if long_period < medium_period {
            return Err(
                IndicatorError::InvalidOption {
                    indicator: "ultosc",
                    option: "long_period",
                    value: long_period_value,
                    reason: "expected long_period >= medium_period",
                },
            );
        }
        Ok(())
    }
}

} // verus!
