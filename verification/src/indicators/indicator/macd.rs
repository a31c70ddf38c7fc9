//! Moving Average Convergence/Divergence and Moving Average Convergence/Divergence Fix
//! 12/26: metadata and lookbacks, and the ordering rules between periods.

use vstd::prelude::*;

use crate::error::IndicatorError;
use crate::types::{IndicatorCategory, IndicatorMetadata};

verus! {

/// Moving Average Convergence/Divergence.
#[derive(Debug, Clone, Copy)]
pub struct Macd;

impl Macd {
    /// Static metadata for this indicator.
    pub fn metadata(&self) -> (r: &'static IndicatorMetadata)
        ensures
            r.describes(
                "macd"@,
                "Moving Average Convergence/Divergence"@,
                IndicatorCategory::Indicator,
                seq!["real"@],
                seq!["short_period"@, "long_period"@, "signal_period"@],
                seq!["macd"@, "macd_signal"@, "macd_histogram"@],
            ),
    {
        &IndicatorMetadata {
            name: "macd",
            full_name: "Moving Average Convergence/Divergence",
            category: IndicatorCategory::Indicator,
            input_names: &["real"],
            option_names: &["short_period", "long_period", "signal_period"],
            output_names: &["macd", "macd_signal", "macd_histogram"],
        }
    }

    /// Leading samples consumed before the first output, for validated options.
    pub fn lookback(&self, long_period: usize) -> (r: usize)
        requires
            long_period >= 1,
        ensures
            r == long_period - 1,
    {
        long_period - 1
    }

    /// Check that the validated periods are ordered (`long_period >= short_period`).
    ///
    /// `long_period_value` is the bit pattern of the caller's `long_period`
    /// option; it is what the error reports.
    pub fn check_periods(short_period: usize, long_period: usize, long_period_value: u64) -> (r: Result<
        (),
        IndicatorError,
    >)
        ensures
            long_period >= short_period ==> r is Ok,
            long_period < short_period ==> r == Err::<(), IndicatorError>(
                IndicatorError::InvalidOption {
                    indicator: "macd",
                    option: "long_period",
                    value: long_period_value,
                    reason: "expected long_period >= short_period",
                },
            ),
    {
        if long_period < short_period {
            return Err(
                IndicatorError::InvalidOption {
                    indicator: "macd",
                    option: "long_period",
                    value: long_period_value,
                    reason: "expected long_period >= short_period",
                },
            );
        }
        Ok(())
    }
}

/// Moving Average Convergence/Divergence Fix 12/26.
#[derive(Debug, Clone, Copy)]
pub struct MacdFix;

impl MacdFix {
    /// Static metadata for this indicator.
    pub fn metadata(&self) -> (r: &'static IndicatorMetadata)
        ensures
            r.describes(
                "macdfix"@,
                "Moving Average Convergence/Divergence Fix 12/26"@,
                IndicatorCategory::Indicator,
                seq!["real"@],
                seq!["signal_period"@],
                seq!["macd"@, "macd_signal"@, "macd_histogram"@],
            ),
    {
        &IndicatorMetadata {
            name: "macdfix",
            full_name: "Moving Average Convergence/Divergence Fix 12/26",
            category: IndicatorCategory::Indicator,
            input_names: &["real"],
            option_names: &["signal_period"],
            output_names: &["macd", "macd_signal", "macd_histogram"],
        }
    }

    /// Leading samples consumed before the first output.
    pub fn lookback(&self) -> (r: usize)
        ensures
            r == 25,
    {
        25
    }
}

} // verus!
