//! Projection Oscillator, Relative Volatility Index and Stochastic Momentum Index: metadata
//! and lookbacks.

use vstd::prelude::*;

use crate::types::{IndicatorCategory, IndicatorMetadata};

verus! {

/// Projection Oscillator.
#[derive(Debug, Clone, Copy)]
pub struct Posc;

impl Posc {
    /// Static metadata for this indicator.
    pub fn metadata(&self) -> (r: &'static IndicatorMetadata)
        ensures
            r.describes(
                "posc"@,
                "Projection Oscillator"@,
                IndicatorCategory::Indicator,
                seq!["high"@, "low"@, "close"@],
                seq!["period"@, "ema_period"@],
                seq!["posc"@],
            ),
    {
        &IndicatorMetadata {
            name: "posc",
            full_name: "Projection Oscillator",
            category: IndicatorCategory::Indicator,
            input_names: &["high", "low", "close"],
            option_names: &["period", "ema_period"],
            output_names: &["posc"],
        }
    }

    /// Leading samples consumed before the first output, for validated options.
    pub fn lookback(&self, period: usize) -> (r: usize)
        requires
            period >= 1,
        ensures
            r == period - 1,
    {
        period - 1
    }
}

/// Relative Volatility Index.
#[derive(Debug, Clone, Copy)]
pub struct Rvi;

impl Rvi {
    /// Static metadata for this indicator.
    pub fn metadata(&self) -> (r: &'static IndicatorMetadata)
        ensures
            r.describes(
                "rvi"@,
                "Relative Volatility Index"@,
                IndicatorCategory::Indicator,
                seq!["real"@],
                seq!["sma_period"@, "stddev_period"@],
                seq!["rvi"@],
            ),
    {
        &IndicatorMetadata {
            name: "rvi",
            full_name: "Relative Volatility Index",
            category: IndicatorCategory::Indicator,
            input_names: &["real"],
            option_names: &["sma_period", "stddev_period"],
            output_names: &["rvi"],
        }
    }

    /// Leading samples consumed before the first output, for validated options.
    pub fn lookback(&self, stddev_period: usize) -> (r: usize)
        requires
            stddev_period >= 1,
        ensures
            r == stddev_period - 1,
    {
        stddev_period - 1
    }
}

/// Stochastic Momentum Index.
#[derive(Debug, Clone, Copy)]
pub struct Smi;

impl Smi {
    /// Static metadata for this indicator.
    pub fn metadata(&self) -> (r: &'static IndicatorMetadata)
        ensures
            r.describes(
                "smi"@,
                "Stochastic Momentum Index"@,
                IndicatorCategory::Indicator,
                seq!["high"@, "low"@, "close"@],
                seq!["q_period"@, "r_period"@, "s_period"@],
                seq!["smi"@],
            ),
    {
        &IndicatorMetadata {
            name: "smi",
            full_name: "Stochastic Momentum Index",
            category: IndicatorCategory::Indicator,
            input_names: &["high", "low", "close"],
            option_names: &["q_period", "r_period", "s_period"],
            output_names: &["smi"],
        }
    }

    /// Leading samples consumed before the first output, for validated options.
    pub fn lookback(&self, q_period: usize) -> (r: usize)
        requires
            q_period >= 1,
        ensures
            r == q_period - 1,
    {
        q_period - 1
    }
}

} // verus!
