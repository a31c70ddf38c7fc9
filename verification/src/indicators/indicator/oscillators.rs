//! Commodity Channel Index, Chande Momentum Oscillator, Chaikins Volatility, Fisher
//! Transform, Mean Deviation, Mesa Sine Wave and Qstick: metadata and lookbacks.

use vstd::prelude::*;

use crate::types::{IndicatorCategory, IndicatorMetadata};

verus! {

/// Commodity Channel Index.
#[derive(Debug, Clone, Copy)]
pub struct Cci;

impl Cci {
    /// Static metadata for this indicator.
    pub fn metadata(&self) -> (r: &'static IndicatorMetadata)
        ensures
            r.describes(
                "cci"@,
                "Commodity Channel Index"@,
                IndicatorCategory::Indicator,
                seq!["high"@, "low"@, "close"@],
                seq!["period"@],
                seq!["cci"@],
            ),
    {
        &IndicatorMetadata {
            name: "cci",
            full_name: "Commodity Channel Index",
            category: IndicatorCategory::Indicator,
            input_names: &["high", "low", "close"],
            option_names: &["period"],
            output_names: &["cci"],
        }
    }

    /// Leading samples consumed before the first output, for validated options.
    pub fn lookback(&self, period: usize) -> (r: usize)
        requires
            period >= 1,
            (period - 1) * 2 <= usize::MAX,
        ensures
            r == (period - 1) * 2,
    {
        (period - 1) * 2
    }
}

/// Chande Momentum Oscillator.
#[derive(Debug, Clone, Copy)]
pub struct Cmo;

impl Cmo {
    /// Static metadata for this indicator.
    pub fn metadata(&self) -> (r: &'static IndicatorMetadata)
        ensures
            r.describes(
                "cmo"@,
                "Chande Momentum Oscillator"@,
                IndicatorCategory::Indicator,
                seq!["real"@],
                seq!["period"@],
                seq!["cmo"@],
            ),
    {
        &IndicatorMetadata {
            name: "cmo",
            full_name: "Chande Momentum Oscillator",
            category: IndicatorCategory::Indicator,
            input_names: &["real"],
            option_names: &["period"],
            output_names: &["cmo"],
        }
    }

    /// Leading samples consumed before the first output, for validated options.
    pub fn lookback(&self, period: usize) -> (r: usize)
        ensures
            r == period,
    {
        period
    }
}

/// Chaikins Volatility.
#[derive(Debug, Clone, Copy)]
pub struct Cvi;

impl Cvi {
    /// Static metadata for this indicator.
    pub fn metadata(&self) -> (r: &'static IndicatorMetadata)
        ensures
            r.describes(
                "cvi"@,
                "Chaikins Volatility"@,
                IndicatorCategory::Indicator,
                seq!["high"@, "low"@],
                seq!["period"@],
                seq!["cvi"@],
            ),
    {
        &IndicatorMetadata {
            name: "cvi",
            full_name: "Chaikins Volatility",
            category: IndicatorCategory::Indicator,
            input_names: &["high", "low"],
            option_names: &["period"],
            output_names: &["cvi"],
        }
    }

    /// Leading samples consumed before the first output, for validated options.
    pub fn lookback(&self, period: usize) -> (r: usize)
        requires
            period >= 1,
            period * 2 <= usize::MAX,
        ensures
            r == period * 2 - 1,
    {
        period * 2 - 1
    }
}

/// Fisher Transform.
#[derive(Debug, Clone, Copy)]
pub struct Fisher;

impl Fisher {
    /// Static metadata for this indicator.
    pub fn metadata(&self) -> (r: &'static IndicatorMetadata)
        ensures
            r.describes(
                "fisher"@,
                "Fisher Transform"@,
                IndicatorCategory::Indicator,
                seq!["high"@, "low"@],
                seq!["period"@],
                seq!["fisher"@, "signal"@],
            ),
    {
        &IndicatorMetadata {
            name: "fisher",
            full_name: "Fisher Transform",
            category: IndicatorCategory::Indicator,
            input_names: &["high", "low"],
            option_names: &["period"],
            output_names: &["fisher", "signal"],
        }
    }

    /// Leading samples consumed before the first output, for validated options.
    pub fn lookback(&self, period: usize) -> (r: usize)
        requires
            period >= 1,
        ensures
            r == period - 1,
    {
        period - 1
    }
}

/// Mean Deviation.
#[derive(Debug, Clone, Copy)]
pub struct Md;

impl Md {
    /// Static metadata for this indicator.
    pub fn metadata(&self) -> (r: &'static IndicatorMetadata)
        ensures
            r.describes(
                "md"@,
                "Mean Deviation"@,
                IndicatorCategory::Indicator,
                seq!["real"@],
                seq!["period"@],
                seq!["md"@],
            ),
    {
        &IndicatorMetadata {
            name: "md",
            full_name: "Mean Deviation",
            category: IndicatorCategory::Indicator,
            input_names: &["real"],
            option_names: &["period"],
            output_names: &["md"],
        }
    }

    /// Leading samples consumed before the first output, for validated options.
    pub fn lookback(&self, period: usize) -> (r: usize)
        requires
            period >= 1,
        ensures
            r == period - 1,
    {
        period - 1
    }
}

/// Mesa Sine Wave.
#[derive(Debug, Clone, Copy)]
pub struct Msw;

impl Msw {
    /// Static metadata for this indicator.
    pub fn metadata(&self) -> (r: &'static IndicatorMetadata)
        ensures
            r.describes(
                "msw"@,
                "Mesa Sine Wave"@,
                IndicatorCategory::Indicator,
                seq!["real"@],
                seq!["period"@],
                seq!["sine"@, "lead"@],
            ),
    {
        &IndicatorMetadata {
            name: "msw",
            full_name: "Mesa Sine Wave",
            category: IndicatorCategory::Indicator,
            input_names: &["real"],
            option_names: &["period"],
            output_names: &["sine", "lead"],
        }
    }

    /// Leading samples consumed before the first output, for validated options.
    pub fn lookback(&self, period: usize) -> (r: usize)
        ensures
            r == period,
    {
        period
    }
}

/// Qstick.
#[derive(Debug, Clone, Copy)]
pub struct Qstick;

impl Qstick {
    /// Static metadata for this indicator.
    pub fn metadata(&self) -> (r: &'static IndicatorMetadata)
        ensures
            r.describes(
                "qstick"@,
                "Qstick"@,
                IndicatorCategory::Indicator,
                seq!["open"@, "close"@],
                seq!["period"@],
                seq!["qstick"@],
            ),
    {
        &IndicatorMetadata {
            name: "qstick",
            full_name: "Qstick",
            category: IndicatorCategory::Indicator,
            input_names: &["open", "close"],
            option_names: &["period"],
            output_names: &["qstick"],
        }
    }

    /// Leading samples consumed before the first output, for validated options.
    pub fn lookback(&self, period: usize) -> (r: usize)
        requires
            period >= 1,
        ensures
            r == period - 1,
    {
        period - 1
    }
}

} // verus!
