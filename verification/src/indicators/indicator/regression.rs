//! Linear Regression, Linear Regression Intercept, Linear Regression Slope, Linear
//! Regression Angle, Time Series Forecast and Forecast Oscillator: metadata and lookbacks.

use vstd::prelude::*;

use crate::types::{IndicatorCategory, IndicatorMetadata};

verus! {

/// Linear Regression.
#[derive(Debug, Clone, Copy)]
pub struct LinReg;

impl LinReg {
    /// Static metadata for this indicator.
    pub fn metadata(&self) -> (r: &'static IndicatorMetadata)
        ensures
            r.describes(
                "linreg"@,
                "Linear Regression"@,
                IndicatorCategory::Overlay,
                seq!["real"@],
                seq!["period"@],
                seq!["linreg"@],
            ),
    {
        &IndicatorMetadata {
            name: "linreg",
            full_name: "Linear Regression",
            category: IndicatorCategory::Overlay,
            input_names: &["real"],
            option_names: &["period"],
            output_names: &["linreg"],
        }
    }

    /// Leading samples consumed before the first output, for validated options.
    pub fn lookback(&self, period: usize) -> (r: usize)
        requires
            period >= 1,
        ensures
            r == period - 1,
    {
        period - 1
    }
}

/// Linear Regression Intercept.
#[derive(Debug, Clone, Copy)]
pub struct LinRegIntercept;

impl LinRegIntercept {
    /// Static metadata for this indicator.
    pub fn metadata(&self) -> (r: &'static IndicatorMetadata)
        ensures
            r.describes(
                "linregintercept"@,
                "Linear Regression Intercept"@,
                IndicatorCategory::Overlay,
                seq!["real"@],
                seq!["period"@],
                seq!["linregintercept"@],
            ),
    {
        &IndicatorMetadata {
            name: "linregintercept",
            full_name: "Linear Regression Intercept",
            category: IndicatorCategory::Overlay,
            input_names: &["real"],
            option_names: &["period"],
            output_names: &["linregintercept"],
        }
    }

    /// Leading samples consumed before the first output, for validated options.
    pub fn lookback(&self, period: usize) -> (r: usize)
        requires
            period >= 1,
        ensures
            r == period - 1,
    {
        period - 1
    }
}

/// Linear Regression Slope.
#[derive(Debug, Clone, Copy)]
pub struct LinRegSlope;

impl LinRegSlope {
    /// Static metadata for this indicator.
    pub fn metadata(&self) -> (r: &'static IndicatorMetadata)
        ensures
            r.describes(
                "linregslope"@,
                "Linear Regression Slope"@,
                IndicatorCategory::Indicator,
                seq!["real"@],
                seq!["period"@],
                seq!["linregslope"@],
            ),
    {
        &IndicatorMetadata {
            name: "linregslope",
            full_name: "Linear Regression Slope",
            category: IndicatorCategory::Indicator,
            input_names: &["real"],
            option_names: &["period"],
            output_names: &["linregslope"],
        }
    }

    /// Leading samples consumed before the first output, for validated options.
    pub fn lookback(&self, period: usize) -> (r: usize)
        requires
            period >= 1,
        ensures
            r == period - 1,
    {
        period - 1
    }
}

/// Linear Regression Angle.
#[derive(Debug, Clone, Copy)]
pub struct LinRegAngle;

impl LinRegAngle {
    /// Static metadata for this indicator.
    pub fn metadata(&self) -> (r: &'static IndicatorMetadata)
        ensures
            r.describes(
                "linearregangle"@,
                "Linear Regression Angle"@,
                IndicatorCategory::Indicator,
                seq!["real"@],
                seq!["period"@],
                seq!["linearregangle"@],
            ),
    {
        &IndicatorMetadata {
            name: "linearregangle",
            full_name: "Linear Regression Angle",
            category: IndicatorCategory::Indicator,
            input_names: &["real"],
            option_names: &["period"],
            output_names: &["linearregangle"],
        }
    }

    /// Leading samples consumed before the first output, for validated options.
    pub fn lookback(&self, period: usize) -> (r: usize)
        requires
            period >= 1,
        ensures
            r == period - 1,
    {
        period - 1
    }
}

/// Time Series Forecast.
#[derive(Debug, Clone, Copy)]
pub struct Tsf;

impl Tsf {
    /// Static metadata for this indicator.
    pub fn metadata(&self) -> (r: &'static IndicatorMetadata)
        ensures
            r.describes(
                "tsf"@,
                "Time Series Forecast"@,
                IndicatorCategory::Overlay,
                seq!["real"@],
                seq!["period"@],
                seq!["tsf"@],
            ),
    {
        &IndicatorMetadata {
            name: "tsf",
            full_name: "Time Series Forecast",
            category: IndicatorCategory::Overlay,
            input_names: &["real"],
            option_names: &["period"],
            output_names: &["tsf"],
        }
    }

    /// Leading samples consumed before the first output, for validated options.
    pub fn lookback(&self, period: usize) -> (r: usize)
        requires
            period >= 1,
        ensures
            r == period - 1,
    {
        period - 1
    }
}

/// Forecast Oscillator.
#[derive(Debug, Clone, Copy)]
pub struct Fosc;

impl Fosc {
    /// Static metadata for this indicator.
    pub fn metadata(&self) -> (r: &'static IndicatorMetadata)
        ensures
            r.describes(
                "fosc"@,
                "Forecast Oscillator"@,
                IndicatorCategory::Indicator,
                seq!["real"@],
                seq!["period"@],
                seq!["fosc"@],
            ),
    {
        &IndicatorMetadata {
            name: "fosc",
            full_name: "Forecast Oscillator",
            category: IndicatorCategory::Indicator,
            input_names: &["real"],
            option_names: &["period"],
            output_names: &["fosc"],
        }
    }

    /// Leading samples consumed before the first output, for validated options.
    pub fn lookback(&self, period: usize) -> (r: usize)
        ensures
            r == period,
    {
        period
    }
}

} // verus!
