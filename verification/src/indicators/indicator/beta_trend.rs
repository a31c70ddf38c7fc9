//! Coppock Curve, Know Sure Thing, Polarized Fractal Efficiency and Relative Momentum
//! Index: metadata and lookbacks, and the ordering rules between periods.

use vstd::prelude::*;

use crate::error::IndicatorError;
use crate::types::{IndicatorCategory, IndicatorMetadata};

verus! {

/// Coppock Curve.
#[derive(Debug, Clone, Copy)]
pub struct Copp;

impl Copp {
    /// Static metadata for this indicator.
    pub fn metadata(&self) -> (r: &'static IndicatorMetadata)
        ensures
            r.describes(
                "copp"@,
                "Coppock Curve"@,
                IndicatorCategory::Indicator,
                seq!["real"@],
                seq!["short_roc_period"@, "long_roc_period"@, "wma_period"@],
                seq!["copp"@],
            ),
    {
        &IndicatorMetadata {
            name: "copp",
            full_name: "Coppock Curve",
            category: IndicatorCategory::Indicator,
            input_names: &["real"],
            option_names: &["short_roc_period", "long_roc_period", "wma_period"],
            output_names: &["copp"],
        }
    }

    /// Leading samples consumed before the first output, for validated options.
    pub fn lookback(&self, long_roc_period: usize, wma_period: usize) -> (r: usize)
        requires
            long_roc_period + wma_period >= 1,
            long_roc_period + wma_period <= usize::MAX,
        ensures
            r == long_roc_period + wma_period - 1,
    {
        long_roc_period + wma_period - 1
    }

    /// Check that the validated rate-of-change periods are ordered
    /// (`long_roc_period >= short_roc_period`).
    ///
    /// `long_roc_period_value` is the bit pattern of `long_roc_period` as a
    /// real number; it is what the error reports.
    pub fn check_periods(short_roc_period: usize, long_roc_period: usize, long_roc_period_value: u64) -> (r:
        Result<(), IndicatorError>)
        ensures
            long_roc_period >= short_roc_period ==> r is Ok,
            long_roc_period < short_roc_period ==> r == Err::<(), IndicatorError>(
                IndicatorError::InvalidOption {
                    indicator: "copp",
                    option: "long_roc_period",
                    value: long_roc_period_value,
                    reason: "expected long_roc_period >= short_roc_period",
                },
            ),
    {
        if long_roc_period < short_roc_period {
            return Err(
                IndicatorError::InvalidOption {
                    indicator: "copp",
                    option: "long_roc_period",
                    value: long_roc_period_value,
                    reason: "expected long_roc_period >= short_roc_period",
                },
            );
        }
        Ok(())
    }
}

/// Know Sure Thing.
#[derive(Debug, Clone, Copy)]
pub struct Kst;

impl Kst {
    /// Static metadata for this indicator.
    pub fn metadata(&self) -> (r: &'static IndicatorMetadata)
        ensures
            r.describes(
                "kst"@,
                "Know Sure Thing"@,
                IndicatorCategory::Indicator,
                seq!["real"@],
                seq!["roc1_period"@, "roc2_period"@, "roc3_period"@, "roc4_period"@, "ma1_period"@, "ma2_period"@, "ma3_period"@, "ma4_period"@],
                seq!["kst"@, "signal"@],
            ),
    {
        &IndicatorMetadata {
            name: "kst",
            full_name: "Know Sure Thing",
            category: IndicatorCategory::Indicator,
            input_names: &["real"],
            option_names: &["roc1_period", "roc2_period", "roc3_period", "roc4_period", "ma1_period", "ma2_period", "ma3_period", "ma4_period"],
            output_names: &["kst", "signal"],
        }
    }

    /// Leading samples consumed before the first output, for validated options.
    pub fn lookback(&self, roc4_period: usize) -> (r: usize)
        ensures
            r == roc4_period,
    {
        roc4_period
    }

    /// Check that the validated rate-of-change periods strictly increase.
    ///
    /// `roc4_period_value` is the bit pattern of `roc4_period` as a real
    /// number; it is what the error reports.
    pub fn check_periods(
        roc1_period: usize,
        roc2_period: usize,
        roc3_period: usize,
        roc4_period: usize,
        roc4_period_value: u64,
    ) -> (r: Result<(), IndicatorError>)
        ensures
            roc1_period < roc2_period < roc3_period < roc4_period ==> r is Ok,
            !(roc1_period < roc2_period < roc3_period < roc4_period) ==> r == Err::<(), IndicatorError>(
                IndicatorError::InvalidOption {
                    indicator: "kst",
                    option: "roc_periods",
                    value: roc4_period_value,
                    reason: "expected roc1 < roc2 < roc3 < roc4",
                },
            ),
    {
        if !(roc1_period < roc2_period && roc2_period < roc3_period && roc3_period < roc4_period) {
            return Err(
                IndicatorError::InvalidOption {
                    indicator: "kst",
                    option: "roc_periods",
                    value: roc4_period_value,
                    reason: "expected roc1 < roc2 < roc3 < roc4",
                },
            );
        }
        Ok(())
    }
}

/// Polarized Fractal Efficiency.
#[derive(Debug, Clone, Copy)]
pub struct Pfe;

impl Pfe {
    /// Static metadata for this indicator.
    pub fn metadata(&self) -> (r: &'static IndicatorMetadata)
        ensures
            r.describes(
                "pfe"@,
                "Polarized Fractal Efficiency"@,
                IndicatorCategory::Indicator,
                seq!["real"@],
                seq!["period"@, "ema_period"@],
                seq!["pfe"@],
            ),
    {
        &IndicatorMetadata {
            name: "pfe",
            full_name: "Polarized Fractal Efficiency",
            category: IndicatorCategory::Indicator,
            input_names: &["real"],
            option_names: &["period", "ema_period"],
            output_names: &["pfe"],
        }
    }

    /// Leading samples consumed before the first output, for validated options.
    pub fn lookback(&self, period: usize) -> (r: usize)
        ensures
            r == period,
    {
        period
    }
}

/// Relative Momentum Index.
#[derive(Debug, Clone, Copy)]
pub struct Rmi;

impl Rmi {
    /// Static metadata for this indicator.
    pub fn metadata(&self) -> (r: &'static IndicatorMetadata)
        ensures
            r.describes(
                "rmi"@,
                "Relative Momentum Index"@,
                IndicatorCategory::Indicator,
                seq!["real"@],
                seq!["period"@, "lookback_period"@],
                seq!["rmi"@],
            ),
    {
        &IndicatorMetadata {
            name: "rmi",
            full_name: "Relative Momentum Index",
            category: IndicatorCategory::Indicator,
            input_names: &["real"],
            option_names: &["period", "lookback_period"],
            output_names: &["rmi"],
        }
    }

    /// Leading samples consumed before the first output, for validated options.
    pub fn lookback(&self, lookback_period: usize) -> (r: usize)
        ensures
            r == lookback_period,
    {
        lookback_period
    }
}

} // verus!
