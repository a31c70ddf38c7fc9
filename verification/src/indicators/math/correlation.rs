//! Beta and Pearson Correlation Coefficient: metadata and lookbacks.

use vstd::prelude::*;

use crate::types::{IndicatorCategory, IndicatorMetadata};

verus! {

/// Beta.
#[derive(Debug, Clone, Copy)]
pub struct Beta;

impl Beta {
    /// Static metadata for this indicator.
    pub fn metadata(&self) -> (r: &'static IndicatorMetadata)
        ensures
            r.describes(
                "beta"@,
                "Beta"@,
                IndicatorCategory::Math,
                seq!["real"@, "real"@],
                seq!["period"@],
                seq!["beta"@],
            ),
    {
        &IndicatorMetadata {
            name: "beta",
            full_name: "Beta",
            category: IndicatorCategory::Math,
            input_names: &["real", "real"],
            option_names: &["period"],
            output_names: &["beta"],
        }
    }

    /// Leading samples consumed before the first output, for validated options.
    pub fn lookback(&self, period: usize) -> (r: usize)
        ensures
            r == period,
    {
        period
    }
}

/// Pearson Correlation Coefficient.
#[derive(Debug, Clone, Copy)]
pub struct Correl;

impl Correl {
    /// Static metadata for this indicator.
    pub fn metadata(&self) -> (r: &'static IndicatorMetadata)
        ensures
            r.describes(
                "correl"@,
                "Pearson Correlation Coefficient"@,
                IndicatorCategory::Math,
                seq!["real"@, "real"@],
                seq!["period"@],
                seq!["correl"@],
            ),
    {
        &IndicatorMetadata {
            name: "correl",
            full_name: "Pearson Correlation Coefficient",
            category: IndicatorCategory::Math,
            input_names: &["real", "real"],
            option_names: &["period"],
            output_names: &["correl"],
        }
    }

    /// Leading samples consumed before the first output, for validated options.
    pub fn lookback(&self, period: usize) -> (r: usize)
        requires
            period >= 1,
        ensures
            r == period - 1,
    {
        period - 1
    }
}

} // verus!
