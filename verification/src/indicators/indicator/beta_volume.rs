//! Chaikin Money Flow and Force Index: metadata and lookbacks.

use vstd::prelude::*;

use crate::types::{IndicatorCategory, IndicatorMetadata};

verus! {

/// Chaikin Money Flow.
#[derive(Debug, Clone, Copy)]
pub struct Cmf;

impl Cmf {
    /// Static metadata for this indicator.
    pub fn metadata(&self) -> (r: &'static IndicatorMetadata)
        ensures
            r.describes(
                "cmf"@,
                "Chaikin Money Flow"@,
                IndicatorCategory::Indicator,
                seq!["high"@, "low"@, "close"@, "volume"@],
                seq!["period"@],
                seq!["cmf"@],
            ),
    {
        &IndicatorMetadata {
            name: "cmf",
            full_name: "Chaikin Money Flow",
            category: IndicatorCategory::Indicator,
            input_names: &["high", "low", "close", "volume"],
            option_names: &["period"],
            output_names: &["cmf"],
        }
    }

    /// Leading samples consumed before the first output, for validated options.
    pub fn lookback(&self, period: usize) -> (r: usize)
        requires
            period >= 1,
        ensures
            r == period - 1,
    {
        period - 1
    }
}

/// Force Index.
#[derive(Debug, Clone, Copy)]
pub struct Fi;

impl Fi {
    /// Static metadata for this indicator.
    pub fn metadata(&self) -> (r: &'static IndicatorMetadata)
        ensures
            r.describes(
                "fi"@,
                "Force Index"@,
                IndicatorCategory::Indicator,
                seq!["close"@, "volume"@],
                seq!["period"@],
                seq!["fi"@],
            ),
    {
        &IndicatorMetadata {
            name: "fi",
            full_name: "Force Index",
            category: IndicatorCategory::Indicator,
            input_names: &["close", "volume"],
            option_names: &["period"],
            output_names: &["fi"],
        }
    }

    /// Leading samples consumed before the first output.
    pub fn lookback(&self) -> (r: usize)
        ensures
            r == 1,
    {
        1
    }
}

} // verus!
