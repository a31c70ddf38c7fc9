//! Crossany and Crossover: metadata and lookbacks.

use vstd::prelude::*;

use crate::types::{IndicatorCategory, IndicatorMetadata};

verus! {

/// Crossany.
#[derive(Debug, Clone, Copy)]
pub struct CrossAny;

impl CrossAny {
    /// Static metadata for this indicator.
    pub fn metadata(&self) -> (r: &'static IndicatorMetadata)
        ensures
            r.describes(
                "crossany"@,
                "Crossany"@,
                IndicatorCategory::Math,
                seq!["real"@, "real"@],
                seq![],
                seq!["crossany"@],
            ),
    {
        &IndicatorMetadata {
            name: "crossany",
            full_name: "Crossany",
            category: IndicatorCategory::Math,
            input_names: &["real", "real"],
            option_names: &[],
            output_names: &["crossany"],
        }
    }

    /// Leading samples consumed before the first output.
    pub fn lookback(&self) -> (r: usize)
        ensures
            r == 1,
    {
        1
    }
}

/// Crossover.
#[derive(Debug, Clone, Copy)]
pub struct Crossover;

impl Crossover {
    /// Static metadata for this indicator.
    pub fn metadata(&self) -> (r: &'static IndicatorMetadata)
        ensures
            r.describes(
                "crossover"@,
                "Crossover"@,
                IndicatorCategory::Math,
                seq!["real"@, "real"@],
                seq![],
                seq!["crossover"@],
            ),
    {
        &IndicatorMetadata {
            name: "crossover",
            full_name: "Crossover",
            category: IndicatorCategory::Math,
            input_names: &["real", "real"],
            option_names: &[],
            output_names: &["crossover"],
        }
    }

    /// Leading samples consumed before the first output.
    pub fn lookback(&self) -> (r: usize)
        ensures
            r == 1,
    {
        1
    }
}

} // verus!
