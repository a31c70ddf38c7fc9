//! Hilbert Transform - Dominant Cycle Period, Hilbert Transform - Phasor Components,
//! Hilbert Transform - Dominant Cycle Phase, Hilbert Transform - SineWave, Hilbert
//! Transform - Instantaneous Trendline and Hilbert Transform - Trend vs Cycle Mode:
//! metadata and lookbacks.

use vstd::prelude::*;

use crate::types::{IndicatorCategory, IndicatorMetadata};

verus! {

/// Hilbert Transform - Dominant Cycle Period.
#[derive(Debug, Clone, Copy)]
pub struct HtDcPeriod;

impl HtDcPeriod {
    /// Static metadata for this indicator.
    pub fn metadata(&self) -> (r: &'static IndicatorMetadata)
        ensures
            r.describes(
                "ht_dcperiod"@,
                "Hilbert Transform - Dominant Cycle Period"@,
                IndicatorCategory::Indicator,
                seq!["real"@],
                seq![],
                seq!["ht_dcperiod"@],
            ),
    {
        &IndicatorMetadata {
            name: "ht_dcperiod",
            full_name: "Hilbert Transform - Dominant Cycle Period",
            category: IndicatorCategory::Indicator,
            input_names: &["real"],
            option_names: &[],
            output_names: &["ht_dcperiod"],
        }
    }

    /// Leading samples consumed before the first output.
    pub fn lookback(&self) -> (r: usize)
        ensures
            r == 32,
    {
        32
    }
}

/// Hilbert Transform - Phasor Components.
#[derive(Debug, Clone, Copy)]
pub struct HtPhasor;

impl HtPhasor {
    /// Static metadata for this indicator.
    pub fn metadata(&self) -> (r: &'static IndicatorMetadata)
        ensures
            r.describes(
                "ht_phasor"@,
                "Hilbert Transform - Phasor Components"@,
                IndicatorCategory::Indicator,
                seq!["real"@],
                seq![],
                seq!["inphase"@, "quadrature"@],
            ),
    {
        &IndicatorMetadata {
            name: "ht_phasor",
            full_name: "Hilbert Transform - Phasor Components",
            category: IndicatorCategory::Indicator,
            input_names: &["real"],
            option_names: &[],
            output_names: &["inphase", "quadrature"],
        }
    }

    /// Leading samples consumed before the first output.
    pub fn lookback(&self) -> (r: usize)
        ensures
            r == 32,
    {
        32
    }
}

/// Hilbert Transform - Dominant Cycle Phase.
#[derive(Debug, Clone, Copy)]
pub struct HtDcPhase;

impl HtDcPhase {
    /// Static metadata for this indicator.
    pub fn metadata(&self) -> (r: &'static IndicatorMetadata)
        ensures
            r.describes(
                "ht_dcphase"@,
                "Hilbert Transform - Dominant Cycle Phase"@,
                IndicatorCategory::Indicator,
                seq!["real"@],
                seq![],
                seq!["ht_dcphase"@],
            ),
    {
        &IndicatorMetadata {
            name: "ht_dcphase",
            full_name: "Hilbert Transform - Dominant Cycle Phase",
            category: IndicatorCategory::Indicator,
            input_names: &["real"],
            option_names: &[],
            output_names: &["ht_dcphase"],
        }
    }

    /// Leading samples consumed before the first output.
    pub fn lookback(&self) -> (r: usize)
        ensures
            r == 63,
    {
        63
    }
}

/// Hilbert Transform - SineWave.
#[derive(Debug, Clone, Copy)]
pub struct HtSine;

impl HtSine {
    /// Static metadata for this indicator.
    pub fn metadata(&self) -> (r: &'static IndicatorMetadata)
        ensures
            r.describes(
                "ht_sine"@,
                "Hilbert Transform - SineWave"@,
                IndicatorCategory::Indicator,
                seq!["real"@],
                seq![],
                seq!["sine"@, "lead_sine"@],
            ),
    {
        &IndicatorMetadata {
            name: "ht_sine",
            full_name: "Hilbert Transform - SineWave",
            category: IndicatorCategory::Indicator,
            input_names: &["real"],
            option_names: &[],
            output_names: &["sine", "lead_sine"],
        }
    }

    /// Leading samples consumed before the first output.
    pub fn lookback(&self) -> (r: usize)
        ensures
            r == 63,
    {
        63
    }
}

/// Hilbert Transform - Instantaneous Trendline.
#[derive(Debug, Clone, Copy)]
pub struct HtTrendline;

impl HtTrendline {
    /// Static metadata for this indicator.
    pub fn metadata(&self) -> (r: &'static IndicatorMetadata)
        ensures
            r.describes(
                "ht_trendline"@,
                "Hilbert Transform - Instantaneous Trendline"@,
                IndicatorCategory::Indicator,
                seq!["real"@],
                seq![],
                seq!["ht_trendline"@],
            ),
    {
        &IndicatorMetadata {
            name: "ht_trendline",
            full_name: "Hilbert Transform - Instantaneous Trendline",
            category: IndicatorCategory::Indicator,
            input_names: &["real"],
            option_names: &[],
            output_names: &["ht_trendline"],
        }
    }

    /// Leading samples consumed before the first output.
    pub fn lookback(&self) -> (r: usize)
        ensures
            r == 63,
    {
        63
    }
}

/// Hilbert Transform - Trend vs Cycle Mode.
#[derive(Debug, Clone, Copy)]
pub struct HtTrendMode;

impl HtTrendMode {
    /// Static metadata for this indicator.
    pub fn metadata(&self) -> (r: &'static IndicatorMetadata)
        ensures
            r.describes(
                "ht_trendmode"@,
                "Hilbert Transform - Trend vs Cycle Mode"@,
                IndicatorCategory::Indicator,
                seq!["real"@],
                seq![],
                seq!["ht_trendmode"@],
            ),
    {
        &IndicatorMetadata {
            name: "ht_trendmode",
            full_name: "Hilbert Transform - Trend vs Cycle Mode",
            category: IndicatorCategory::Indicator,
            input_names: &["real"],
            option_names: &[],
            output_names: &["ht_trendmode"],
        }
    }

    /// Leading samples consumed before the first output.
    pub fn lookback(&self) -> (r: usize)
        ensures
            r == 63,
    {
        63
    }
}

} // verus!
