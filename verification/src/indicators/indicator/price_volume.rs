//! Accumulation/Distribution, Accumulation/Distribution Oscillator, Balance of Power,
//! Market Facilitation Index, Negative Volume Index, On Balance Volume, Positive Volume
//! Index, True Range, Volume Oscillator and Williams Accumulation/Distribution: metadata
//! and lookbacks, and the ordering rules between periods.

use vstd::prelude::*;

use crate::error::IndicatorError;
use crate::types::{IndicatorCategory, IndicatorMetadata};

verus! {

/// Accumulation/Distribution.
#[derive(Debug, Clone, Copy)]
pub struct Ad;

impl Ad {
    /// Static metadata for this indicator.
    pub fn metadata(&self) -> (r: &'static IndicatorMetadata)
        ensures
            r.describes(
                "ad"@,
                "Accumulation/Distribution"@,
                IndicatorCategory::Indicator,
                seq!["high"@, "low"@, "close"@, "volume"@],
                seq![],
                seq!["ad"@],
            ),
    {
        &IndicatorMetadata {
            name: "ad",
            full_name: "Accumulation/Distribution",
            category: IndicatorCategory::Indicator,
            input_names: &["high", "low", "close", "volume"],
            option_names: &[],
            output_names: &["ad"],
        }
    }

    /// Leading samples consumed before the first output.
    pub fn lookback(&self) -> (r: usize)
        ensures
            r == 0,
    {
        0
    }
}

/// Accumulation/Distribution Oscillator.
#[derive(Debug, Clone, Copy)]
pub struct AdOsc;

impl AdOsc {
    /// Static metadata for this indicator.
    pub fn metadata(&self) -> (r: &'static IndicatorMetadata)
        ensures
            r.describes(
                "adosc"@,
                "Accumulation/Distribution Oscillator"@,
                IndicatorCategory::Indicator,
                seq!["high"@, "low"@, "close"@, "volume"@],
                seq!["short_period"@, "long_period"@],
                seq!["adosc"@],
            ),
    {
        &IndicatorMetadata {
            name: "adosc",
            full_name: "Accumulation/Distribution Oscillator",
            category: IndicatorCategory::Indicator,
            input_names: &["high", "low", "close", "volume"],
            option_names: &["short_period", "long_period"],
            output_names: &["adosc"],
        }
    }

    /// Leading samples consumed before the first output, for validated options.
    pub fn lookback(&self, long_period: usize) -> (r: usize)
        requires
            long_period >= 1,
        ensures
            r == long_period - 1,
    {
        long_period - 1
    }
}

/// Balance of Power.
#[derive(Debug, Clone, Copy)]
pub struct Bop;

impl Bop {
    /// Static metadata for this indicator.
    pub fn metadata(&self) -> (r: &'static IndicatorMetadata)
        ensures
            r.describes(
                "bop"@,
                "Balance of Power"@,
                IndicatorCategory::Indicator,
                seq!["open"@, "high"@, "low"@, "close"@],
                seq![],
                seq!["bop"@],
            ),
    {
        &IndicatorMetadata {
            name: "bop",
            full_name: "Balance of Power",
            category: IndicatorCategory::Indicator,
            input_names: &["open", "high", "low", "close"],
            option_names: &[],
            output_names: &["bop"],
        }
    }

    /// Leading samples consumed before the first output.
    pub fn lookback(&self) -> (r: usize)
        ensures
            r == 0,
    {
        0
    }
}

/// Market Facilitation Index.
#[derive(Debug, Clone, Copy)]
pub struct MarketFi;

impl MarketFi {
    /// Static metadata for this indicator.
    pub fn metadata(&self) -> (r: &'static IndicatorMetadata)
        ensures
            r.describes(
                "marketfi"@,
                "Market Facilitation Index"@,
                IndicatorCategory::Indicator,
                seq!["high"@, "low"@, "volume"@],
                seq![],
                seq!["marketfi"@],
            ),
    {
        &IndicatorMetadata {
            name: "marketfi",
            full_name: "Market Facilitation Index",
            category: IndicatorCategory::Indicator,
            input_names: &["high", "low", "volume"],
            option_names: &[],
            output_names: &["marketfi"],
        }
    }

    /// Leading samples consumed before the first output.
    pub fn lookback(&self) -> (r: usize)
        ensures
            r == 0,
    {
        0
    }
}

/// Negative Volume Index.
#[derive(Debug, Clone, Copy)]
pub struct Nvi;

impl Nvi {
    /// Static metadata for this indicator.
    pub fn metadata(&self) -> (r: &'static IndicatorMetadata)
        ensures
            r.describes(
                "nvi"@,
                "Negative Volume Index"@,
                IndicatorCategory::Indicator,
                seq!["close"@, "volume"@],
                seq![],
                seq!["nvi"@],
            ),
    {
        &IndicatorMetadata {
            name: "nvi",
            full_name: "Negative Volume Index",
            category: IndicatorCategory::Indicator,
            input_names: &["close", "volume"],
            option_names: &[],
            output_names: &["nvi"],
        }
    }

    /// Leading samples consumed before the first output.
    pub fn lookback(&self) -> (r: usize)
        ensures
            r == 0,
    {
        0
    }
}

/// On Balance Volume.
#[derive(Debug, Clone, Copy)]
pub struct Obv;

impl Obv {
    /// Static metadata for this indicator.
    pub fn metadata(&self) -> (r: &'static IndicatorMetadata)
        ensures
            r.describes(
                "obv"@,
                "On Balance Volume"@,
                IndicatorCategory::Indicator,
                seq!["close"@, "volume"@],
                seq![],
                seq!["obv"@],
            ),
    {
        &IndicatorMetadata {
            name: "obv",
            full_name: "On Balance Volume",
            category: IndicatorCategory::Indicator,
            input_names: &["close", "volume"],
            option_names: &[],
            output_names: &["obv"],
        }
    }

    /// Leading samples consumed before the first output.
    pub fn lookback(&self) -> (r: usize)
        ensures
            r == 0,
    {
        0
    }
}

/// Positive Volume Index.
#[derive(Debug, Clone, Copy)]
pub struct Pvi;

impl Pvi {
    /// Static metadata for this indicator.
    pub fn metadata(&self) -> (r: &'static IndicatorMetadata)
        ensures
            r.describes(
                "pvi"@,
                "Positive Volume Index"@,
                IndicatorCategory::Indicator,
                seq!["close"@, "volume"@],
                seq![],
                seq!["pvi"@],
            ),
    {
        &IndicatorMetadata {
            name: "pvi",
            full_name: "Positive Volume Index",
            category: IndicatorCategory::Indicator,
            input_names: &["close", "volume"],
            option_names: &[],
            output_names: &["pvi"],
        }
    }

    /// Leading samples consumed before the first output.
    pub fn lookback(&self) -> (r: usize)
        ensures
            r == 0,
    {
        0
    }
}

/// True Range.
#[derive(Debug, Clone, Copy)]
pub struct Tr;

impl Tr {
    /// Static metadata for this indicator.
    pub fn metadata(&self) -> (r: &'static IndicatorMetadata)
        ensures
            r.describes(
                "tr"@,
                "True Range"@,
                IndicatorCategory::Indicator,
                seq!["high"@, "low"@, "close"@],
                seq![],
                seq!["tr"@],
            ),
    {
        &IndicatorMetadata {
            name: "tr",
            full_name: "True Range",
            category: IndicatorCategory::Indicator,
            input_names: &["high", "low", "close"],
            option_names: &[],
            output_names: &["tr"],
        }
    }

    /// Leading samples consumed before the first output.
    pub fn lookback(&self) -> (r: usize)
        ensures
            r == 0,
    {
        0
    }
}

/// Volume Oscillator.
#[derive(Debug, Clone, Copy)]
pub struct Vosc;

impl Vosc {
    /// Static metadata for this indicator.
    pub fn metadata(&self) -> (r: &'static IndicatorMetadata)
        ensures
            r.describes(
                "vosc"@,
                "Volume Oscillator"@,
                IndicatorCategory::Indicator,
                seq!["volume"@],
                seq!["short_period"@, "long_period"@],
                seq!["vosc"@],
            ),
    {
        &IndicatorMetadata {
            name: "vosc",
            full_name: "Volume Oscillator",
            category: IndicatorCategory::Indicator,
            input_names: &["volume"],
            option_names: &["short_period", "long_period"],
            output_names: &["vosc"],
        }
    }

    /// Leading samples consumed before the first output, for validated options.
    pub fn lookback(&self, long_period: usize) -> (r: usize)
        requires
            long_period >= 1,
        ensures
            r == long_period - 1,
    {
        long_period - 1
    }
}

/// Williams Accumulation/Distribution.
#[derive(Debug, Clone, Copy)]
pub struct Wad;

impl Wad {
    /// Static metadata for this indicator.
    pub fn metadata(&self) -> (r: &'static IndicatorMetadata)
        ensures
            r.describes(
                "wad"@,
                "Williams Accumulation/Distribution"@,
                IndicatorCategory::Indicator,
                seq!["high"@, "low"@, "close"@],
                seq![],
                seq!["wad"@],
            ),
    {
        &IndicatorMetadata {
            name: "wad",
            full_name: "Williams Accumulation/Distribution",
            category: IndicatorCategory::Indicator,
            input_names: &["high", "low", "close"],
            option_names: &[],
            output_names: &["wad"],
        }
    }

    /// Leading samples consumed before the first output.
    pub fn lookback(&self) -> (r: usize)
        ensures
            r == 1,
    {
        1
    }
}

/// Check that the validated periods of a short/long volume oscillator are
/// ordered (`long_period >= short_period`).
///
/// `long_period_value` is the bit pattern of the caller's `long_period`
/// option; it is what the error reports.
pub fn check_short_long(
    indicator: &'static str,
    short_period: usize,
    long_period: usize,
    long_period_value: u64,
) -> (r: Result<(), IndicatorError>)
    ensures
        long_period >= short_period ==> r is Ok,
        long_period < short_period ==> r == Err::<(), IndicatorError>(
            IndicatorError::InvalidOption {
                indicator,
                option: "long_period",
                value: long_period_value,
                reason: "expected long_period >= short_period",
            },
        ),
{
    if long_period < short_period {
        return Err(
            IndicatorError::InvalidOption {
                indicator,
                option: "long_period",
                value: long_period_value,
                reason: "expected long_period >= short_period",
            },
        );
    }
    Ok(())
}

} // verus!
