//! Moving Average Convergence/Divergence Extended: metadata and lookback, and the ordering
//! rules between periods.

use vstd::prelude::*;

use crate::types::{IndicatorCategory, IndicatorMetadata};

verus! {

/// Moving Average Convergence/Divergence Extended.
#[derive(Debug, Clone, Copy)]
pub struct MacdExt;

impl MacdExt {
    /// Static metadata for this indicator.
    pub fn metadata(&self) -> (r: &'static IndicatorMetadata)
        ensures
            r.describes(
                "macdext"@,
                "Moving Average Convergence/Divergence Extended"@,
                IndicatorCategory::Indicator,
                seq!["real"@],
                seq!["fast_period"@, "fast_ma_type"@, "slow_period"@, "slow_ma_type"@, "signal_period"@, "signal_ma_type"@],
                seq!["macd"@, "macd_signal"@, "macd_histogram"@],
            ),
    {
        &IndicatorMetadata {
            name: "macdext",
            full_name: "Moving Average Convergence/Divergence Extended",
            category: IndicatorCategory::Indicator,
            input_names: &["real"],
            option_names: &["fast_period", "fast_ma_type", "slow_period", "slow_ma_type", "signal_period", "signal_ma_type"],
            output_names: &["macd", "macd_signal", "macd_histogram"],
        }
    }

    /// Order the fast and slow legs so that the fast period is the shorter
    /// one; a leg keeps its moving-average type when the legs are swapped.
    pub fn order_legs<M>(fast_period: usize, fast_type: M, slow_period: usize, slow_type: M) -> (r: (
        usize,
        M,
        usize,
        M,
    ))
        ensures
            slow_period < fast_period ==> r == (slow_period, slow_type, fast_period, fast_type),
            slow_period >= fast_period ==> r == (fast_period, fast_type, slow_period, slow_type),
    {
        if slow_period < fast_period {
            (slow_period, slow_type, fast_period, fast_type)
        } else {
            (fast_period, fast_type, slow_period, slow_type)
        }
    }

    /// Leading samples consumed when the legs use general moving averages:
    /// the longer of the two leg lookbacks, then the signal lookback.
    pub fn combine_lookbacks(fast_lookback: usize, slow_lookback: usize, signal_lookback: usize) -> (r: usize)
        requires
            fast_lookback + signal_lookback <= usize::MAX,
            slow_lookback + signal_lookback <= usize::MAX,
        ensures
            r == (if fast_lookback >= slow_lookback {
                fast_lookback
            } else {
                slow_lookback
            }) + signal_lookback,
    {
        let longest = if fast_lookback >= slow_lookback {
            fast_lookback
        } else {
            slow_lookback
        };
        longest + signal_lookback
    }
}

} // verus!
