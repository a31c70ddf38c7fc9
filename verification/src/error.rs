//! Error values returned by indicator and state operations.

use vstd::prelude::*;

use crate::text::{decimal_chars, push_decimal};

verus! {

/// Failures reported by the public indicator API.
///
/// An option value that was rejected is carried as the bit pattern of the
/// caller's floating-point option (`InvalidOption::value`), so that the
/// library itself holds only integers.
#[derive(Debug, Clone, PartialEq)]
pub enum IndicatorError {
    /// The caller asked for a registry entry that does not exist.
    UnknownIndicator { name: String },
    /// An option value was outside the indicator's accepted range.
    InvalidOption {
        indicator: &'static str,
        option: &'static str,
        value: u64,
        reason: &'static str,
    },
    /// The caller passed the wrong number of input series.
    WrongInputCount { indicator: &'static str, expected: usize, actual: usize },
    /// The caller passed the wrong number of option values.
    WrongOptionCount { indicator: &'static str, expected: usize, actual: usize },
    /// The caller passed the wrong number of output buffers.
    WrongOutputCount { indicator: &'static str, expected: usize, actual: usize },
    /// A stream-backed indicator does not support the requested batch/stream path.
    MissingStreamSupport { indicator: &'static str },
    /// Input series lengths do not match when a method requires aligned columns.
    InputLengthMismatch {
        indicator: &'static str,
        expected: usize,
        actual: usize,
        input_index: usize,
    },
    /// An output slice is too small to hold the computed values.
    OutputTooSmall {
        indicator: &'static str,
        output_index: usize,
        expected: usize,
        actual: usize,
    },
    /// The implementation returned data that violates an internal API contract.
    InternalInvariant { indicator: &'static str, reason: &'static str },
}

impl IndicatorError {
    /// The human-readable message of this error. `value_text` is how the
    /// caller renders the rejected option value of `InvalidOption`; the other
    /// variants do not use it.
    pub open spec fn message_text(&self, value_text: Seq<char>) -> Seq<char> {
        match self {
            IndicatorError::UnknownIndicator { name } => "unknown indicator `"@ + name@ + "`"@,
            IndicatorError::InvalidOption { indicator, option, value, reason } => indicator@
                + ": invalid option `"@ + option@ + "` with value "@ + value_text + ": "@ + reason@,
            IndicatorError::WrongInputCount { indicator, expected, actual } => indicator@
                + ": expected "@ + decimal_chars(*expected as nat) + " input series, got "@
                + decimal_chars(*actual as nat),
            IndicatorError::WrongOptionCount { indicator, expected, actual } => indicator@
                + ": expected "@ + decimal_chars(*expected as nat) + " options, got "@
                + decimal_chars(*actual as nat),
            IndicatorError::WrongOutputCount { indicator, expected, actual } => indicator@
                + ": expected "@ + decimal_chars(*expected as nat) + " output buffers, got "@
                + decimal_chars(*actual as nat),
            IndicatorError::MissingStreamSupport { indicator } => indicator@
                + ": stream benchmark requested for indicator without stream support"@,
            IndicatorError::InputLengthMismatch { indicator, expected, actual, input_index } =>
                indicator@ + ": input series "@ + decimal_chars(*input_index as nat)
                + " has length "@ + decimal_chars(*actual as nat) + ", expected "@
                + decimal_chars(*expected as nat),
            IndicatorError::OutputTooSmall { indicator, output_index, expected, actual } =>
                indicator@ + ": output buffer "@ + decimal_chars(*output_index as nat)
                + " has length "@ + decimal_chars(*actual as nat) + ", expected at least "@
                + decimal_chars(*expected as nat),
            IndicatorError::InternalInvariant { indicator, reason } => indicator@
                + ": internal invariant violated: "@ + reason@,
        }
    }

    /// Render this error as text; `value_text` stands for the rejected option
    /// value of `InvalidOption`.
    pub fn message(&self, value_text: &str) -> (r: String)
        ensures
            r@ == self.message_text(value_text@),
    {
        let mut out = String::new();
        match self {
            IndicatorError::UnknownIndicator { name } => {
                out.append("unknown indicator `");
                out.append(name.as_str());
                out.append("`");
            },
            IndicatorError::InvalidOption { indicator, option, value: _, reason } => {
                out.append(indicator);
                out.append(": invalid option `");
                out.append(option);
                out.append("` with value ");
                out.append(value_text);
                out.append(": ");
                out.append(reason);
            },
            IndicatorError::WrongInputCount { indicator, expected, actual } => {
                out.append(indicator);
                out.append(": expected ");
                push_decimal(&mut out, *expected);
                out.append(" input series, got ");
                push_decimal(&mut out, *actual);
            },
            IndicatorError::WrongOptionCount { indicator, expected, actual } => {
                out.append(indicator);
                out.append(": expected ");
                push_decimal(&mut out, *expected);
                out.append(" options, got ");
                push_decimal(&mut out, *actual);
            },
            IndicatorError::WrongOutputCount { indicator, expected, actual } => {
                out.append(indicator);
                out.append(": expected ");
                push_decimal(&mut out, *expected);
                out.append(" output buffers, got ");
                push_decimal(&mut out, *actual);
            },
            IndicatorError::MissingStreamSupport { indicator } => {
                out.append(indicator);
                out.append(": stream benchmark requested for indicator without stream support");
            },
            IndicatorError::InputLengthMismatch { indicator, expected, actual, input_index } => {
                out.append(indicator);
                out.append(": input series ");
                push_decimal(&mut out, *input_index);
                out.append(" has length ");
                push_decimal(&mut out, *actual);
                out.append(", expected ");
                push_decimal(&mut out, *expected);
            },
            IndicatorError::OutputTooSmall { indicator, output_index, expected, actual } => {
                out.append(indicator);
                out.append(": output buffer ");
                push_decimal(&mut out, *output_index);
                out.append(" has length ");
                push_decimal(&mut out, *actual);
                out.append(", expected at least ");
                push_decimal(&mut out, *expected);
            },
            IndicatorError::InternalInvariant { indicator, reason } => {
                out.append(indicator);
                out.append(": internal invariant violated: ");
                out.append(reason);
            },
        }
        out
    }
}

} // verus!
