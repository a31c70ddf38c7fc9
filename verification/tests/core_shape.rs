use lib::error::IndicatorError;
use lib::indicator::{
    check_aligned_inputs, ensure_output_len, expect_option_count, output_len_for_input, take_single_output,
    validate_computed_outputs, validate_output_slices, validate_single_output, write_outputs,
};
use lib::indicators::indicator::{Aroon, Macd, Mom};
use lib::types::IndicatorCategory;

#[test]
fn output_len_subtracts_lookback() {
    assert_eq!(output_len_for_input(10, 3), 7);
    assert_eq!(output_len_for_input(3, 3), 0);
    assert_eq!(output_len_for_input(2, 5), 0);
    assert_eq!(output_len_for_input(0, 0), 0);
}

#[test]
fn output_slice_count_is_checked() {
    let metadata = Aroon.metadata();
    let outputs = vec![vec![0.0f64; 3]];
    assert_eq!(validate_output_slices(&metadata, &outputs, 1), Ok(()));
    assert_eq!(
        validate_output_slices(&metadata, &outputs, 2),
        Err(IndicatorError::WrongOutputCount { indicator: "aroon", expected: 2, actual: 1 })
    );
}

#[test]
fn single_output_requires_one_series() {
    assert_eq!(validate_single_output(&Mom.metadata()), Ok(()));
    assert_eq!(
        validate_single_output(&Aroon.metadata()),
        Err(IndicatorError::WrongOutputCount { indicator: "aroon", expected: 1, actual: 2 })
    );
}

#[test]
fn computed_shape_must_match_metadata() {
    let metadata = Macd.metadata();
    let good = vec![vec![1u8], vec![2u8], vec![3u8]];
    assert_eq!(validate_computed_outputs(&metadata, &good), Ok(()));
    let bad = vec![vec![1u8]];
    assert_eq!(
        validate_computed_outputs(&metadata, &bad),
        Err(IndicatorError::InternalInvariant {
            indicator: "macd",
            reason: "indicator returned an unexpected number of output series",
        })
    );
}

#[test]
fn output_buffer_length_is_checked() {
    let metadata = Mom.metadata();
    assert_eq!(ensure_output_len(&metadata, 5, 5, 0), Ok(()));
    assert_eq!(
        ensure_output_len(&metadata, 4, 5, 2),
        Err(IndicatorError::OutputTooSmall { indicator: "mom", output_index: 2, expected: 5, actual: 4 })
    );
}

#[test]
fn option_count_is_checked() {
    assert_eq!(expect_option_count("mom", &[3.0f64], 1), Ok(()));
    assert_eq!(
        expect_option_count("mom", &[3.0f64, 4.0], 1),
        Err(IndicatorError::WrongOptionCount { indicator: "mom", expected: 1, actual: 2 })
    );
}

#[test]
fn single_output_is_taken_out() {
    let metadata = Mom.metadata();
    assert_eq!(take_single_output(&metadata, vec![vec![1.5f64, 2.5]]), Ok(vec![1.5, 2.5]));
    assert_eq!(
        take_single_output(&metadata, vec![vec![1.5f64], vec![2.5]]),
        Err(IndicatorError::InternalInvariant {
            indicator: "mom",
            reason: "indicator returned an unexpected number of output series",
        })
    );
}

#[test]
fn outputs_are_written_into_buffers() {
    let metadata = Aroon.metadata();
    let computed = vec![vec![1.0f64, 2.0], vec![3.0, 4.0]];
    let mut outputs = vec![vec![9.0f64; 3], vec![8.0f64; 2]];
    assert_eq!(write_outputs(&metadata, &computed, &mut outputs), Ok(2));
    assert_eq!(outputs, vec![vec![1.0, 2.0, 9.0], vec![3.0, 4.0]]);
}

#[test]
fn short_buffer_stops_the_copy() {
    let metadata = Aroon.metadata();
    let computed = vec![vec![1.0f64, 2.0], vec![3.0, 4.0]];
    let mut outputs = vec![vec![9.0f64; 2], vec![8.0f64; 1]];
    assert_eq!(
        write_outputs(&metadata, &computed, &mut outputs),
        Err(IndicatorError::OutputTooSmall { indicator: "aroon", output_index: 1, expected: 2, actual: 1 })
    );
    assert_eq!(outputs, vec![vec![1.0, 2.0], vec![8.0]]);
}

#[test]
fn wrong_buffer_count_leaves_buffers_alone() {
    let metadata = Aroon.metadata();
    let computed = vec![vec![1.0f64], vec![3.0]];
    let mut outputs = vec![vec![9.0f64; 2]];
    assert_eq!(
        write_outputs(&metadata, &computed, &mut outputs),
        Err(IndicatorError::WrongOutputCount { indicator: "aroon", expected: 2, actual: 1 })
    );
    assert_eq!(outputs, vec![vec![9.0, 9.0]]);
}

#[test]
fn metadata_carries_names() {
    let m = Macd.metadata();
    assert_eq!(m.name, "macd");
    assert_eq!(m.category, IndicatorCategory::Indicator);
    assert_eq!(m.option_names, &["short_period", "long_period", "signal_period"]);
    assert_eq!(m.output_names.len(), 3);
}


#[test]
fn error_messages_name_the_indicator_and_numbers() {
    let err = IndicatorError::WrongInputCount { indicator: "adx", expected: 3, actual: 12 };
    assert_eq!(err.message(""), "adx: expected 3 input series, got 12");
    let err = IndicatorError::OutputTooSmall { indicator: "mom", output_index: 0, expected: 105, actual: 7 };
    assert_eq!(err.message(""), "mom: output buffer 0 has length 7, expected at least 105");
    let err = IndicatorError::InvalidOption {
        indicator: "sma",
        option: "period",
        value: (-1.5f64).to_bits(),
        reason: "must be positive",
    };
    assert_eq!(err.message("-1.5"), "sma: invalid option `period` with value -1.5: must be positive");
    let err = IndicatorError::UnknownIndicator { name: "nope".to_string() };
    assert_eq!(err.message("ignored"), "unknown indicator `nope`");
    let err = IndicatorError::InternalInvariant { indicator: "kvo", reason: "bad shape" };
    assert_eq!(err.message(""), "kvo: internal invariant violated: bad shape");
    let err = IndicatorError::MissingStreamSupport { indicator: "ht_sine" };
    assert_eq!(
        err.message(""),
        "ht_sine: stream benchmark requested for indicator without stream support"
    );
    let err = IndicatorError::InputLengthMismatch { indicator: "atr", expected: 10, actual: 9, input_index: 2 };
    assert_eq!(err.message(""), "atr: input series 2 has length 9, expected 10");
    let err = IndicatorError::WrongOptionCount { indicator: "macd", expected: 3, actual: 0 };
    assert_eq!(err.message(""), "macd: expected 3 options, got 0");
    let err = IndicatorError::WrongOutputCount { indicator: "aroon", expected: 2, actual: 1 };
    assert_eq!(err.message(""), "aroon: expected 2 output buffers, got 1");
}

#[test]
fn aligned_inputs_are_counted_and_compared() {
    let a = [1.0f64, 2.0, 3.0];
    let b = [4.0f64, 5.0, 6.0];
    let short = [7.0f64];
    assert_eq!(check_aligned_inputs("adx", &[&a[..], &b[..], &a[..]], 3), Ok(3));
    assert_eq!(
        check_aligned_inputs("adx", &[&a[..], &b[..]], 3),
        Err(IndicatorError::WrongInputCount { indicator: "adx", expected: 3, actual: 2 })
    );
    assert_eq!(
        check_aligned_inputs("adx", &[&a[..], &short[..], &b[..], &short[..]], 4),
        Err(IndicatorError::InputLengthMismatch { indicator: "adx", expected: 3, actual: 1, input_index: 1 })
    );
    assert_eq!(check_aligned_inputs("mom", &[&short[..]], 1), Ok(1));
    let none: [&[f64]; 0] = [];
    assert_eq!(check_aligned_inputs("x", &none, 0), Ok(0));
}
