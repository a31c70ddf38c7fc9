use lib::benchmark::{batch_plan, check_warmup, find_named, BatchPlan, BenchmarkConfig, BenchmarkMode, choose_iterations, default_period, join_sizes, median_duration, parse_csv_usize, stream_chunks};
use lib::error::IndicatorError;

fn config() -> BenchmarkConfig {
    BenchmarkConfig::with_output_dir(String::from("/tmp/bench"))
}

#[test]
fn mode_labels() {
    assert_eq!(BenchmarkMode::Batch.as_str(), "batch");
    assert_eq!(BenchmarkMode::Stream.as_str(), "stream");
}

#[test]
fn default_config() {
    let c = config();
    assert_eq!(c.sizes, vec![256, 4096, 65_536, 262_144]);
    assert_eq!(c.stream_chunk_size, 1024);
    assert_eq!(c.min_iterations, 16);
    assert_eq!(c.target_duration_ms, 1000);
    assert_eq!(c.repeats, 3);
    assert_eq!(c.output_dir, "/tmp/bench");
}

#[test]
fn env_settings_apply_when_positive() {
    let mut c = config();
    c.apply_env(Some("10, 20,,x,0, 30 "), Some("64"), Some("0"), Some("+250"), Some("-2"));
    assert_eq!(c.sizes, vec![10, 20, 30]);
    assert_eq!(c.stream_chunk_size, 64);
    assert_eq!(c.min_iterations, 16);
    assert_eq!(c.target_duration_ms, 250);
    assert_eq!(c.repeats, 3);

    let mut d = config();
    d.apply_env(Some("zero"), Some(" 64"), None, Some(""), Some("7"));
    assert_eq!(d.sizes, vec![256, 4096, 65_536, 262_144]);
    assert_eq!(d.stream_chunk_size, 1024);
    assert_eq!(d.target_duration_ms, 1000);
    assert_eq!(d.repeats, 7);
}

#[test]
fn iteration_budget() {
    let c = config();
    assert_eq!(choose_iterations(1000, &c), 1000);
    assert_eq!(choose_iterations(0, &c), 1_000_000);
    assert_eq!(choose_iterations(1_000_000, &c), 16);
    let mut d = config();
    d.target_duration_ms = 250;
    assert_eq!(choose_iterations(1000, &d), 250);
}

#[test]
fn median_is_middle_of_sorted() {
    assert_eq!(median_duration(vec![5]), 5);
    assert_eq!(median_duration(vec![9, 1, 5]), 5);
    assert_eq!(median_duration(vec![4, 1, 3, 2]), 3);
    assert_eq!(median_duration(vec![7, 7, 1, 7]), 7);
}

#[test]
fn csv_sizes_parse() {
    assert_eq!(parse_csv_usize("256,4096"), vec![256, 4096]);
    assert_eq!(parse_csv_usize(""), Vec::<usize>::new());
    assert_eq!(parse_csv_usize(" 1 ,\t2\n, 3"), vec![1, 2, 3]);
    assert_eq!(parse_csv_usize("0,-1,+5,5a"), vec![5]);
    assert_eq!(parse_csv_usize("99999999999999999999999,7"), vec![7]);
    assert_eq!(parse_csv_usize("\u{3000}8\u{a0}"), vec![8]);
}

#[test]
fn sizes_join_and_round_trip() {
    assert_eq!(join_sizes(&[256, 4096, 65_536]), "256,4096,65536");
    assert_eq!(join_sizes(&[]), "");
    assert_eq!(join_sizes(&[0, 10]), "0,10");
    let sizes = vec![1usize, 22, 333, usize::MAX];
    assert_eq!(parse_csv_usize(&join_sizes(&sizes)), sizes);
}

#[test]
fn default_period_is_clamped() {
    assert_eq!(default_period(0), 5);
    assert_eq!(default_period(256), 8);
    assert_eq!(default_period(4096), 30);
    assert_eq!(default_period(32 * 12), 12);
}

#[test]
fn stream_chunks_tile_the_input() {
    assert_eq!(stream_chunks(0, 4), vec![]);
    assert_eq!(stream_chunks(10, 4), vec![(0, 4), (4, 8), (8, 10)]);
    assert_eq!(stream_chunks(8, 4), vec![(0, 4), (4, 8)]);
    assert_eq!(stream_chunks(3, 10), vec![(0, 3)]);
}

#[test]
fn batch_plans_follow_lookback_and_budget() {
    let c = config();
    let plan = batch_plan(4096, 13, 3, &c);
    assert_eq!(plan, BatchPlan { output_len: 4083, total_outputs: 12249, iterations: choose_iterations(4096, &c) });
    let short = batch_plan(10, 13, 2, &c);
    assert_eq!(short.output_len, 0);
    assert_eq!(short.total_outputs, 0);
}

#[test]
fn warmup_must_fill_the_plan() {
    let plan = batch_plan(100, 9, 1, &config());
    assert_eq!(check_warmup("rsi", 91, &plan), Ok(()));
    assert_eq!(
        check_warmup("rsi", 90, &plan),
        Err(IndicatorError::InternalInvariant {
            indicator: "rsi",
            reason: "batch benchmark warmup produced an unexpected output length",
        })
    );
}

#[test]
fn named_indicators_are_found_by_first_position() {
    let known = ["rsi", "sma", "ema", "sma"];
    let names = vec!["sma".to_string(), "rsi".to_string(), "sma".to_string()];
    assert_eq!(find_named(&names, &known), Ok(vec![1, 0, 1]));
    assert_eq!(find_named(&Vec::new(), &known), Ok(vec![]));
    let bad = vec!["rsi".to_string(), "nope".to_string()];
    assert_eq!(
        find_named(&bad, &known),
        Err(IndicatorError::InvalidOption {
            indicator: "benchmark",
            option: "indicator",
            value: 0,
            reason: "unknown indicator name in benchmark filter",
        })
    );
}
