use lib::candles::{CandleHit, CandleResult, CandleSignals, TC_ALL, TC_BIG_BLACK_CANDLE, TC_BLACK_MARUBOZU, TC_DOJI, TC_FOUR_PRICE_DOJI, TC_HAMMER, TC_MARUBOZU, TC_NONE, TC_STAR, TC_THREE_WHITE_SOLDIERS, TC_WHITE_MARUBOZU, all_candles, candle_count, check_candle_inputs, detect_patterns, find_candle, get_candle_info, resolve_candle_name, rule_matches, scan_candles};
use lib::error::IndicatorError;

fn quiet() -> CandleSignals {
    CandleSignals {
        black: false,
        white: false,
        body_none: false,
        body_short: false,
        body_long: false,
        wick_upper_none: false,
        wick_upper_long: false,
        wick_upper_longer_than_body: false,
        wick_lower_none: false,
        wick_lower_long: false,
        wick_lower_longer_than_body: false,
        gap_up: false,
        gap_down: false,
        star_up: false,
        star_down: false,
        prev_white: false,
        prev_black: false,
        prev_body_none: false,
        prev_body_short: false,
        prev_gap_up: false,
        prev_gap_down: false,
        prev_open_inside: false,
        open_inside: false,
        close_below_prev_open: false,
        open_above_prev_close: false,
        close_above_prev_open: false,
        open_below_prev_close: false,
        near_prev_low: false,
        near_prev_high: false,
        prev2_white: false,
        prev2_black: false,
        prev2_body_long: false,
        prev_low_above_prev2_high: false,
        prev_high_below_prev2_low: false,
        close_at_or_below_prev2: false,
        close_at_or_above_prev2: false,
    }
}

#[test]
fn registry_is_complete_and_ordered() {
    let all = all_candles();
    assert_eq!(all.len(), 26);
    assert_eq!(candle_count(), 26);
    for (k, info) in all.iter().enumerate() {
        assert_eq!(info.pattern, 1u64 << k);
        if k > 0 {
            assert!(all[k - 1].name < info.name);
        }
    }
    assert_eq!(TC_ALL, (1u64 << 26) - 1);
    assert_eq!(TC_DOJI, 1 << 5);
    assert_eq!(TC_WHITE_MARUBOZU, 1 << 25);
    assert_eq!(all[13].name, "hammer");
    assert_eq!(all[13].full_name, "Hammer");
}

#[test]
fn find_candle_by_name() {
    let info = find_candle("doji").unwrap();
    assert_eq!(info.pattern, TC_DOJI);
    assert_eq!(info.full_name, "Doji");
    assert_eq!(find_candle("three_white_soldiers").unwrap().pattern, TC_THREE_WHITE_SOLDIERS);
    assert!(find_candle("Doji").is_none());
    assert!(find_candle("").is_none());
    assert!(find_candle("doji ").is_none());
    for info in all_candles() {
        assert_eq!(find_candle(info.name), Some(info));
    }
}

#[test]
fn get_candle_info_uses_lowest_bit() {
    assert_eq!(get_candle_info(TC_HAMMER).unwrap().name, "hammer");
    assert_eq!(get_candle_info(TC_HAMMER | TC_STAR).unwrap().name, "hammer");
    assert_eq!(get_candle_info(TC_ALL).unwrap().name, "abandoned_baby_bear");
    assert!(get_candle_info(TC_NONE).is_none());
    assert!(get_candle_info(1u64 << 26).is_none());
    assert!(get_candle_info(1u64 << 63).is_none());
    assert_eq!(get_candle_info((1u64 << 40) | TC_STAR).unwrap().name, "star");
    for info in all_candles() {
        assert_eq!(get_candle_info(info.pattern), Some(info));
    }
}

#[test]
fn result_merges_hits_at_one_index() {
    let mut result = CandleResult::new();
    assert_eq!(result.count(), 0);
    result.add(3, TC_DOJI);
    result.add(3, TC_STAR);
    result.add(7, TC_HAMMER);
    assert_eq!(result.count(), 2);
    assert_eq!(result.pattern_count(), 3);
    assert_eq!(result.at(3), TC_DOJI | TC_STAR);
    assert_eq!(result.at(7), TC_HAMMER);
    assert_eq!(result.at(5), TC_NONE);
    assert_eq!(result.at(100), TC_NONE);
    assert_eq!(result.get(0), Some(CandleHit { index: 3, patterns: TC_DOJI | TC_STAR }));
    assert_eq!(result.get(1), Some(CandleHit { index: 7, patterns: TC_HAMMER }));
    assert_eq!(result.get(2), None);
    assert_eq!(
        result.iter(),
        vec![CandleHit { index: 3, patterns: TC_DOJI | TC_STAR }, CandleHit { index: 7, patterns: TC_HAMMER }]
    );
}

#[test]
fn at_finds_every_hit_by_binary_search() {
    let mut result = CandleResult::new();
    for i in 0..50usize {
        result.add(i * 3, 1u64 << (i % 26));
    }
    for i in 0..150usize {
        let expected = if i % 3 == 0 { 1u64 << ((i / 3) % 26) } else { 0 };
        assert_eq!(result.at(i), expected);
    }
}

#[test]
fn doji_rule_follows_body_threshold() {
    let mut s = quiet();
    s.body_none = true;
    assert!(rule_matches(5, 10, &s));
    s.body_none = false;
    assert!(!rule_matches(5, 10, &s));
}

#[test]
fn two_bar_rules_need_two_predecessors() {
    let mut s = quiet();
    s.prev2_white = true;
    s.prev_white = true;
    s.white = true;
    s.prev_open_inside = true;
    s.open_inside = true;
    assert!(rule_matches(24, 2, &s));
    assert!(!rule_matches(24, 1, &s));
}

#[test]
fn scan_records_requested_patterns_only() {
    let mut doji = quiet();
    doji.body_none = true;
    doji.wick_upper_none = true;
    doji.wick_lower_none = true;
    let mut star = quiet();
    star.star_up = true;
    let signals = vec![doji, quiet(), star];
    let result = scan_candles(TC_ALL, 10, &signals);
    assert_eq!(result.count(), 2);
    assert_eq!(result.at(10), TC_DOJI | TC_FOUR_PRICE_DOJI);
    assert_eq!(result.at(11), TC_NONE);
    assert_eq!(result.at(12), TC_STAR);
    assert_eq!(result.pattern_count(), 3);

    let only_star = scan_candles(TC_STAR, 10, &signals);
    assert_eq!(only_star.count(), 1);
    assert_eq!(only_star.get(0), Some(CandleHit { index: 12, patterns: TC_STAR }));
    assert_eq!(only_star.pattern_count(), 1);
}

#[test]
fn detect_adds_in_bit_order() {
    let mut s = quiet();
    s.black = true;
    s.body_long = true;
    s.wick_upper_none = true;
    s.wick_lower_none = true;
    let mut result = CandleResult::new();
    detect_patterns(&mut result, TC_ALL, 4, &s);
    assert_eq!(result.at(4), TC_BIG_BLACK_CANDLE | TC_BLACK_MARUBOZU | TC_MARUBOZU);
    assert_eq!(result.pattern_count(), 3);
}

#[test]
fn candle_inputs_are_checked_in_order() {
    let a = [1.0f64, 2.0, 3.0];
    let b = [1.0f64, 2.0];
    assert_eq!(
        check_candle_inputs(&[&a[..], &a[..], &a[..]], 1),
        Err(IndicatorError::WrongInputCount { indicator: "candle", expected: 4, actual: 3 })
    );
    assert_eq!(
        check_candle_inputs(&[&a[..], &a[..], &b[..], &b[..]], 1),
        Err(IndicatorError::InputLengthMismatch { indicator: "candle", expected: 3, actual: 2, input_index: 2 })
    );
    assert_eq!(
        check_candle_inputs(&[&a[..], &a[..], &a[..], &a[..]], 0),
        Err(IndicatorError::InvalidOption {
            indicator: "candle",
            option: "period",
            value: 0.0f64.to_bits(),
            reason: "period must be at least 1",
        })
    );
    assert_eq!(check_candle_inputs(&[&a[..], &a[..], &a[..], &a[..]], 1), Ok(2));
    assert_eq!(check_candle_inputs(&[&a[..], &a[..], &a[..], &a[..]], 5), Ok(0));
}

#[test]
fn candle_names_resolve_to_bits() {
    assert_eq!(resolve_candle_name("marubozu"), Ok(TC_MARUBOZU));
    assert_eq!(
        resolve_candle_name("nope"),
        Err(IndicatorError::InvalidOption {
            indicator: "candle",
            option: "pattern",
            value: 0,
            reason: "unknown candle pattern name",
        })
    );
}

#[test]
fn default_result_is_empty() {
    let r = CandleResult::default();
    assert_eq!(r, CandleResult::new());
    assert_eq!(r.count(), 0);
    assert_eq!(r.pattern_count(), 0);
    assert_eq!(r.get(0), None);
    assert_eq!(r.at(3), TC_NONE);
    assert!(r.iter().is_empty());
}
