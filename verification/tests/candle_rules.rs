use lib::candles::{all_candles, rule_matches, scan_candles, CandleSignals, TC_ALL};

fn from_bits(bits: u64) -> CandleSignals {
    let b = |k: u32| bits & (1u64 << k) != 0;
    CandleSignals {
        black: b(0),
        white: b(1),
        body_none: b(2),
        body_short: b(3),
        body_long: b(4),
        wick_upper_none: b(5),
        wick_upper_long: b(6),
        wick_upper_longer_than_body: b(7),
        wick_lower_none: b(8),
        wick_lower_long: b(9),
        wick_lower_longer_than_body: b(10),
        gap_up: b(11),
        gap_down: b(12),
        star_up: b(13),
        star_down: b(14),
        prev_white: b(15),
        prev_black: b(16),
        prev_body_none: b(17),
        prev_body_short: b(18),
        prev_gap_up: b(19),
        prev_gap_down: b(20),
        prev_open_inside: b(21),
        open_inside: b(22),
        close_below_prev_open: b(23),
        open_above_prev_close: b(24),
        close_above_prev_open: b(25),
        open_below_prev_close: b(26),
        near_prev_low: b(27),
        near_prev_high: b(28),
        prev2_white: b(29),
        prev2_black: b(30),
        prev2_body_long: b(31),
        prev_low_above_prev2_high: b(32),
        prev_high_below_prev2_low: b(33),
        close_at_or_below_prev2: b(34),
        close_at_or_above_prev2: b(35),
    }
}

fn expected(k: usize, i: usize, s: &CandleSignals) -> bool {
    let i1 = i >= 1;
    let i2 = i >= 2;
    match k {
        0 => i2 && s.prev2_white && s.prev2_body_long && s.prev_low_above_prev2_high && s.prev_body_none && s.black && s.star_down && s.close_at_or_below_prev2,
        1 => i2 && s.prev2_black && s.prev2_body_long && s.prev_high_below_prev2_low && s.prev_body_none && s.white && s.star_up && s.close_at_or_above_prev2,
        2 => s.black && s.body_long,
        3 => s.white && s.body_long,
        4 => s.body_long && s.wick_upper_none && s.wick_lower_none && s.black,
        5 => s.body_none,
        6 => s.body_none && s.wick_upper_none && s.wick_lower_long,
        7 => i1 && s.black && s.prev_white && s.close_below_prev_open && s.open_above_prev_close,
        8 => i1 && s.white && s.prev_black && s.close_above_prev_open && s.open_below_prev_close,
        9 => i2 && s.prev2_white && s.prev2_body_long && s.prev_gap_up && s.prev_body_none && s.black && s.gap_down && s.close_at_or_below_prev2,
        10 => i2 && s.prev2_white && s.prev2_body_long && s.prev_gap_up && s.prev_body_short && s.black && s.gap_down && s.close_at_or_below_prev2,
        11 => s.body_none && s.wick_upper_none && s.wick_lower_none,
        12 => s.body_none && s.wick_upper_long && s.wick_lower_none,
        13 => i1 && s.body_short && s.wick_upper_none && s.wick_lower_long && s.near_prev_low,
        14 => i1 && s.body_short && s.wick_upper_none && s.wick_lower_long && s.near_prev_high,
        15 => i1 && s.body_short && s.wick_upper_long && s.wick_lower_none && s.gap_down,
        16 => s.body_none && s.wick_upper_long && s.wick_lower_long,
        17 => s.body_long && s.wick_upper_none && s.wick_lower_none,
        18 => i2 && s.prev2_black && s.prev2_body_long && s.prev_gap_down && s.prev_body_none && s.white && s.gap_up && s.close_at_or_above_prev2,
        19 => i2 && s.prev2_black && s.prev2_body_long && s.prev_gap_down && s.prev_body_short && s.white && s.gap_up && s.close_at_or_above_prev2,
        20 => i1 && s.body_short && s.wick_upper_long && s.wick_lower_none && s.gap_up,
        21 => s.body_short && s.wick_upper_longer_than_body && s.wick_lower_longer_than_body,
        22 => i1 && (s.star_up || s.star_down),
        23 => i2 && s.prev2_black && s.prev_black && s.black && s.prev_open_inside && s.open_inside,
        24 => i2 && s.prev2_white && s.prev_white && s.white && s.prev_open_inside && s.open_inside,
        25 => s.body_long && s.wick_upper_none && s.wick_lower_none && s.white,
        _ => false,
    }
}

fn pseudo_random(seed: &mut u64) -> u64 {
    *seed ^= *seed << 13;
    *seed ^= *seed >> 7;
    *seed ^= *seed << 17;
    *seed
}

#[test]
fn every_rule_matches_its_definition() {
    let mut seed = 0x9e37_79b9_7f4a_7c15u64;
    for _ in 0..4000 {
        let bits = pseudo_random(&mut seed) | pseudo_random(&mut seed);
        let s = from_bits(bits);
        for i in 0..4usize {
            for k in 0..26usize {
                assert_eq!(rule_matches(k, i, &s), expected(k, i, &s), "rule {k} at {i}");
            }
        }
    }
}

#[test]
fn every_rule_can_fire() {
    let all = from_bits(u64::MAX);
    for k in 0..26usize {
        assert!(rule_matches(k, 2, &all), "rule {k}");
    }
}

#[test]
fn subset_scan_is_masked_full_scan() {
    let mut seed = 0x1234_5678_9abc_def1u64;
    let signals: Vec<CandleSignals> = (0..64).map(|_| from_bits(pseudo_random(&mut seed))).collect();
    let full = scan_candles(TC_ALL, 1, &signals);
    for info in all_candles() {
        let mask = info.pattern | (pseudo_random(&mut seed) & TC_ALL);
        let partial = scan_candles(mask, 1, &signals);
        for i in 0..70usize {
            assert_eq!(partial.at(i), full.at(i) & mask);
        }
    }
}

#[test]
fn scan_counts_every_match() {
    let mut seed = 0x0bad_cafe_dead_beefu64;
    let signals: Vec<CandleSignals> = (0..40).map(|_| from_bits(pseudo_random(&mut seed))).collect();
    let result = scan_candles(TC_ALL, 0, &signals);
    let mut total = 0usize;
    let mut indices = 0usize;
    for (i, s) in signals.iter().enumerate() {
        let mut bits = 0u64;
        for k in 0..26usize {
            if expected(k, i, s) {
                bits |= 1u64 << k;
                total += 1;
            }
        }
        if bits != 0 {
            indices += 1;
        }
        assert_eq!(result.at(i), bits);
    }
    assert_eq!(result.pattern_count(), total);
    assert_eq!(result.count(), indices);
}

fn random_signals(seed: u64, n: usize) -> Vec<CandleSignals> {
    let mut state = seed;
    (0..n).map(|_| from_bits(pseudo_random(&mut state))).collect()
}

#[test]
fn counts_agree_with_the_hits() {
    for seed in 1..40u64 {
        let signals = random_signals(seed, 60);
        let r = scan_candles(TC_ALL, 5, &signals);
        let hits = r.iter();
        let indices: std::collections::BTreeSet<usize> =
            (0..200).filter(|&i| r.at(i) != 0).collect();
        assert_eq!(r.count(), indices.len());
        assert!(r.count() <= r.pattern_count());
        let bits: usize = hits.iter().map(|h| h.patterns.count_ones() as usize).sum();
        assert_eq!(r.pattern_count(), bits);
    }
}

#[test]
fn a_prefix_scan_keeps_the_earlier_hits() {
    for seed in 1..20u64 {
        let signals = random_signals(seed, 50);
        let full = scan_candles(TC_ALL, 3, &signals);
        for m in [0usize, 1, 7, 25, 50] {
            let part = scan_candles(TC_ALL, 3, &signals[..m]);
            let expected: Vec<_> = full.iter().into_iter().filter(|h| h.index < 3 + m).collect();
            assert_eq!(part.iter(), expected);
            let bits: usize = expected.iter().map(|h| h.patterns.count_ones() as usize).sum();
            assert_eq!(part.pattern_count(), bits);
        }
    }
}
