use lib::error::IndicatorError;
use lib::indicators::indicator::{Adx, Adxr, Ao, Apo, Atr, Copp, Cvi, Di, Dm, HtPhasor, HtSine, Imi, Kst, Kvo, Macd, MacdExt, MacdFix, Mass, Ppo, Rsi, Stoch, StochRsi, Tr, UltOsc, Wad};
use lib::indicators::math::{Beta, Correl, Lag, Sum};
use lib::types::IndicatorCategory;

#[test]
fn lookbacks_follow_periods() {
    assert_eq!(Adx.lookback(14), 26);
    assert_eq!(Adxr.lookback(14), 39);
    assert_eq!(Ao.lookback(), 33);
    assert_eq!(Atr.lookback(14), 13);
    assert_eq!(Cvi.lookback(10), 19);
    assert_eq!(StochRsi.lookback(14), 27);
    assert_eq!(Stoch.lookback(5, 3, 3), 8);
    assert_eq!(Copp.lookback(14, 10), 23);
    assert_eq!(Mass.lookback(9), 24);
    assert_eq!(Di.lookback(0), 0);
    assert_eq!(Dm.lookback(1), 0);
    assert_eq!(Imi.lookback(5), 4);
    assert_eq!(Rsi.lookback(3), 3);
    assert_eq!(MacdFix.lookback(), 25);
    assert_eq!(Macd.lookback(26), 25);
    assert_eq!(HtSine.lookback(), 63);
    assert_eq!(HtPhasor.lookback(), 32);
    assert_eq!(Lag.lookback(0), 0);
    assert_eq!(Sum.lookback(4), 3);
    assert_eq!(Correl.lookback(4), 3);
    assert_eq!(Beta.lookback(4), 4);
    assert_eq!(Tr.lookback(), 0);
    assert_eq!(Wad.lookback(), 1);
}

#[test]
fn metadata_matches_registry_names() {
    let m = Rsi.metadata();
    assert_eq!(m.name, "rsi");
    assert_eq!(m.full_name, "Relative Strength Index");
    assert_eq!(m.input_names, &["real"]);
    assert_eq!(m.option_names, &["period"]);
    assert_eq!(Stoch.metadata().output_names, &["stoch_k", "stoch_d"]);
    assert_eq!(Sum.metadata().category, IndicatorCategory::Math);
    assert_eq!(Kst.metadata().option_names.len(), 8);
}

#[test]
fn period_ordering_errors() {
    let bits = 5.0f64.to_bits();
    assert_eq!(Apo::check_periods(3, 5, bits), Ok(()));
    assert_eq!(
        Apo::check_periods(10, 5, bits),
        Err(IndicatorError::InvalidOption {
            indicator: "apo",
            option: "long_period",
            value: bits,
            reason: "expected long_period >= short_period",
        })
    );
    assert!(Ppo::check_periods(10, 5, bits).is_err());
    assert!(Kvo::check_periods(10, 5, bits).is_err());
    assert!(Macd::check_periods(12, 26, bits).is_ok());
    assert_eq!(
        Copp::check_periods(14, 11, 11.0f64.to_bits()),
        Err(IndicatorError::InvalidOption {
            indicator: "copp",
            option: "long_roc_period",
            value: 11.0f64.to_bits(),
            reason: "expected long_roc_period >= short_roc_period",
        })
    );
    assert!(Kst::check_periods(10, 15, 20, 30, 0).is_ok());
    assert!(Kst::check_periods(10, 15, 15, 30, 0).is_err());
    assert_eq!(
        UltOsc::check_periods(7, 5, 28, 1, 2),
        Err(IndicatorError::InvalidOption {
            indicator: "ultosc",
            option: "medium_period",
            value: 1,
            reason: "expected medium_period >= short_period",
        })
    );
    assert_eq!(
        UltOsc::check_periods(7, 14, 10, 1, 2),
        Err(IndicatorError::InvalidOption {
            indicator: "ultosc",
            option: "long_period",
            value: 2,
            reason: "expected long_period >= medium_period",
        })
    );
    assert!(UltOsc::check_periods(7, 14, 28, 1, 2).is_ok());
    assert_eq!(
        lib::indicators::indicator::price_volume::check_short_long("vosc", 5, 2, 7),
        Err(IndicatorError::InvalidOption {
            indicator: "vosc",
            option: "long_period",
            value: 7,
            reason: "expected long_period >= short_period",
        })
    );
}

#[test]
fn macdext_orders_legs_and_combines_lookbacks() {
    assert_eq!(MacdExt::order_legs(26, 'a', 12, 'b'), (12, 'b', 26, 'a'));
    assert_eq!(MacdExt::order_legs(12, 'a', 26, 'b'), (12, 'a', 26, 'b'));
    assert_eq!(MacdExt::combine_lookbacks(11, 25, 8), 33);
    assert_eq!(MacdExt::combine_lookbacks(30, 25, 8), 38);
}
