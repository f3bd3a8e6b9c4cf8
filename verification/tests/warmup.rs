use binance_btc::warmup::{NOTE_HIGHER_TF_FIELDS, VwapAnchorMode, WarmupConfig, min_bars_required_for_path, path_note};

fn cfg() -> WarmupConfig {
    WarmupConfig {
        ema_fast_period: 9,
        ema_slow_period: 21,
        vwma_lookback: 96,
        atr_period: 14,
        vol_baseline_lookback_bars: 960,
        vp_enabled: true,
        vp_lookback_bars: 288,
        higher_tf_factor: 4,
        vwap_anchor_mode: VwapAnchorMode::RollingBars,
        vwap_rolling_bars: Some(48),
    }
}

#[test]
fn candle_fields_need_one_row() {
    for path in ["candle.open", "candle.high", "candle.low", "candle.close", "candle.volume", "candle.buy_volume", "candle.sell_volume", "candle.delta", "candle.close_time"] {
        assert_eq!(min_bars_required_for_path(path, &cfg()), Some(1), "{path}");
    }
}

#[test]
fn config_driven_top_level_paths() {
    let c = cfg();
    assert_eq!(min_bars_required_for_path("ema_fast", &c), Some(9));
    assert_eq!(min_bars_required_for_path("ema_slow", &c), Some(21));
    assert_eq!(min_bars_required_for_path("vwma", &c), Some(96));
    assert_eq!(min_bars_required_for_path("atr", &c), Some(15));
    assert_eq!(min_bars_required_for_path("atr_pct", &c), Some(15));
    assert_eq!(min_bars_required_for_path("atr_pct_baseline", &c), Some(960));
    assert_eq!(min_bars_required_for_path("vol_ratio", &c), Some(960));
    assert_eq!(min_bars_required_for_path("cvd_ema3", &c), Some(8));
    assert_eq!(min_bars_required_for_path("cvd_ema3_slope", &c), Some(12));
    assert_eq!(min_bars_required_for_path("vp_poc", &c), Some(288));
    assert_eq!(min_bars_required_for_path("ema_slow_higher", &c), Some(21 * 4 + 4));
}

#[test]
fn vol_ratio_takes_the_largest_requirement() {
    let mut c = cfg();
    c.vol_baseline_lookback_bars = 1;
    assert_eq!(min_bars_required_for_path("vol_ratio", &c), Some(15));
    c.atr_period = 0;
    assert_eq!(min_bars_required_for_path("vol_ratio", &c), Some(2));
}

#[test]
fn volume_profile_disabled_needs_one_row() {
    let mut c = cfg();
    c.vp_enabled = false;
    assert_eq!(min_bars_required_for_path("vp_val", &c), Some(1));
}

#[test]
fn higher_tf_factor_zero_counts_as_one_and_saturates() {
    let mut c = cfg();
    c.higher_tf_factor = 0;
    assert_eq!(min_bars_required_for_path("ema_fast_higher", &c), Some(22));
    c.higher_tf_factor = 100_000;
    c.ema_slow_period = 100_000;
    assert_eq!(min_bars_required_for_path("ema_fast_higher", &c), Some(u32::MAX));
}

#[test]
fn snapshot_paths() {
    let c = cfg();
    let cases = [
        ("indicator_snapshot.momentum.rsi_14", Some(15)),
        ("indicator_snapshot.momentum.macd_hist", Some(35)),
        ("indicator_snapshot.momentum.kvo_signal_13", Some(60)),
        ("indicator_snapshot.momentum.unknown", None),
        ("indicator_snapshot.trend.sma_200", Some(200)),
        ("indicator_snapshot.trend.vwap_session", Some(48)),
        ("indicator_snapshot.trend.fama", Some(50)),
        ("indicator_snapshot.ichimoku.anything", Some(52)),
        ("indicator_snapshot.volatility.pivot_classic.r1", Some(2)),
        ("indicator_snapshot.volatility.pivot_fib.s2", Some(2)),
        ("indicator_snapshot.volatility.bb_pct_b_20", Some(20)),
        ("indicator_snapshot.volatility.chandelier_short_stop_22_3", Some(23)),
        ("indicator_snapshot.volatility.other", None),
        ("indicator_snapshot.directional.aroon_down_25", Some(25)),
        ("indicator_snapshot.volume.cmf_20", Some(21)),
        ("indicator_snapshot.volume.pvi", Some(2)),
        ("indicator_snapshot.patterns.doji", Some(3)),
        ("indicator_snapshot.unknown.x", None),
        ("indicator_snapshot.", None),
        ("unknown", None),
        ("", None),
    ];
    for (path, expected) in cases {
        assert_eq!(min_bars_required_for_path(path, &c), expected, "{path}");
    }
}

#[test]
fn vwap_rows_follow_anchor_mode() {
    let mut c = cfg();
    c.vwap_rolling_bars = None;
    assert_eq!(min_bars_required_for_path("indicator_snapshot.trend.vwap_upper_2sd", &c), Some(96));
    c.vwap_anchor_mode = VwapAnchorMode::UtcDay;
    assert_eq!(min_bars_required_for_path("indicator_snapshot.trend.vwap_lower_1sd", &c), Some(96));
    c.vwap_anchor_mode = VwapAnchorMode::Disabled;
    assert_eq!(min_bars_required_for_path("indicator_snapshot.trend.vwap_session", &c), Some(1));
}

#[test]
fn notes_only_for_higher_paths() {
    assert_eq!(path_note("ema_fast_higher"), Some(NOTE_HIGHER_TF_FIELDS));
    assert_eq!(path_note("x_higher_y"), Some(NOTE_HIGHER_TF_FIELDS));
    assert_eq!(path_note("ema_fast"), None);
    assert_eq!(path_note("higher"), None);
}

#[test]
fn snapshot_paths_and_uncatalogued_names() {
    let c = cfg();
    assert_eq!(min_bars_required_for_path("indicator_snapshot.patterns.doji", &c), Some(3));
    assert_eq!(min_bars_required_for_path("indicator_snapshot.ichimoku.tenkan", &c), Some(52));
    assert_eq!(min_bars_required_for_path("indicator_snapshot.unknown.x", &c), None);
    assert_eq!(min_bars_required_for_path("snapshot.atr", &c), None);
    assert_eq!(min_bars_required_for_path("candle.open", &c), Some(1));
}
