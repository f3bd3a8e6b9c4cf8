use binance_btc::config::{paper_vol_baseline_lookback, vol_baseline_override};

#[test]
fn vol_baseline_override_needs_the_longest_window() {
    assert_eq!(vol_baseline_override(960, 96, 40), Ok(960));
    assert_eq!(vol_baseline_override(96, 96, 40), Ok(96));
    assert_eq!(vol_baseline_override(95, 96, 40), Err(96));
    assert_eq!(vol_baseline_override(50, 20, 60), Err(60));
    assert_eq!(vol_baseline_override(1, 0, 1), Err(2));
    assert_eq!(vol_baseline_override(2, 0, 0), Ok(2));
}

#[test]
fn paper_lookback_is_raised_to_the_longest_window() {
    assert_eq!(paper_vol_baseline_lookback(960, 96, 40, true, 96), 960);
    assert_eq!(paper_vol_baseline_lookback(50, 96, 40, false, 500), 96);
    assert_eq!(paper_vol_baseline_lookback(50, 96, 40, true, 500), 500);
    assert_eq!(paper_vol_baseline_lookback(0, 0, 1, false, 0), 2);
}
