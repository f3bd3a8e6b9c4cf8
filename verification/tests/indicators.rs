use binance_btc::indicators::{CandlestickPatternBar, LiquiditySweepBar};

#[test]
fn pattern_and_sweep_flags_default_to_false() {
    let p = CandlestickPatternBar::default();
    assert!(!p.bull_engulfing && !p.bear_engulfing && !p.hammer && !p.shooting_star && !p.doji);
    let s = LiquiditySweepBar::default();
    assert_eq!(s, LiquiditySweepBar { sweep_up: false, sweep_down: false });
}
