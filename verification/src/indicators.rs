//! Per-bar flag records produced by the pattern and stop-run indicators.

use vstd::prelude::*;

verus! {

/// Common single-bar and two-bar candlestick pattern flags for one bar.
#[derive(Copy, Clone, Debug, Default, PartialEq, Eq, Structural)]
pub struct CandlestickPatternBar {
    pub bull_engulfing: bool,
    pub bear_engulfing: bool,
    pub hammer: bool,
    pub shooting_star: bool,
    pub doji: bool,
}

/// Liquidity-sweep (stop-run) flags for one bar: `sweep_up` when the bar's high
/// pierces the prior range with non-negative delta, `sweep_down` when its low
/// pierces the prior range with non-positive delta.
#[derive(Copy, Clone, Debug, Default, PartialEq, Eq, Structural)]
pub struct LiquiditySweepBar {
    pub sweep_up: bool,
    pub sweep_down: bool,
}

} // verus!
