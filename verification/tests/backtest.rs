use binance_btc::backtest::{check_replay_window, ReplayWindowError};
use binance_btc::backtest::{
    BarHit, ExitFill, ExitReason, SignalFill, SignalStream, StreamAction, TradeSlot, default_max_hold_bars,
    find_exit,
};

#[derive(Clone, Copy)]
struct Bar {
    high: f64,
    low: f64,
    close: f64,
}

fn candle(_idx: i64, _open: f64, high: f64, low: f64, close: f64) -> Bar {
    Bar { high, low, close }
}

#[derive(Clone, Copy)]
struct SignalSetup {
    trigger_price: f64,
    atr: f64,
}

struct Trade {
    slot: TradeSlot,
    exit_price_raw: f64,
    exit_price_fill: f64,
    bars_held: usize,
}

const STOP_ATR_MULTIPLE: f64 = 1.0;
const TARGET_ATR_MULTIPLE: f64 = 2.0;
const EXIT_SLIPPAGE_BPS: f64 = 2.0;
const STOP_EXTRA_SLIPPAGE_BPS: f64 = 3.0;

/// Drives the signal stream over `candles` the way the engine does, with the
/// position plan `stop = trigger - atr`, `target = trigger + 2 * atr`.
fn run_simulation(candles: Vec<Bar>, signals: &[(usize, SignalSetup)], max_hold_bars: usize) -> Vec<Trade> {
    let to = candles.len().saturating_sub(1);
    let mut stream = SignalStream::new(0, to, max_hold_bars);
    let mut trades = Vec::new();
    loop {
        match stream.action() {
            StreamAction::AskSignal { bar } => {
                let present = signals.iter().any(|(i, _)| *i == bar);
                stream.on_signal(present);
            }
            StreamAction::AskFill { signal_bar, entry_bar } => {
                let setup = signals.iter().find(|(i, _)| *i == signal_bar).expect("signal").1;
                let fill = if candles[entry_bar].high < setup.trigger_price {
                    SignalFill::NotTriggered
                } else {
                    let stop = setup.trigger_price - STOP_ATR_MULTIPLE * setup.atr;
                    let target = setup.trigger_price + TARGET_ATR_MULTIPLE * setup.atr;
                    let last = (entry_bar + max_hold_bars.saturating_sub(1)).min(to);
                    let hits: Vec<BarHit> = candles[entry_bar..=last]
                        .iter()
                        .map(|c| BarHit { stop_hit: c.low <= stop, target_hit: c.high >= target })
                        .collect();
                    match find_exit(&hits, entry_bar, to, max_hold_bars) {
                        Some(f) => SignalFill::Filled(f),
                        None => SignalFill::NoTrade,
                    }
                };
                let (_, trade) = stream.on_fill(fill);
                if let Some(slot) = trade {
                    let stop = setup.trigger_price - STOP_ATR_MULTIPLE * setup.atr;
                    let target = setup.trigger_price + TARGET_ATR_MULTIPLE * setup.atr;
                    let (raw, slip) = match slot.exit_reason {
                        ExitReason::StopHit => (stop, EXIT_SLIPPAGE_BPS + STOP_EXTRA_SLIPPAGE_BPS),
                        ExitReason::TargetHit => (target, EXIT_SLIPPAGE_BPS),
                        ExitReason::MaxHoldExpired => (candles[slot.exit_bar_index].close, EXIT_SLIPPAGE_BPS),
                    };
                    trades.push(Trade {
                        slot,
                        exit_price_raw: raw,
                        exit_price_fill: raw * (1.0 - slip / 10_000.0),
                        bars_held: slot.exit_bar_index - slot.entry_bar_index + 1,
                    });
                }
            }
            StreamAction::Done => break,
        }
    }
    trades
}

fn setup(trigger_price: f64, atr: f64) -> SignalSetup {
    SignalSetup { trigger_price, atr }
}

#[test]
fn test_entry_fill_on_next_bar() {
    let trades = run_simulation(
        vec![
            candle(0, 99.0, 99.5, 98.5, 99.2),
            candle(1, 99.2, 100.2, 99.0, 100.0),
            candle(2, 100.0, 100.4, 99.8, 100.3),
        ],
        &[(0, setup(100.0, 2.0))],
        2,
    );
    assert_eq!(trades.len(), 1);
    assert_eq!(trades[0].slot.entry_bar_index, 1);
}

#[test]
fn test_signal_expires_if_no_trigger() {
    let trades = run_simulation(
        vec![
            candle(0, 99.0, 99.5, 98.5, 99.2),
            candle(1, 99.2, 99.9, 99.0, 99.5),
            candle(2, 99.5, 100.4, 99.4, 100.2),
        ],
        &[(0, setup(100.0, 2.0))],
        default_max_hold_bars(),
    );
    assert!(trades.is_empty());
}

#[test]
fn test_stop_hit() {
    let trades = run_simulation(
        vec![
            candle(0, 99.0, 99.5, 98.5, 99.2),
            candle(1, 99.2, 100.2, 99.1, 100.0),
            candle(2, 100.0, 100.3, 97.8, 98.2),
        ],
        &[(0, setup(100.0, 2.0))],
        default_max_hold_bars(),
    );
    assert_eq!(trades.len(), 1);
    assert_eq!(trades[0].slot.exit_reason, ExitReason::StopHit);
    assert_eq!(trades[0].exit_price_raw, 98.0);
    assert!(trades[0].exit_price_fill < 98.0);
}

#[test]
fn test_target_hit() {
    let trades = run_simulation(
        vec![
            candle(0, 99.0, 99.5, 98.5, 99.2),
            candle(1, 99.2, 100.2, 99.1, 100.0),
            candle(2, 100.0, 104.2, 99.8, 103.8),
        ],
        &[(0, setup(100.0, 2.0))],
        default_max_hold_bars(),
    );
    assert_eq!(trades.len(), 1);
    assert_eq!(trades[0].slot.exit_reason, ExitReason::TargetHit);
    assert_eq!(trades[0].exit_price_raw, 104.0);
    assert!(trades[0].exit_price_fill < 104.0);
}

#[test]
fn test_same_bar_stop_wins() {
    let trades = run_simulation(
        vec![candle(0, 99.0, 99.5, 98.5, 99.2), candle(1, 99.2, 104.2, 97.8, 100.0)],
        &[(0, setup(100.0, 2.0))],
        default_max_hold_bars(),
    );
    assert_eq!(trades.len(), 1);
    assert_eq!(trades[0].slot.entry_bar_index, 1);
    assert_eq!(trades[0].slot.exit_bar_index, 1);
    assert_eq!(trades[0].slot.exit_reason, ExitReason::StopHit);
}

#[test]
fn test_max_hold_exit() {
    let trades = run_simulation(
        vec![
            candle(0, 99.0, 99.5, 98.5, 99.2),
            candle(1, 99.2, 100.2, 99.1, 100.0),
            candle(2, 100.0, 100.3, 99.5, 100.2),
            candle(3, 100.2, 100.3, 99.6, 100.4),
        ],
        &[(0, setup(100.0, 2.0))],
        3,
    );
    assert_eq!(trades.len(), 1);
    assert_eq!(trades[0].slot.exit_reason, ExitReason::MaxHoldExpired);
    assert_eq!(trades[0].exit_price_raw, 100.4);
    assert_eq!(trades[0].bars_held, 3);
}

#[test]
fn test_one_position_at_a_time() {
    let trades = run_simulation(
        vec![
            candle(0, 99.0, 99.5, 98.5, 99.2),
            candle(1, 99.2, 100.2, 99.1, 100.0),
            candle(2, 100.0, 100.3, 99.5, 100.2),
            candle(3, 100.2, 100.3, 99.6, 100.4),
            candle(4, 100.4, 100.5, 99.8, 100.6),
        ],
        &[(0, setup(100.0, 2.0)), (1, setup(100.1, 2.0))],
        3,
    );
    assert_eq!(trades.len(), 1);
    assert_eq!(trades[0].slot.signal_bar_index, 0);
}

fn hit(stop_hit: bool, target_hit: bool) -> BarHit {
    BarHit { stop_hit, target_hit }
}

#[test]
fn find_exit_prefers_stop_on_a_conflicting_bar() {
    let hits = [hit(false, false), hit(true, true)];
    assert_eq!(find_exit(&hits, 5, 100, 20), Some(ExitFill { reason: ExitReason::StopHit, exit_idx: 6 }));
}

#[test]
fn find_exit_expires_after_max_hold_bars() {
    let hits = [hit(false, false); 3];
    assert_eq!(find_exit(&hits, 10, 100, 3), Some(ExitFill { reason: ExitReason::MaxHoldExpired, exit_idx: 12 }));
    // A max hold of zero still holds the entry bar.
    assert_eq!(find_exit(&hits, 10, 100, 0), Some(ExitFill { reason: ExitReason::MaxHoldExpired, exit_idx: 10 }));
}

#[test]
fn find_exit_none_when_window_ends_first() {
    let hits = [hit(false, false); 2];
    assert_eq!(find_exit(&hits, 10, 11, 5), None);
    assert_eq!(find_exit(&[], 12, 11, 5), None);
}

#[test]
fn signal_on_last_bar_ends_the_stream() {
    let mut s = SignalStream::new(3, 3, 20);
    assert_eq!(s.action(), StreamAction::AskSignal { bar: 3 });
    assert_eq!(s.on_signal(true), StreamAction::Done);
}

#[test]
fn empty_window_is_done() {
    let s = SignalStream::new(4, 3, 20);
    assert_eq!(s.action(), StreamAction::Done);
}

#[test]
fn stream_resumes_after_exit_and_stops_on_no_trade() {
    let mut s = SignalStream::new(0, 10, 20);
    assert_eq!(s.on_signal(false), StreamAction::AskSignal { bar: 1 });
    assert_eq!(s.on_signal(true), StreamAction::AskFill { signal_bar: 1, entry_bar: 2 });
    let (next, trade) = s.on_fill(SignalFill::Filled(ExitFill { reason: ExitReason::TargetHit, exit_idx: 4 }));
    assert_eq!(next, StreamAction::AskSignal { bar: 5 });
    assert_eq!(
        trade,
        Some(TradeSlot { signal_bar_index: 1, entry_bar_index: 2, exit_bar_index: 4, exit_reason: ExitReason::TargetHit })
    );
    assert_eq!(s.on_signal(true), StreamAction::AskFill { signal_bar: 5, entry_bar: 6 });
    assert_eq!(s.on_fill(SignalFill::NotTriggered), (StreamAction::AskSignal { bar: 6 }, None));
    assert_eq!(s.on_signal(true), StreamAction::AskFill { signal_bar: 6, entry_bar: 7 });
    assert_eq!(s.on_fill(SignalFill::NoTrade), (StreamAction::Done, None));
}

#[test]
fn replay_window_checks_in_order() {
    assert_eq!(check_replay_window(0, 0, 0), Err(ReplayWindowError::NoBars));
    assert_eq!(
        check_replay_window(10, 5, 3),
        Err(ReplayWindowError::FromAfterTo { from_idx: 5, to_idx: 3, last: 9 })
    );
    assert_eq!(
        check_replay_window(10, 12, 15),
        Err(ReplayWindowError::FromPastEnd { from_idx: 12, bar_count: 10 })
    );
    assert_eq!(check_replay_window(10, 0, 9), Ok(()));
    assert_eq!(check_replay_window(1, 0, 0), Ok(()));
}
