//! Fill rules of the deterministic long-only backtest.
//!
//! - one position at a time;
//! - a signal becomes a stop order for the next bar, and expires if that bar
//!   does not trade through the trigger;
//! - the stop wins any same-bar stop/target conflict;
//! - the max-hold exit happens at the close of the last bar held.
//!
//! Prices are compared by the caller; these functions decide from the
//! outcomes of those comparisons.

use vstd::prelude::*;

verus! {

/// Default number of bars a position may be held.
pub fn default_max_hold_bars() -> (r: usize)
    ensures
        r == 20,
{
    20
}

/// Why a position was closed.
#[derive(Copy, Clone, Debug, PartialEq, Eq, Structural)]
pub enum ExitReason {
    TargetHit,
    StopHit,
    MaxHoldExpired,
}

/// What one held bar did to an open position: its low reached the stop, its
/// high reached the target.
#[derive(Copy, Clone, Debug, PartialEq, Eq, Structural)]
pub struct BarHit {
    pub stop_hit: bool,
    pub target_hit: bool,
}

/// The bar on which a position is closed, and why.
#[derive(Copy, Clone, Debug, PartialEq, Eq, Structural)]
pub struct ExitFill {
    pub reason: ExitReason,
    pub exit_idx: usize,
}

/// The last bar a position entered at `entry` may reach: the max-hold bar,
/// but never past the window end `to` (both steps saturate at `usize::MAX`).
pub open spec fn last_exit_bar(entry: usize, to: usize, max_hold_bars: usize) -> usize {
    let span: usize = if max_hold_bars == 0 { 0 } else { (max_hold_bars - 1) as usize };
    let reach: usize = if entry + span > usize::MAX { usize::MAX } else { (entry + span) as usize };
    if reach <= to { reach } else { to }
}

/// Scans bars `j..=last` of a position entered at `entry` (hits indexed from
/// the entry bar) for the first exit: stop before target on the same bar, then
/// the max-hold expiry at the bar that completes `max_hold_bars` bars.
pub open spec fn first_exit(hits: Seq<BarHit>, entry: int, last: int, max_hold_bars: int, j: int) -> Option<(ExitReason, int)>
    decreases last + 1 - j,
{
    if j > last || j < entry {
        None
    } else if hits[j - entry].stop_hit {
        Some((ExitReason::StopHit, j))
    } else if hits[j - entry].target_hit {
        Some((ExitReason::TargetHit, j))
    } else if j - entry + 1 >= max_hold_bars {
        Some((ExitReason::MaxHoldExpired, j))
    } else {
        first_exit(hits, entry, last, max_hold_bars, j + 1)
    }
}

/// The exit of a position entered on bar `entry_idx` inside a window ending at
/// `to`, or `None` when the window ends before any exit. `hits[k]` describes
/// bar `entry_idx + k`.
pub open spec fn exit_of(hits: Seq<BarHit>, entry_idx: usize, to: usize, max_hold_bars: usize) -> Option<ExitFill> {
    match first_exit(hits, entry_idx as int, last_exit_bar(entry_idx, to, max_hold_bars) as int, max_hold_bars as int, entry_idx as int) {
        Some((reason, j)) => Some(ExitFill { reason, exit_idx: j as usize }),
        None => None,
    }
}

/// Finds where a position entered on bar `entry_idx` is closed. `hits[k]`
/// describes bar `entry_idx + k` and must cover every bar up to the last one
/// the position may reach.
pub fn find_exit(hits: &[BarHit], entry_idx: usize, to: usize, max_hold_bars: usize) -> (r: Option<ExitFill>)
    requires
        entry_idx <= last_exit_bar(entry_idx, to, max_hold_bars) ==> last_exit_bar(entry_idx, to, max_hold_bars) - entry_idx < hits@.len(),
    ensures
        r == exit_of(hits@, entry_idx, to, max_hold_bars),
{
    let span = max_hold_bars.saturating_sub(1);
    let reach = entry_idx.saturating_add(span);
    let max_exit_idx = if reach <= to { reach } else { to };
    assert(max_exit_idx == last_exit_bar(entry_idx, to, max_hold_bars));
    if entry_idx > max_exit_idx {
        return None;
    }
    let mut exit_idx = entry_idx;
    loop
        invariant
            entry_idx <= exit_idx <= max_exit_idx,
            max_exit_idx == last_exit_bar(entry_idx, to, max_hold_bars),
            max_exit_idx - entry_idx < hits@.len(),
            first_exit(hits@, entry_idx as int, max_exit_idx as int, max_hold_bars as int, entry_idx as int)
                == first_exit(hits@, entry_idx as int, max_exit_idx as int, max_hold_bars as int, exit_idx as int),
        decreases max_exit_idx - exit_idx,
    {
        let hit = hits[exit_idx - entry_idx];
        if hit.stop_hit {
            return Some(ExitFill { reason: ExitReason::StopHit, exit_idx });
        }
        if hit.target_hit {
            return Some(ExitFill { reason: ExitReason::TargetHit, exit_idx });
        }
        let bars_held = exit_idx - entry_idx + 1;
        if bars_held >= max_hold_bars {
            return Some(ExitFill { reason: ExitReason::MaxHoldExpired, exit_idx });
        }
        if exit_idx == max_exit_idx {
            assert(first_exit(hits@, entry_idx as int, max_exit_idx as int, max_hold_bars as int, exit_idx + 1) is None);
            return None;
        }
        exit_idx = exit_idx + 1;
    }
}


/// No bar of `[from, until)` reached the stop or the target.
pub open spec fn quiet_bars(hits: Seq<BarHit>, entry: int, from: int, until: int) -> bool {
    forall|k: int| from <= k < until ==> !(#[trigger] hits[k - entry]).stop_hit && !hits[k - entry].target_hit
}

proof fn lemma_first_exit_from(hits: Seq<BarHit>, entry: int, last: int, max_hold_bars: int, j: int)
    requires
        entry <= j,
        j <= last + 1,
        last - entry < hits.len(),
        quiet_bars(hits, entry, entry, j),
        j - entry < max_hold_bars || (j == entry && j <= last),
    ensures
        first_exit(hits, entry, last, max_hold_bars, j) matches Some((reason, x)) ==> {
            &&& j <= x <= last
            &&& quiet_bars(hits, entry, entry, x)
            &&& (reason is StopHit <==> hits[x - entry].stop_hit)
            &&& (reason is TargetHit ==> !hits[x - entry].stop_hit && hits[x - entry].target_hit)
            &&& (reason is MaxHoldExpired ==> !hits[x - entry].stop_hit && !hits[x - entry].target_hit
                && x - entry + 1 == (if max_hold_bars >= 1 { max_hold_bars } else { 1 }))
        },
        first_exit(hits, entry, last, max_hold_bars, j) is None ==> {
            &&& quiet_bars(hits, entry, entry, last + 1)
            &&& last - entry + 1 < max_hold_bars
        },
    decreases last + 1 - j,
{
    if j <= last {
        let h = hits[j - entry];
        if !h.stop_hit && !h.target_hit && j - entry + 1 < max_hold_bars {
            assert forall|k: int| entry <= k < j + 1 implies !(#[trigger] hits[k - entry]).stop_hit && !hits[k - entry].target_hit by {
                if k < j {
                    assert(!hits[k - entry].stop_hit);
                }
            }
            lemma_first_exit_from(hits, entry, last, max_hold_bars, j + 1);
        }
    }
}

/// The exit rules of one position: the exit is the first bar that reaches the
/// stop or the target, or the bar that completes the max hold; a bar that
/// reaches both closes at the stop; the max-hold exit comes exactly after
/// `max(max_hold_bars, 1)` bars; no exit is found only when the window ends
/// first with no bar reaching either level.
pub proof fn lemma_exit_rules(hits: Seq<BarHit>, entry_idx: usize, to: usize, max_hold_bars: usize)
    requires
        entry_idx <= last_exit_bar(entry_idx, to, max_hold_bars) ==> last_exit_bar(entry_idx, to, max_hold_bars) - entry_idx < hits.len(),
    ensures
        exit_of(hits, entry_idx, to, max_hold_bars) matches Some(f) ==> {
            &&& entry_idx <= f.exit_idx <= to
            &&& f.exit_idx <= last_exit_bar(entry_idx, to, max_hold_bars)
            &&& f.exit_idx - entry_idx < (if max_hold_bars >= 1 { max_hold_bars as int } else { 1 })
            &&& quiet_bars(hits, entry_idx as int, entry_idx as int, f.exit_idx as int)
            &&& (f.reason is StopHit <==> hits[f.exit_idx - entry_idx].stop_hit)
            &&& (f.reason is TargetHit ==> !hits[f.exit_idx - entry_idx].stop_hit && hits[f.exit_idx - entry_idx].target_hit)
            &&& (f.reason is MaxHoldExpired ==> !hits[f.exit_idx - entry_idx].stop_hit
                && !hits[f.exit_idx - entry_idx].target_hit
                && f.exit_idx - entry_idx + 1 == (if max_hold_bars >= 1 { max_hold_bars as int } else { 1 }))
        },
        exit_of(hits, entry_idx, to, max_hold_bars) is None ==> {
            ||| entry_idx > to
            ||| (quiet_bars(hits, entry_idx as int, entry_idx as int, to + 1) && (to - entry_idx + 1) < max_hold_bars)
        },
{
    let last = last_exit_bar(entry_idx, to, max_hold_bars) as int;
    if entry_idx as int <= last {
        lemma_first_exit_from(hits, entry_idx as int, last, max_hold_bars as int, entry_idx as int);
    }
}


/// Why a backtest replay window was refused.
#[derive(Copy, Clone, Debug, PartialEq, Eq, Structural)]
pub enum ReplayWindowError {
    /// The dataset has no closed candle.
    NoBars,
    /// The resolved window starts after it ends (`last` is the last bar index).
    FromAfterTo { from_idx: usize, to_idx: usize, last: usize },
    /// The resolved window starts past the last bar.
    FromPastEnd { from_idx: usize, bar_count: usize },
}

/// Accepts the resolved replay window `from_idx..=to_idx` over `bar_count`
/// bars, or says why it is refused, checking in this order: no bars, a start
/// after the end, a start past the last bar.
pub fn check_replay_window(bar_count: usize, from_idx: usize, to_idx: usize) -> (r: Result<(), ReplayWindowError>)
    ensures
        bar_count == 0 ==> r == Err::<(), ReplayWindowError>(ReplayWindowError::NoBars),
        bar_count > 0 && from_idx > to_idx ==> r == Err::<(), ReplayWindowError>(
            ReplayWindowError::FromAfterTo { from_idx, to_idx, last: (bar_count - 1) as usize },
        ),
        bar_count > 0 && from_idx <= to_idx && from_idx >= bar_count ==> r == Err::<(), ReplayWindowError>(
            ReplayWindowError::FromPastEnd { from_idx, bar_count },
        ),
        r is Ok <==> (0 < bar_count && from_idx <= to_idx && from_idx < bar_count),
{
    if bar_count == 0 {
        return Err(ReplayWindowError::NoBars);
    }
    let last = bar_count - 1;
    if from_idx > to_idx {
        return Err(ReplayWindowError::FromAfterTo { from_idx, to_idx, last });
    }
    if from_idx >= bar_count {
        return Err(ReplayWindowError::FromPastEnd { from_idx, bar_count });
    }
    Ok(())
}

/// What the caller must supply next to drive a signal stream.
#[derive(Copy, Clone, Debug, PartialEq, Eq, Structural)]
pub enum StreamAction {
    /// Evaluate the strategy on `bar` and report whether it signals.
    AskSignal { bar: usize },
    /// A signal on `signal_bar` becomes a stop order for `entry_bar`: report
    /// whether it fills and where the position closes.
    AskFill { signal_bar: usize, entry_bar: usize },
    /// The window is exhausted.
    Done,
}

/// What became of a signal's stop order.
#[derive(Copy, Clone, Debug, PartialEq, Eq, Structural)]
pub enum SignalFill {
    /// The entry bar did not trade through the trigger: the order expires.
    NotTriggered,
    /// The order filled but no trade can be recorded (non-positive risk, or
    /// the window ends before the exit): the stream stops.
    NoTrade,
    /// The position opened on the entry bar and closed as given.
    Filled(ExitFill),
}

/// One simulated trade: signal bar, entry bar (the next one), exit bar and why.
#[derive(Copy, Clone, Debug, PartialEq, Eq, Structural)]
pub struct TradeSlot {
    pub signal_bar_index: usize,
    pub entry_bar_index: usize,
    pub exit_bar_index: usize,
    pub exit_reason: ExitReason,
}

/// Walks the signal bars of a window `from..=to`, one position at a time.
pub struct SignalStream {
    to: usize,
    action: StreamAction,
    last_exit: Option<usize>,
    from: Ghost<usize>,
    max_hold: Ghost<usize>,
    asked: Ghost<Seq<usize>>,
    trades: Ghost<Seq<TradeSlot>>,
}

/// The history of a stream over `from..=to`: the bars whose signal was asked
/// about lie in the window in strictly increasing order; each trade enters on
/// the bar after its signal bar, which lies in the window, and exits on or
/// after entry and inside the window, holding at most `max(max_hold_bars, 1)`
/// bars; each trade's signal comes after every
/// earlier trade's exit; and no signal was asked about while a position was
/// open (after a trade's signal bar, up to its exit bar).
pub open spec fn stream_history_ok(
    from: usize,
    to: usize,
    max_hold_bars: usize,
    asked: Seq<usize>,
    trades: Seq<TradeSlot>,
) -> bool {
    &&& forall|i: int| 0 <= i < asked.len() ==> from <= #[trigger] asked[i] <= to
    &&& forall|i: int, j: int| 0 <= i < j < asked.len() ==> #[trigger] asked[i] < #[trigger] asked[j]
    &&& forall|k: int|
        0 <= k < trades.len() ==> {
            &&& from <= (#[trigger] trades[k]).signal_bar_index
            &&& trades[k].entry_bar_index == trades[k].signal_bar_index + 1
            &&& trades[k].entry_bar_index <= trades[k].exit_bar_index <= to
            &&& trades[k].exit_bar_index - trades[k].entry_bar_index + 1 <= (if max_hold_bars >= 1 {
                max_hold_bars as int
            } else {
                1
            })
        }
    &&& forall|k: int, l: int|
        0 <= k < l < trades.len() ==> (#[trigger] trades[k]).exit_bar_index < (#[trigger] trades[l]).signal_bar_index
    &&& forall|i: int, k: int|
        #![trigger asked[i], trades[k]]
        0 <= i < asked.len() && 0 <= k < trades.len() ==> !(trades[k].signal_bar_index < asked[i]
            && asked[i] <= trades[k].exit_bar_index)
}

/// The state after reporting whether `bar` signals.
pub open spec fn after_signal(bar: usize, to: usize, present: bool) -> StreamAction {
    if !present {
        if bar + 1 > to { StreamAction::Done } else { StreamAction::AskSignal { bar: (bar + 1) as usize } }
    } else if bar + 1 > to {
        StreamAction::Done
    } else {
        StreamAction::AskFill { signal_bar: bar, entry_bar: (bar + 1) as usize }
    }
}

/// The state after reporting the fill of the order from `signal_bar`.
pub open spec fn after_fill(signal_bar: usize, to: usize, fill: SignalFill) -> StreamAction {
    match fill {
        SignalFill::NotTriggered => StreamAction::AskSignal { bar: (signal_bar + 1) as usize },
        SignalFill::NoTrade => StreamAction::Done,
        SignalFill::Filled(f) => if f.exit_idx + 1 > to {
            StreamAction::Done
        } else {
            StreamAction::AskSignal { bar: (f.exit_idx + 1) as usize }
        },
    }
}

impl SignalStream {
    /// Bars asked about lie in the window, an entry bar follows its signal
    /// bar, nothing is asked about a bar at or before the last exit, and the
    /// history so far is well formed.
    #[verifier::type_invariant]
    spec fn well_formed(&self) -> bool {
        &&& self.to < usize::MAX
        &&& match self.action {
            StreamAction::AskSignal { bar } => self.from@ <= bar <= self.to && (self.last_exit matches Some(x) ==> bar > x)
                && (self.asked@.len() > 0 ==> self.asked@.last() < bar),
            StreamAction::AskFill { signal_bar, entry_bar } => entry_bar == signal_bar + 1 && entry_bar <= self.to
                && (self.last_exit matches Some(x) ==> signal_bar > x) && self.asked@.len() > 0
                && self.asked@.last() == signal_bar,
            StreamAction::Done => true,
        }
        &&& stream_history_ok(self.from@, self.to, self.max_hold@, self.asked@, self.trades@)
        &&& self.last_exit == (if self.trades@.len() == 0 {
            None
        } else {
            Some(self.trades@.last().exit_bar_index)
        })
        &&& forall|k: int| 0 <= k < self.trades@.len() ==> (#[trigger] self.trades@[k]).exit_bar_index <= self.last_exit->0
    }

    pub closed spec fn action_spec(&self) -> StreamAction {
        self.action
    }

    pub closed spec fn to_spec(&self) -> usize {
        self.to
    }

    /// The exit bar of the last trade recorded, if any.
    pub closed spec fn last_exit_spec(&self) -> Option<usize> {
        self.last_exit
    }

    /// The first bar of the window.
    pub closed spec fn from_spec(&self) -> usize {
        self.from@
    }

    /// The most bars a position may be held (at least one is always held).
    pub closed spec fn max_hold_spec(&self) -> usize {
        self.max_hold@
    }

    /// The bars whose signal was asked about, in order.
    pub closed spec fn asked_spec(&self) -> Seq<usize> {
        self.asked@
    }

    /// The trades recorded so far, in order.
    pub closed spec fn trades_spec(&self) -> Seq<TradeSlot> {
        self.trades@
    }

    /// The whole history of the stream so far is well formed.
    pub open spec fn history_ok(&self) -> bool {
        stream_history_ok(self.from_spec(), self.to_spec(), self.max_hold_spec(), self.asked_spec(), self.trades_spec())
    }

    /// A stream over bars `from..=to` (`to` is a bar index, so below
    /// `usize::MAX`) whose positions are held at most `max_hold_bars` bars.
    pub fn new(from: usize, to: usize, max_hold_bars: usize) -> (r: Self)
        requires
            to < usize::MAX,
        ensures
            r.to_spec() == to,
            r.last_exit_spec() is None,
            r.action_spec() == if from <= to { StreamAction::AskSignal { bar: from } } else { StreamAction::Done },
            r.from_spec() == from,
            r.max_hold_spec() == max_hold_bars,
            r.asked_spec() == Seq::<usize>::empty(),
            r.trades_spec() == Seq::<TradeSlot>::empty(),
            r.history_ok(),
    {
        let action = if from <= to { StreamAction::AskSignal { bar: from } } else { StreamAction::Done };
        SignalStream {
            to,
            action,
            last_exit: None,
            from: Ghost(from),
            max_hold: Ghost(max_hold_bars),
            asked: Ghost(Seq::empty()),
            trades: Ghost(Seq::empty()),
        }
    }

    /// What the stream needs next.
    pub fn action(&self) -> (r: StreamAction)
        ensures
            r == self.action_spec(),
            r matches StreamAction::AskSignal { bar } ==> bar <= self.to_spec(),
            r matches StreamAction::AskFill { signal_bar, entry_bar } ==> entry_bar == signal_bar + 1 && entry_bar <= self.to_spec(),
    {
        proof {
            use_type_invariant(self);
        }
        self.action
    }

    /// Reports whether the bar asked about signals. A signal on the last bar of
    /// the window ends the stream (its order could only fill after the window).
    pub fn on_signal(&mut self, present: bool) -> (r: StreamAction)
        requires
            old(self).action_spec() is AskSignal,
        ensures
            r == final(self).action_spec(),
            r == after_signal(old(self).action_spec()->bar, old(self).to_spec(), present),
            final(self).to_spec() == old(self).to_spec(),
            final(self).last_exit_spec() == old(self).last_exit_spec(),
            final(self).from_spec() == old(self).from_spec(),
            final(self).max_hold_spec() == old(self).max_hold_spec(),
            final(self).asked_spec() == old(self).asked_spec().push(old(self).action_spec()->bar),
            final(self).trades_spec() == old(self).trades_spec(),
            final(self).history_ok(),
    {
        proof {
            use_type_invariant(&*self);
        }
        let bar = match self.action {
            StreamAction::AskSignal { bar } => bar,
            _ => 0,
        };
        let next = if bar + 1 > self.to {
            StreamAction::Done
        } else if !present {
            StreamAction::AskSignal { bar: bar + 1 }
        } else {
            StreamAction::AskFill { signal_bar: bar, entry_bar: bar + 1 }
        };
        let ghost asked = self.asked@.push(bar);
        proof {
            let tr = self.trades@;
            assert forall|i: int, k: int|
                #![trigger asked[i], tr[k]]
                0 <= i < asked.len() && 0 <= k < tr.len() implies !(tr[k].signal_bar_index < asked[i]
                    && asked[i] <= tr[k].exit_bar_index) by {
                if i == asked.len() - 1 {
                    assert(tr[k].exit_bar_index <= self.last_exit->0);
                } else {
                    assert(asked[i] == self.asked@[i]);
                }
            }
            assert forall|i: int, j: int| 0 <= i < j < asked.len() implies #[trigger] asked[i] < #[trigger] asked[j] by {
                if j == asked.len() - 1 && i < j {
                    assert(self.asked@[i] <= self.asked@.last());
                }
            }
        }
        *self = SignalStream {
            to: self.to,
            action: next,
            last_exit: self.last_exit,
            from: self.from,
            max_hold: self.max_hold,
            asked: Ghost(asked),
            trades: self.trades,
        };
        next
    }

    /// Reports what became of the pending order. A fill closes on or after the
    /// entry bar and inside the window; it is recorded as a trade, and the
    /// stream resumes on the bar after the exit.
    pub fn on_fill(&mut self, fill: SignalFill) -> (r: (StreamAction, Option<TradeSlot>))
        requires
            old(self).action_spec() is AskFill,
            fill matches SignalFill::Filled(f) ==> old(self).action_spec()->entry_bar <= f.exit_idx <= last_exit_bar(
                old(self).action_spec()->entry_bar,
                old(self).to_spec(),
                old(self).max_hold_spec(),
            ),
        ensures
            r.0 == final(self).action_spec(),
            r.0 == after_fill(old(self).action_spec()->signal_bar, old(self).to_spec(), fill),
            final(self).to_spec() == old(self).to_spec(),
            match fill {
                SignalFill::Filled(f) => {
                    &&& r.1 == Some(TradeSlot {
                        signal_bar_index: old(self).action_spec()->signal_bar,
                        entry_bar_index: old(self).action_spec()->entry_bar,
                        exit_bar_index: f.exit_idx,
                        exit_reason: f.reason,
                    })
                    &&& final(self).last_exit_spec() == Some(f.exit_idx)
                },
                _ => r.1 is None && final(self).last_exit_spec() == old(self).last_exit_spec(),
            },
            r.1 matches Some(t) ==> (old(self).last_exit_spec() matches Some(x) ==> t.signal_bar_index > x),
            final(self).from_spec() == old(self).from_spec(),
            final(self).max_hold_spec() == old(self).max_hold_spec(),
            final(self).asked_spec() == old(self).asked_spec(),
            final(self).trades_spec() == match r.1 {
                Some(t) => old(self).trades_spec().push(t),
                None => old(self).trades_spec(),
            },
            final(self).history_ok(),
    {
        proof {
            use_type_invariant(&*self);
        }
        let (signal_bar, entry_bar) = match self.action {
            StreamAction::AskFill { signal_bar, entry_bar } => (signal_bar, entry_bar),
            _ => (0, 0),
        };
        match fill {
            SignalFill::NotTriggered => {
                self.action = StreamAction::AskSignal { bar: signal_bar + 1 };
                (self.action, None)
            },
            SignalFill::NoTrade => {
                self.action = StreamAction::Done;
                (StreamAction::Done, None)
            },
            SignalFill::Filled(f) => {
                let trade = TradeSlot {
                    signal_bar_index: signal_bar,
                    entry_bar_index: entry_bar,
                    exit_bar_index: f.exit_idx,
                    exit_reason: f.reason,
                };
                let next = if f.exit_idx + 1 > self.to {
                    StreamAction::Done
                } else {
                    StreamAction::AskSignal { bar: f.exit_idx + 1 }
                };
                let ghost trades = self.trades@.push(trade);
                proof {
                    let asked = self.asked@;
                    let old_tr = self.trades@;
                    assert forall|i: int| 0 <= i < asked.len() implies #[trigger] asked[i] <= signal_bar by {
                        if i < asked.len() - 1 {
                            assert(asked[i] < asked[asked.len() - 1]);
                        }
                    }
                    assert forall|i: int, k: int|
                        #![trigger asked[i], trades[k]]
                        0 <= i < asked.len() && 0 <= k < trades.len() implies !(trades[k].signal_bar_index < asked[i]
                            && asked[i] <= trades[k].exit_bar_index) by {
                        if k < old_tr.len() {
                            assert(trades[k] == old_tr[k]);
                        } else {
                            assert(asked[i] <= signal_bar);
                        }
                    }
                    assert forall|k: int, l: int| 0 <= k < l < trades.len() implies (#[trigger] trades[k]).exit_bar_index < (
                    #[trigger] trades[l]).signal_bar_index by {
                        assert(trades[k] == old_tr[k]);
                        if l < old_tr.len() {
                            assert(trades[l] == old_tr[l]);
                        } else {
                            assert(old_tr[k].exit_bar_index <= self.last_exit->0);
                        }
                    }
                    assert forall|k: int| 0 <= k < trades.len() implies (#[trigger] trades[k]).exit_bar_index <= f.exit_idx by {
                        if k < old_tr.len() {
                            assert(trades[k] == old_tr[k]);
                            assert(old_tr[k].exit_bar_index <= self.last_exit->0);
                        }
                    }
                    assert forall|k: int| 0 <= k < trades.len() implies {
                        &&& self.from@ <= (#[trigger] trades[k]).signal_bar_index
                        &&& trades[k].entry_bar_index == trades[k].signal_bar_index + 1
                        &&& trades[k].entry_bar_index <= trades[k].exit_bar_index <= self.to
                    } by {
                        if k < old_tr.len() {
                            assert(trades[k] == old_tr[k]);
                        } else {
                            assert(self.from@ <= asked[asked.len() - 1]);
                        }
                    }
                }
                *self = SignalStream {
                    to: self.to,
                    action: next,
                    last_exit: Some(f.exit_idx),
                    from: self.from,
                    max_hold: self.max_hold,
                    asked: self.asked,
                    trades: Ghost(trades),
                };
                (next, Some(trade))
            },
        }
    }
}

} // verus!
