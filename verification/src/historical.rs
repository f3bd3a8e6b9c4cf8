//! Selection rules for the bundled BTC/USD one-minute history: which calendar
//! days a request covers, and which CSV rows a load keeps.

use vstd::prelude::*;

use chrono::NaiveDate;

use vstd::string::StrSliceExecFns;

use crate::text::{chars_of, has_literal_infix, occurs_in};

verus! {

/// Hard cap on rows loaded per request.
pub const MAX_BUNDLED_1M_BARS: usize = 500_000;

/// Seconds in one UTC calendar day.
pub const SECS_PER_DAY: i64 = 86_400;

/// Which slice of the bundled one-minute CSV to load: inclusive UTC calendar
/// days `from` / `to` (`YYYY-MM-DD`), or the whole file with `all`.
#[derive(Clone, Debug)]
pub struct BundledBtcUsd1m {
    pub from: Option<String>,
    pub to: Option<String>,
    pub all: bool,
}

#[verifier::external_type_specification]
#[verifier::external_body]
pub struct ExChronoParseError(chrono::ParseError);

/// For a `YYYY-MM-DD` day string (surrounding whitespace ignored): the unix
/// second of that day's UTC midnight, and of the next day's UTC midnight when
/// the next day is representable. `None` when the string does not parse.
pub uninterp spec fn day_bounds_of(day: Seq<char>) -> Option<(i64, Option<i64>)>;

/// Parses a `YYYY-MM-DD` day and returns the unix seconds of its UTC midnight
/// and of the following day's UTC midnight (`None` for the last day chrono
/// can represent).
///
/// Calls `chrono::NaiveDate::parse_from_str(s.trim(), "%Y-%m-%d")`, then
/// `and_hms_opt(0, 0, 0)`, `and_utc`, `succ_opt` and `DateTime::timestamp`
/// (`and_hms_opt(0, 0, 0)` is always `Some`). The contract
/// claims that the result is a function of `s` (named `day_bounds_of`), and,
/// from chrono's `timestamp` (`(days - UNIX_EPOCH_DAY) * 86_400 + seconds`)
/// and `succ_opt` (the next calendar day), that a midnight is a whole number
/// of days and the next midnight comes one day later.
#[verifier::external_body]
fn parse_day_bounds(s: &str) -> (r: Result<(i64, Option<i64>), chrono::ParseError>)
    ensures
        r is Ok <==> day_bounds_of(s@) is Some,
        r matches Ok(b) ==> day_bounds_of(s@) == Some(b),
        r matches Ok(b) ==> b.0 % SECS_PER_DAY == 0,
        r matches Ok(b) ==> (b.1 matches Some(next) ==> next == b.0 + SECS_PER_DAY),
{
    let day = NaiveDate::parse_from_str(s.trim(), "%Y-%m-%d")?;
    let start = day.and_hms_opt(0, 0, 0).expect("midnight").and_utc().timestamp();
    let next = match day.succ_opt() {
        Some(n) => Some(n.and_hms_opt(0, 0, 0).expect("midnight").and_utc().timestamp()),
        None => None,
    };
    Ok((start, next))
}

/// Why a bundled-history request cannot be turned into a time window.
#[derive(Debug)]
pub enum BundleBoundsError {
    /// `all: true` together with `from` or `to`.
    AllWithRange,
    /// Neither `all` nor any of `from` / `to`.
    NoRange,
    /// A day string that is not `YYYY-MM-DD`.
    InvalidDay { input: String, cause: chrono::ParseError },
    /// The `to` day lies before the `from` day.
    ToBeforeFrom,
}

/// The ways a request can fail to give a window, without chrono's detail.
pub enum BoundsFailure {
    AllWithRange,
    NoRange,
    InvalidFrom,
    InvalidTo,
    ToBeforeFrom,
}

/// Whether an error is the failure `f` for request `b`: an invalid day names
/// the offending input.
pub open spec fn error_is(e: BundleBoundsError, f: BoundsFailure, b: BundledBtcUsd1m) -> bool {
    match f {
        BoundsFailure::AllWithRange => e is AllWithRange,
        BoundsFailure::NoRange => e is NoRange,
        BoundsFailure::InvalidFrom => e matches BundleBoundsError::InvalidDay { input, .. } && b.from matches Some(d) && input@ == d@,
        BoundsFailure::InvalidTo => e matches BundleBoundsError::InvalidDay { input, .. } && b.to matches Some(d) && input@ == d@,
        BoundsFailure::ToBeforeFrom => e is ToBeforeFrom,
    }
}

/// The inclusive lower second and exclusive upper second a request selects,
/// or why it selects none. `all` gives an unbounded window; `from` starts at
/// that day's UTC midnight; `to` ends at the next day's UTC midnight.
pub open spec fn bundle_bounds(b: BundledBtcUsd1m) -> Result<(Option<i64>, Option<i64>), BoundsFailure> {
    if b.all && (b.from is Some || b.to is Some) {
        Err(BoundsFailure::AllWithRange)
    } else if !b.all && b.from is None && b.to is None {
        Err(BoundsFailure::NoRange)
    } else if b.all {
        Ok((None, None))
    } else if b.from matches Some(f) && day_bounds_of(f@) is None {
        Err(BoundsFailure::InvalidFrom)
    } else if b.to matches Some(t) && day_bounds_of(t@) is None {
        Err(BoundsFailure::InvalidTo)
    } else {
        let lo = match b.from {
            Some(f) => Some(day_bounds_of(f@).unwrap().0),
            None => None,
        };
        let hi = match b.to {
            Some(t) => day_bounds_of(t@).unwrap().1,
            None => None,
        };
        if lo is Some && hi is Some && hi.unwrap() <= lo.unwrap() {
            Err(BoundsFailure::ToBeforeFrom)
        } else {
            Ok((lo, hi))
        }
    }
}

/// The request reaches the step that takes the day after `to`, and that day
/// does not exist (the last day chrono can represent).
pub open spec fn to_day_is_last_representable(b: BundledBtcUsd1m) -> bool {
    &&& !b.all
    &&& b.from matches Some(f) ==> day_bounds_of(f@) is Some
    &&& b.to matches Some(t) && day_bounds_of(t@) matches Some(d) && d.1 is None
}

/// A dated request whose `from` and `to` days both parse.
pub open spec fn both_days_valid(b: BundledBtcUsd1m) -> bool {
    &&& !b.all
    &&& b.from is Some
    &&& b.to is Some
    &&& day_bounds_of(b.from.unwrap()@) is Some
    &&& day_bounds_of(b.to.unwrap()@) is Some
}

/// UTC midnight of the `from` day.
pub open spec fn from_midnight(b: BundledBtcUsd1m) -> i64 {
    day_bounds_of(b.from.unwrap()@).unwrap().0
}

/// UTC midnight of the `to` day.
pub open spec fn to_midnight(b: BundledBtcUsd1m) -> i64 {
    day_bounds_of(b.to.unwrap()@).unwrap().0
}

/// Whole days: a midnight before another midnight is at least a day before it.
proof fn lemma_midnights_order(a: i64, b: i64)
    requires
        a % SECS_PER_DAY == 0,
        b % SECS_PER_DAY == 0,
    ensures
        a < b <==> a + SECS_PER_DAY <= b,
{
    assert(a < b ==> a + 86400 <= b) by (nonlinear_arith)
        requires
            a % 86400 == 0,
            b % 86400 == 0,
    {
        if a < b {
            let qa = a / 86400;
            let qb = b / 86400;
            assert(a == qa * 86400);
            assert(b == qb * 86400);
            assert(qa < qb);
        }
    }
}

/// Turns a request into `(inclusive lower, exclusive upper)` unix seconds.
pub fn bundle_time_bounds(bundle: &BundledBtcUsd1m) -> (r: Result<(Option<i64>, Option<i64>), BundleBoundsError>)
    requires
        !to_day_is_last_representable(*bundle),
    ensures
        match bundle_bounds(*bundle) {
            Ok(w) => r == Ok::<(Option<i64>, Option<i64>), BundleBoundsError>(w),
            Err(f) => r matches Err(e) && error_is(e, f, *bundle),
        },
        // Two valid days are refused as a window exactly when the `to` day
        // comes before the `from` day.
        both_days_valid(*bundle) ==> ((r is Err && r->Err_0 is ToBeforeFrom) <==> to_midnight(*bundle) < from_midnight(*bundle)),
{
    if bundle.all && (bundle.from.is_some() || bundle.to.is_some()) {
        return Err(BundleBoundsError::AllWithRange);
    }
    if !bundle.all && bundle.from.is_none() && bundle.to.is_none() {
        return Err(BundleBoundsError::NoRange);
    }
    if bundle.all {
        return Ok((None, None));
    }
    let ghost mut from_start: i64 = 0;
    let ghost mut to_start: i64 = 0;
    let lower_sec: Option<i64> = match &bundle.from {
        Some(s) => match parse_day_bounds(s.as_str()) {
            Ok(b) => {
                proof {
                    from_start = b.0;
                }
                Some(b.0)
            },
            Err(cause) => {
                return Err(BundleBoundsError::InvalidDay { input: s.clone(), cause });
            },
        },
        None => None,
    };
    let upper_excl_sec: Option<i64> = match &bundle.to {
        Some(s) => match parse_day_bounds(s.as_str()) {
            Ok(b) => {
                proof {
                    to_start = b.0;
                }
                b.1
            },
            Err(cause) => {
                return Err(BundleBoundsError::InvalidDay { input: s.clone(), cause });
            },
        },
        None => None,
    };
    if let (Some(lo), Some(hi)) = (lower_sec, upper_excl_sec) {
        proof {
            lemma_midnights_order(to_start, from_start);
        }
        if hi <= lo {
            return Err(BundleBoundsError::ToBeforeFrom);
        }
    }
    Ok((lower_sec, upper_excl_sec))
}

/// Like `bundle_time_bounds`, but first checks the one input on which taking
/// the day after `to` is impossible, and gives `None` there.
pub fn checked_bundle_time_bounds(bundle: &BundledBtcUsd1m) -> (r: Option<
    Result<(Option<i64>, Option<i64>), BundleBoundsError>,
>)
    ensures
        r is None <==> to_day_is_last_representable(*bundle),
        r matches Some(res) ==> match bundle_bounds(*bundle) {
            Ok(w) => res == Ok::<(Option<i64>, Option<i64>), BundleBoundsError>(w),
            Err(f) => res matches Err(e) && error_is(e, f, *bundle),
        },
{
    if !bundle.all {
        let from_ok = match &bundle.from {
            Some(s) => parse_day_bounds(s.as_str()).is_ok(),
            None => true,
        };
        if from_ok {
            if let Some(s) = &bundle.to {
                if let Ok(b) = parse_day_bounds(s.as_str()) {
                    if b.1.is_none() {
                        return None;
                    }
                }
            }
        }
    }
    Some(bundle_time_bounds(bundle))
}


/// The std lowercase mapping of a string (`str::to_lowercase`).
pub uninterp spec fn lowercase_of(s: Seq<char>) -> Seq<char>;

/// Lowercases `s` with `str::to_lowercase`. The contract claims only that the
/// result is a function of `s`, named `lowercase_of`.
#[verifier::external_body]
fn to_lowercase(s: &str) -> (r: String)
    ensures
        r@ == lowercase_of(s@),
{
    s.to_lowercase()
}

/// Whether an already lowercased CSV header names a `timestamp` column.
pub fn lowered_header_names_timestamp(lowered: &str) -> (r: bool)
    ensures
        r == occurs_in("timestamp"@, lowered@),
{
    let c = chars_of(lowered);
    has_literal_infix(c.as_slice(), "timestamp")
}

/// Whether a CSV header line is the bundled format's header: its lowercase
/// form mentions `timestamp`.
pub fn header_names_timestamp(header: &str) -> (r: bool)
    ensures
        r == occurs_in("timestamp"@, lowercase_of(header@)),
{
    let lowered = to_lowercase(header);
    lowered_header_names_timestamp(lowered.as_str())
}

/// What to do with one parsed CSV row of the bundled history.
#[derive(Copy, Clone, Debug, PartialEq, Eq, Structural)]
pub enum RowStep {
    /// Before the window: ignore the row and read on.
    Skip,
    /// At or past the window's end: stop reading, the row is not kept.
    Stop,
    /// Keep the row and read on.
    Keep,
    /// Keep the row, then stop: the whole-file load reached the row cap.
    KeepThenStop,
    /// The kept rows would exceed the cap for a dated window: fail.
    TooMany,
}

/// Row selection state for one bundled-history load (rows arrive oldest first).
pub struct BundleRowFilter {
    lower: Option<i64>,
    upper_excl: Option<i64>,
    all: bool,
    kept: usize,
}

/// What the filter does with a row at `ts` after keeping `kept` rows.
pub open spec fn row_step_spec(lower: Option<i64>, upper_excl: Option<i64>, all: bool, kept: usize, ts: i64) -> RowStep {
    if lower matches Some(lo) && ts < lo {
        RowStep::Skip
    } else if upper_excl matches Some(hi) && ts >= hi {
        RowStep::Stop
    } else if kept + 1 > MAX_BUNDLED_1M_BARS {
        RowStep::TooMany
    } else if all && kept + 1 == MAX_BUNDLED_1M_BARS {
        RowStep::KeepThenStop
    } else {
        RowStep::Keep
    }
}

/// A kept row lies inside the window `[lower, upper_excl)` and never takes the
/// count past the cap; a whole-file load (no window) never fails for too many
/// rows before it has stopped at the cap.
pub proof fn lemma_row_steps(lower: Option<i64>, upper_excl: Option<i64>, all: bool, kept: usize, ts: i64)
    ensures
        ({
            let step = row_step_spec(lower, upper_excl, all, kept, ts);
            &&& (step is Keep || step is KeepThenStop) ==> {
                &&& lower matches Some(lo) ==> lo <= ts
                &&& upper_excl matches Some(hi) ==> ts < hi
                &&& kept + 1 <= MAX_BUNDLED_1M_BARS
            }
            &&& (all && kept < MAX_BUNDLED_1M_BARS) ==> step !is TooMany
            &&& (step is KeepThenStop) ==> kept + 1 == MAX_BUNDLED_1M_BARS
        }),
{
}

/// Why a load produced no candles.
#[derive(Copy, Clone, Debug, PartialEq, Eq, Structural)]
pub enum BundleLoadError {
    /// No row fell inside the window.
    NoRowsInRange,
    /// More rows than the cap fell inside a dated window.
    TooManyRows,
}

/// The rows (by position) of a file whose close times are `ts` (oldest
/// first) that lie in the window, from row `i` on: rows before `lower` are
/// passed over, and reading ends at the first row at or after `upper_excl`.
pub open spec fn window_rows(lower: Option<i64>, upper_excl: Option<i64>, ts: Seq<i64>, i: int) -> Seq<int>
    decreases ts.len() - i,
{
    if i < 0 || i >= ts.len() {
        Seq::empty()
    } else if lower matches Some(lo) && ts[i] < lo {
        window_rows(lower, upper_excl, ts, i + 1)
    } else if upper_excl matches Some(hi) && ts[i] >= hi {
        Seq::empty()
    } else {
        seq![i] + window_rows(lower, upper_excl, ts, i + 1)
    }
}

/// What reading the rows `i..` of a file whose close times are `ts` through a
/// row filter gives, with the rows `kept` kept so far: each row is stepped in
/// turn until the filter says stop, and the kept rows are returned (or the
/// failure reported) as the load does.
pub open spec fn load_rows(
    lower: Option<i64>,
    upper_excl: Option<i64>,
    all: bool,
    ts: Seq<i64>,
    i: int,
    kept: Seq<int>,
) -> Result<Seq<int>, BundleLoadError>
    decreases ts.len() - i,
{
    let finish = if kept.len() == 0 { Err(BundleLoadError::NoRowsInRange) } else { Ok(kept) };
    if i < 0 || i >= ts.len() || kept.len() > MAX_BUNDLED_1M_BARS {
        finish
    } else {
        match row_step_spec(lower, upper_excl, all, kept.len() as usize, ts[i]) {
            RowStep::Skip => load_rows(lower, upper_excl, all, ts, i + 1, kept),
            RowStep::Stop => finish,
            RowStep::Keep => load_rows(lower, upper_excl, all, ts, i + 1, kept.push(i)),
            RowStep::KeepThenStop => Ok(kept.push(i)),
            RowStep::TooMany => Err(BundleLoadError::TooManyRows),
        }
    }
}

/// The whole-file load: reading a file through a fresh filter keeps exactly
/// the rows of the window, in file order. A dated load fails when none or more
/// than the cap fall in the window; a whole-file load fails only when the file
/// has no row, and otherwise keeps its first rows up to the cap.
pub proof fn lemma_whole_load(lower: Option<i64>, upper_excl: Option<i64>, all: bool, ts: Seq<i64>)
    ensures
        ({
            let w = window_rows(lower, upper_excl, ts, 0);
            let r = load_rows(lower, upper_excl, all, ts, 0, Seq::empty());
            &&& w.len() == 0 ==> r == Err::<Seq<int>, BundleLoadError>(BundleLoadError::NoRowsInRange)
            &&& (!all && w.len() > MAX_BUNDLED_1M_BARS) ==> r == Err::<Seq<int>, BundleLoadError>(
                BundleLoadError::TooManyRows,
            )
            &&& (!all && 0 < w.len() <= MAX_BUNDLED_1M_BARS) ==> r == Ok::<Seq<int>, BundleLoadError>(w)
            &&& (all && w.len() > 0) ==> r == Ok::<Seq<int>, BundleLoadError>(
                w.take(if w.len() <= MAX_BUNDLED_1M_BARS { w.len() as int } else { MAX_BUNDLED_1M_BARS as int }),
            )
        }),
{
    lemma_load_rows_from(lower, upper_excl, all, ts, 0, Seq::empty());
    assert(Seq::<int>::empty() + window_rows(lower, upper_excl, ts, 0) =~= window_rows(lower, upper_excl, ts, 0));
}

proof fn lemma_load_rows_from(
    lower: Option<i64>,
    upper_excl: Option<i64>,
    all: bool,
    ts: Seq<i64>,
    i: int,
    kept: Seq<int>,
)
    requires
        0 <= i,
        kept.len() <= MAX_BUNDLED_1M_BARS,
        all ==> kept.len() < MAX_BUNDLED_1M_BARS,
    ensures
        ({
            let t = kept + window_rows(lower, upper_excl, ts, i);
            let r = load_rows(lower, upper_excl, all, ts, i, kept);
            &&& t.len() == 0 ==> r == Err::<Seq<int>, BundleLoadError>(BundleLoadError::NoRowsInRange)
            &&& (!all && t.len() > MAX_BUNDLED_1M_BARS) ==> r == Err::<Seq<int>, BundleLoadError>(
                BundleLoadError::TooManyRows,
            )
            &&& (!all && 0 < t.len() <= MAX_BUNDLED_1M_BARS) ==> r == Ok::<Seq<int>, BundleLoadError>(t)
            &&& (all && t.len() > 0) ==> r == Ok::<Seq<int>, BundleLoadError>(
                t.take(if t.len() <= MAX_BUNDLED_1M_BARS { t.len() as int } else { MAX_BUNDLED_1M_BARS as int }),
            )
        }),
    decreases ts.len() - i,
{
    let w = window_rows(lower, upper_excl, ts, i);
    if i >= ts.len() {
        assert(kept + w =~= kept);
        assert(kept.take(kept.len() as int) =~= kept);
    } else {
        let step = row_step_spec(lower, upper_excl, all, kept.len() as usize, ts[i]);
        let w1 = window_rows(lower, upper_excl, ts, i + 1);
        match step {
            RowStep::Skip => {
                lemma_load_rows_from(lower, upper_excl, all, ts, i + 1, kept);
            },
            RowStep::Stop => {
                assert(kept + w =~= kept);
                assert(kept.take(kept.len() as int) =~= kept);
            },
            RowStep::Keep => {
                lemma_load_rows_from(lower, upper_excl, all, ts, i + 1, kept.push(i));
                assert(w == seq![i] + w1);
                assert(kept.push(i) + w1 =~= kept + w);
            },
            RowStep::KeepThenStop => {
                assert(w == seq![i] + w1);
                assert((kept + w).take(MAX_BUNDLED_1M_BARS as int) =~= kept.push(i));
            },
            RowStep::TooMany => {
                assert(w == seq![i] + w1);
            },
        }
    }
}

impl BundleRowFilter {
    /// Never more rows kept than the cap.
    #[verifier::type_invariant]
    spec fn well_formed(&self) -> bool {
        self.kept <= MAX_BUNDLED_1M_BARS
    }

    pub closed spec fn lower_spec(&self) -> Option<i64> {
        self.lower
    }

    pub closed spec fn upper_spec(&self) -> Option<i64> {
        self.upper_excl
    }

    pub closed spec fn all_spec(&self) -> bool {
        self.all
    }

    pub closed spec fn kept_spec(&self) -> usize {
        self.kept
    }

    /// A fresh filter for the window `bounds` (from `bundle_time_bounds`).
    pub fn new(bounds: (Option<i64>, Option<i64>), all: bool) -> (r: Self)
        ensures
            r.lower_spec() == bounds.0,
            r.upper_spec() == bounds.1,
            r.all_spec() == all,
            r.kept_spec() == 0,
    {
        BundleRowFilter { lower: bounds.0, upper_excl: bounds.1, all, kept: 0 }
    }

    /// Number of rows kept so far.
    pub fn kept(&self) -> (r: usize)
        ensures
            r == self.kept_spec(),
            r <= MAX_BUNDLED_1M_BARS,
    {
        proof {
            use_type_invariant(self);
        }
        self.kept
    }

    /// Decides what to do with the next row, whose close time is `ts` unix
    /// seconds, and counts it when it is kept. On `TooMany` the load fails and
    /// the count stays at the cap.
    pub fn step(&mut self, ts: i64) -> (r: RowStep)
        ensures
            r == row_step_spec(old(self).lower_spec(), old(self).upper_spec(), old(self).all_spec(), old(self).kept_spec(), ts),
            final(self).lower_spec() == old(self).lower_spec(),
            final(self).upper_spec() == old(self).upper_spec(),
            final(self).all_spec() == old(self).all_spec(),
            final(self).kept_spec() == if r is Keep || r is KeepThenStop {
                (old(self).kept_spec() + 1) as usize
            } else {
                old(self).kept_spec()
            },
            final(self).kept_spec() <= MAX_BUNDLED_1M_BARS,
    {
        proof {
            use_type_invariant(&*self);
        }
        if let Some(lo) = self.lower {
            if ts < lo {
                return RowStep::Skip;
            }
        }
        if let Some(hi) = self.upper_excl {
            if ts >= hi {
                return RowStep::Stop;
            }
        }
        if self.kept + 1 > MAX_BUNDLED_1M_BARS {
            return RowStep::TooMany;
        }
        self.kept = self.kept + 1;
        if self.all && self.kept == MAX_BUNDLED_1M_BARS {
            return RowStep::KeepThenStop;
        }
        RowStep::Keep
    }

    /// The outcome once reading has ended: the number of kept rows, which
    /// must be positive.
    pub fn finish(&self) -> (r: Result<usize, BundleLoadError>)
        ensures
            self.kept_spec() == 0 ==> r == Err::<usize, BundleLoadError>(BundleLoadError::NoRowsInRange),
            self.kept_spec() > 0 ==> r == Ok::<usize, BundleLoadError>(self.kept_spec()),
    {
        if self.kept == 0 {
            Err(BundleLoadError::NoRowsInRange)
        } else {
            Ok(self.kept)
        }
    }
}


/// The columns of a bundled CSV row, in order.
#[derive(Copy, Clone, Debug, PartialEq, Eq, Structural)]
pub enum CsvColumn {
    Timestamp,
    Open,
    High,
    Low,
    Close,
    Volume,
}

/// Column `k` of the row layout.
pub open spec fn column_at(k: int) -> CsvColumn {
    if k == 0 {
        CsvColumn::Timestamp
    } else if k == 1 {
        CsvColumn::Open
    } else if k == 2 {
        CsvColumn::High
    } else if k == 3 {
        CsvColumn::Low
    } else if k == 4 {
        CsvColumn::Close
    } else {
        CsvColumn::Volume
    }
}

/// Position of the first comma in `s`, if any.
pub open spec fn first_comma(s: Seq<char>) -> Option<int> {
    if exists|i: int| 0 <= i < s.len() && s[i] == ',' {
        Some(choose|i: int| 0 <= i < s.len() && s[i] == ',' && forall|j: int| 0 <= j < i ==> s[j] != ',')
    } else {
        None
    }
}

/// `s` split at its first `n - 1` commas into at most `n` parts (the last
/// part keeps any further commas), as `str::splitn(n, ',')` does.
#[verifier::opaque]
pub open spec fn split_commas(s: Seq<char>, n: nat) -> Seq<Seq<char>>
    decreases n,
{
    if n <= 1 {
        seq![s]
    } else {
        match first_comma(s) {
            Some(i) => seq![s.subrange(0, i)] + split_commas(s.subrange(i + 1, s.len() as int), (n - 1) as nat),
            None => seq![s],
        }
    }
}

proof fn lemma_split_commas_nonempty(s: Seq<char>, n: nat)
    ensures
        split_commas(s, n).len() >= 1,
        split_commas(s, n).len() <= if n == 0 { 1 } else { n as int },
    decreases n,
{
    reveal(split_commas);
    if n > 1 {
        if let Some(i) = first_comma(s) {
            lemma_split_commas_nonempty(s.subrange(i + 1, s.len() as int), (n - 1) as nat);
        }
    }
}

/// Splitting at a comma that is the first one after `start`.
proof fn lemma_split_at_comma(whole: Seq<char>, start: int, i: int, n: nat)
    requires
        0 <= start <= i < whole.len(),
        whole[i] == ',',
        forall|j: int| start <= j < i ==> whole[j] != ',',
        n >= 2,
    ensures
        split_commas(whole.subrange(start, whole.len() as int), n) == seq![whole.subrange(start, i)]
            + split_commas(whole.subrange(i + 1, whole.len() as int), (n - 1) as nat),
{
    reveal(split_commas);
    let rest = whole.subrange(start, whole.len() as int);
    let c = i - start;
    assert(rest[c] == ',');
    assert forall|k: int| 0 <= k < c implies rest[k] != ',' by {
        assert(rest[k] == whole[start + k]);
    }
    let w = choose|k: int| 0 <= k < rest.len() && rest[k] == ',' && forall|j: int| 0 <= j < k ==> rest[j] != ',';
    assert(w == c) by {
        if w < c {
            assert(rest[w] != ',');
        } else if w > c {
            assert(rest[c] != ',');
        }
    }
    assert(first_comma(rest) == Some(c));
    assert(rest.subrange(0, c) =~= whole.subrange(start, i));
    assert(rest.subrange(c + 1, rest.len() as int) =~= whole.subrange(i + 1, whole.len() as int));
}

/// With no comma after `start`, the rest is a single part.
proof fn lemma_split_no_comma(whole: Seq<char>, start: int, n: nat)
    requires
        0 <= start <= whole.len(),
        forall|j: int| start <= j < whole.len() ==> whole[j] != ',',
    ensures
        split_commas(whole.subrange(start, whole.len() as int), n) == seq![whole.subrange(start, whole.len() as int)],
{
    reveal(split_commas);
    let rest = whole.subrange(start, whole.len() as int);
    assert forall|k: int| 0 <= k < rest.len() implies rest[k] != ',' by {
        assert(rest[k] == whole[start + k]);
    }
}

/// Splits a bundled CSV row into its six raw fields (timestamp, open, high,
/// low, close, volume), the last keeping any further commas. A row with fewer
/// fields names the first missing column.
pub fn csv_candle_fields<'a>(line: &'a str) -> (r: Result<Vec<&'a str>, CsvColumn>)
    ensures
        split_commas(line@, 6).len() == 6 ==> (r is Ok && r->Ok_0@.len() == 6 && forall|k: int|
            0 <= k < 6 ==> (#[trigger] r->Ok_0@[k])@ == split_commas(line@, 6)[k]),
        split_commas(line@, 6).len() < 6 ==> r == Err::<Vec<&'a str>, CsvColumn>(column_at(split_commas(line@, 6).len() as int)),
{
    let chars = chars_of(line);
    let mut fields: Vec<&'a str> = Vec::new();
    let mut start: usize = 0;
    let ghost whole = line@;
    let ghost mut views: Seq<Seq<char>> = Seq::empty();
    proof {
        lemma_split_commas_nonempty(whole, 6);
        assert(whole.subrange(0, whole.len() as int) =~= whole);
        assert(split_commas(whole, 6) =~= views + split_commas(whole.subrange(0, whole.len() as int), 6));
    }
    while fields.len() < 5
        invariant
            chars@ == whole,
            line@ == whole,
            start <= whole.len(),
            fields@.len() <= 5,
            views.len() == fields@.len(),
            forall|k: int| 0 <= k < views.len() ==> (#[trigger] fields@[k])@ == views[k],
            split_commas(whole, 6) == views + split_commas(whole.subrange(start as int, whole.len() as int), (6 - fields@.len()) as nat),
        decreases 5 - fields@.len(),
    {
        let mut i = start;
        while i < chars.len() && chars[i] != ','
            invariant
                chars@ == whole,
                start <= i <= whole.len(),
                forall|j: int| start <= j < i ==> whole[j] != ',',
            decreases chars.len() - i,
        {
            i = i + 1;
        }
        if i == chars.len() {
            proof {
                lemma_split_no_comma(whole, start as int, (6 - fields@.len()) as nat);
                assert(split_commas(whole, 6).len() == fields@.len() + 1);
            }
            let missing = match fields.len() {
                0 => CsvColumn::Open,
                1 => CsvColumn::High,
                2 => CsvColumn::Low,
                3 => CsvColumn::Close,
                _ => CsvColumn::Volume,
            };
            return Err(missing);
        }
        let piece = line.substring_char(start, i);
        proof {
            lemma_split_at_comma(whole, start as int, i as int, (6 - fields@.len()) as nat);
            assert(views + (seq![whole.subrange(start as int, i as int)] + split_commas(whole.subrange(i + 1, whole.len() as int), (6 - fields@.len() - 1) as nat))
                =~= views.push(whole.subrange(start as int, i as int)) + split_commas(whole.subrange(i + 1, whole.len() as int), (6 - fields@.len() - 1) as nat));
            views = views.push(whole.subrange(start as int, i as int));
        }
        fields.push(piece);
        start = i + 1;
    }
    let last = line.substring_char(start, chars.len());
    proof {
        assert(split_commas(whole.subrange(start as int, whole.len() as int), 1) == seq![whole.subrange(start as int, whole.len() as int)]) by {
            reveal(split_commas);
        }
        views = views.push(whole.subrange(start as int, whole.len() as int));
    }
    fields.push(last);
    proof {
        assert(split_commas(whole, 6) =~= views);
    }
    Ok(fields)
}

} // verus!
