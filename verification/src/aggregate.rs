//! Grouping of base bars into higher-timeframe bars.

use vstd::prelude::*;

verus! {

/// How a series is rolled up into higher-timeframe bars.
#[derive(Clone, Debug, PartialEq, Eq)]
pub enum HigherTfPlan {
    /// A factor of one (with at least one bar): every bar stays as it is.
    Unchanged,
    /// Each `(start, end)` is the half-open row range of one higher bar.
    Groups(Vec<(usize, usize)>),
}

/// Why a series cannot be rolled up.
#[derive(Copy, Clone, Debug, PartialEq, Eq, Structural)]
pub enum AggregateError {
    /// A factor of zero.
    ZeroFactor,
    /// Fewer bars than one group needs.
    TooFewCandles { candles: usize, factor: usize },
}

/// Row range of higher bar `g` for a factor.
pub open spec fn group_range(g: int, factor: int) -> (int, int) {
    (g * factor, (g + 1) * factor)
}

/// Plans the roll-up of `candle_count` consecutive bars by grouping every
/// `factor` of them; a trailing incomplete group is dropped. Errors when the
/// factor is zero or no complete group can be formed.
pub fn plan_higher_tf(candle_count: usize, factor: usize) -> (r: Result<HigherTfPlan, AggregateError>)
    ensures
        r is Err <==> (factor == 0 || candle_count < factor),
        factor == 0 ==> r == Err::<HigherTfPlan, AggregateError>(AggregateError::ZeroFactor),
        factor == 1 && candle_count >= 1 ==> r is Ok && r->Ok_0 is Unchanged,
        factor >= 1 && candle_count < factor ==> r == Err::<HigherTfPlan, AggregateError>(
            AggregateError::TooFewCandles { candles: candle_count, factor },
        ),
        factor > 1 && candle_count >= factor ==> (r matches Ok(HigherTfPlan::Groups(groups)) && {
            &&& groups@.len() == candle_count / factor
            &&& forall|g: int|
                0 <= g < groups@.len() ==> (#[trigger] groups@[g]).0 == group_range(g, factor as int).0
                    && groups@[g].1 == group_range(g, factor as int).1
            &&& groups@[0].0 == 0
            &&& forall|g: int| 0 <= g < groups@.len() ==> (#[trigger] groups@[g]).1 == groups@[g].0 + factor
            &&& forall|g: int| 0 < g < groups@.len() ==> (#[trigger] groups@[g]).0 == groups@[g - 1].1
            &&& groups@[groups@.len() - 1].1 <= candle_count < groups@[groups@.len() - 1].1 + factor
        }),
{
    if factor == 0 {
        return Err(AggregateError::ZeroFactor);
    }
    if candle_count < factor {
        return Err(AggregateError::TooFewCandles { candles: candle_count, factor });
    }
    if factor == 1 {
        return Ok(HigherTfPlan::Unchanged);
    }
    let complete_groups = candle_count / factor;
    proof {
        if candle_count < factor {
            vstd::arithmetic::div_mod::lemma_basic_div(candle_count as int, factor as int);
        } else {
            vstd::arithmetic::div_mod::lemma_div_is_ordered(factor as int, candle_count as int, factor as int);
            vstd::arithmetic::div_mod::lemma_div_basics(factor as int);
        }
    }
    if complete_groups == 0 {
        return Err(AggregateError::TooFewCandles { candles: candle_count, factor });
    }
    let mut groups: Vec<(usize, usize)> = Vec::new();
    let mut g: usize = 0;
    let mut start: usize = 0;
    while g < complete_groups
        invariant
            factor > 1,
            complete_groups == candle_count / factor,
            g <= complete_groups,
            start == g * factor,
            groups@.len() == g,
            forall|h: int|
                0 <= h < g ==> (#[trigger] groups@[h]).0 == group_range(h, factor as int).0
                    && groups@[h].1 == group_range(h, factor as int).1,
        decreases complete_groups - g,
    {
        proof {
            assert((g + 1) * factor <= complete_groups * factor) by (nonlinear_arith)
                requires
                    g + 1 <= complete_groups,
                    factor > 1,
            ;
            assert(complete_groups * factor <= candle_count) by (nonlinear_arith)
                requires
                    complete_groups == candle_count / factor,
                    factor > 1,
            ;
            assert((g + 1) * factor == g * factor + factor) by (nonlinear_arith);
        }
        let end = start + factor;
        groups.push((start, end));
        start = end;
        g = g + 1;
    }
    proof {
        assert forall|g: int| 0 <= g < groups@.len() implies (#[trigger] groups@[g]).1 == groups@[g].0 + factor by {
            assert((g + 1) * factor == g * factor + factor) by (nonlinear_arith);
        }
        assert forall|g: int| 0 < g < groups@.len() implies (#[trigger] groups@[g]).0 == groups@[g - 1].1 by {
            assert(groups@[g - 1].1 == group_range(g - 1, factor as int).1);
        }
        let n = complete_groups as int;
        assert(groups@[n - 1].1 == n * factor);
        vstd::arithmetic::div_mod::lemma_fundamental_div_mod(candle_count as int, factor as int);
        assert(candle_count == factor * n + candle_count % factor);
        assert(n * factor == factor * n) by (nonlinear_arith);
    }
    Ok(HigherTfPlan::Groups(groups))
}


/// Seconds in one 15-minute bucket.
pub const FIFTEEN_MINUTES_SECS: i64 = 900;

/// One-minute bars in a complete 15-minute bucket.
pub const BARS_PER_FIFTEEN_MINUTES: usize = 15;

/// The 15-minute bucket of a one-minute bar that closes at unix second `ts`:
/// a bar closing exactly on a quarter hour belongs to the bucket it ends.
pub open spec fn bucket_of(ts: i64) -> int {
    (ts - 1) / (FIFTEEN_MINUTES_SECS as int)
}

/// A one-minute bar closing at `ts` belongs to bucket `k` exactly when it
/// closes after the quarter hour `900 k` and no later than `900 (k + 1)`.
pub proof fn lemma_bucket_bounds(ts: i64, k: int)
    ensures
        bucket_of(ts) == k <==> 900 * k < ts <= 900 * (k + 1),
{
    let x = ts - 1;
    assert(bucket_of(ts) == x / 900);
    assert(x == 900 * (x / 900) + x % 900 && 0 <= x % 900 < 900) by {
        vstd::arithmetic::div_mod::lemma_fundamental_div_mod(x, 900);
    }
    if 900 * k < ts <= 900 * (k + 1) {
        assert(x / 900 == k) by (nonlinear_arith)
            requires
                x == 900 * (x / 900) + x % 900,
                0 <= x % 900 < 900,
                900 * k <= x < 900 * k + 900,
        ;
    }
}

/// Rows `s..e` all fall in the bucket of row `s`.
pub open spec fn one_bucket(ts: Seq<i64>, s: int, e: int) -> bool {
    forall|k: int| s <= k < e ==> #[trigger] bucket_of(ts[k]) == bucket_of(ts[s])
}

/// Rows `s..e` are a maximal run of consecutive rows sharing one bucket, and
/// there are exactly fifteen of them.
pub open spec fn is_full_bucket(ts: Seq<i64>, s: int, e: int) -> bool {
    &&& 0 <= s < e <= ts.len()
    &&& e - s == BARS_PER_FIFTEEN_MINUTES
    &&& one_bucket(ts, s, e)
    &&& (s == 0 || bucket_of(ts[s - 1]) != bucket_of(ts[s]))
    &&& (e == ts.len() || bucket_of(ts[e]) != bucket_of(ts[e - 1]))
}

/// Groups one-minute bars (by their close times in unix seconds, oldest first)
/// into 15-minute buckets: each maximal run of consecutive bars in the same
/// bucket forms a group, and only runs of exactly fifteen bars are kept.
pub fn fifteen_minute_groups(close_secs: &[i64]) -> (r: Vec<(usize, usize)>)
    requires
        forall|k: int| 0 <= k < close_secs@.len() ==> #[trigger] close_secs@[k] > i64::MIN,
    ensures
        forall|k: int| 0 <= k < r@.len() ==> is_full_bucket(close_secs@, (#[trigger] r@[k]).0 as int, r@[k].1 as int),
        forall|k: int, l: int| 0 <= k < l < r@.len() ==> (#[trigger] r@[k]).1 <= (#[trigger] r@[l]).0,
        forall|s: int, e: int| #[trigger] is_full_bucket(close_secs@, s, e) ==> exists|k: int| 0 <= k < r@.len() && (#[trigger] r@[k]) == (s as usize, e as usize),
{
    let ghost ts = close_secs@;
    let n = close_secs.len();
    let mut groups: Vec<(usize, usize)> = Vec::new();
    if n == 0 {
        return groups;
    }
    let mut run_start: usize = 0;
    let mut current: i64 = (close_secs[0] - 1).checked_div_euclid(FIFTEEN_MINUTES_SECS).unwrap();
    let mut i: usize = 1;
    while i < n
        invariant
            ts == close_secs@,
            n == ts.len(),
            forall|k: int| 0 <= k < ts.len() ==> #[trigger] ts[k] > i64::MIN,
            run_start < i <= n,
            current == bucket_of(ts[run_start as int]),
            one_bucket(ts, run_start as int, i as int),
            run_start == 0 || bucket_of(ts[run_start - 1]) != bucket_of(ts[run_start as int]),
            forall|k: int| 0 <= k < groups@.len() ==> is_full_bucket(ts, (#[trigger] groups@[k]).0 as int, groups@[k].1 as int),
            forall|k: int| 0 <= k < groups@.len() ==> (#[trigger] groups@[k]).1 <= run_start,
            forall|k: int, l: int| 0 <= k < l < groups@.len() ==> (#[trigger] groups@[k]).1 <= (#[trigger] groups@[l]).0,
            forall|s: int, e: int| #[trigger] is_full_bucket(ts, s, e) && e <= run_start ==> exists|k: int| 0 <= k < groups@.len() && (#[trigger] groups@[k]) == (s as usize, e as usize),
        decreases n - i,
    {
        let bucket = (close_secs[i] - 1).checked_div_euclid(FIFTEEN_MINUTES_SECS).unwrap();
        if bucket != current {
            proof {
                lemma_runs_split(ts, run_start as int, i as int);
            }
            if i - run_start == BARS_PER_FIFTEEN_MINUTES {
                let ghost old_groups = groups@;
                groups.push((run_start, i));
                proof {
                    assert(is_full_bucket(ts, run_start as int, i as int));
                    assert forall|s: int, e: int| #[trigger] is_full_bucket(ts, s, e) && e <= i implies exists|k: int| 0 <= k < groups@.len() && (#[trigger] groups@[k]) == (s as usize, e as usize) by {
                        if e <= run_start {
                            let k = choose|k: int| 0 <= k < old_groups.len() && (#[trigger] old_groups[k]) == (s as usize, e as usize);
                            assert(groups@[k] == old_groups[k]);
                        } else {
                            assert(groups@[old_groups.len() as int] == (s as usize, e as usize));
                        }
                    }
                }
            }
            run_start = i;
            current = bucket;
        }
        i = i + 1;
    }
    proof {
        lemma_runs_split(ts, run_start as int, n as int);
    }
    if n - run_start == BARS_PER_FIFTEEN_MINUTES {
        let ghost old_groups = groups@;
        groups.push((run_start, n));
        proof {
            assert forall|s: int, e: int| #[trigger] is_full_bucket(ts, s, e) implies exists|k: int| 0 <= k < groups@.len() && (#[trigger] groups@[k]) == (s as usize, e as usize) by {
                if e <= run_start {
                    let k = choose|k: int| 0 <= k < old_groups.len() && (#[trigger] old_groups[k]) == (s as usize, e as usize);
                    assert(groups@[k] == old_groups[k]);
                } else {
                    assert(groups@[old_groups.len() as int] == (s as usize, e as usize));
                }
            }
        }
    }
    groups
}

/// Within the current run `run_start..i` (which starts a new bucket and ends
/// where the bucket changes or the rows end), the only full bucket that ends
/// after `run_start` is the run itself.
proof fn lemma_runs_split(ts: Seq<i64>, run_start: int, i: int)
    requires
        0 <= run_start < i <= ts.len(),
        one_bucket(ts, run_start, i),
        run_start == 0 || bucket_of(ts[run_start - 1]) != bucket_of(ts[run_start]),
        i == ts.len() || bucket_of(ts[i]) != bucket_of(ts[run_start]),
    ensures
        forall|s: int, e: int| #[trigger] is_full_bucket(ts, s, e) && run_start < e <= i ==> s == run_start && e == i,
        i - run_start == BARS_PER_FIFTEEN_MINUTES ==> is_full_bucket(ts, run_start, i),
{
    assert forall|s: int, e: int| #[trigger] is_full_bucket(ts, s, e) && run_start < e <= i implies s == run_start && e == i by {
        if s < run_start {
            assert(bucket_of(ts[run_start - 1]) == bucket_of(ts[s]));
            assert(bucket_of(ts[run_start]) == bucket_of(ts[s]));
        } else if s > run_start {
            assert(bucket_of(ts[s - 1]) == bucket_of(ts[run_start]));
            assert(bucket_of(ts[s]) == bucket_of(ts[run_start]));
        }
        if e < i {
            assert(bucket_of(ts[e]) == bucket_of(ts[run_start]));
            assert(bucket_of(ts[e - 1]) == bucket_of(ts[run_start]));
        }
    }
}

} // verus!
