//! The day chunks in which a signal-frequency replay walks the bundled
//! history: each chunk counts up to `CHUNK_DAYS` days and loads up to
//! `WARMUP_DAYS` earlier days (never before the first day) to warm the
//! indicators up. Days are numbered consecutively (one number per UTC day).

use vstd::prelude::*;

verus! {

/// Days counted per chunk.
pub const CHUNK_DAYS: i64 = 180;

/// Days loaded before a chunk's first counted day.
pub const WARMUP_DAYS: i64 = 2;

/// One replay chunk: days `load_start..=end` are loaded, and the bars of days
/// `count_start..=end` are counted.
#[derive(Copy, Clone, Debug, PartialEq, Eq, Structural)]
pub struct DayChunk {
    pub load_start: i64,
    pub count_start: i64,
    pub end: i64,
}

/// The last counted day of the chunk that starts at `start`.
pub open spec fn chunk_end(start: int, last: int) -> int {
    if start + CHUNK_DAYS - 1 <= last {
        start + CHUNK_DAYS - 1
    } else {
        last
    }
}

/// The first loaded day of the chunk that starts at `start`.
pub open spec fn chunk_load_start(start: int, first: int) -> int {
    if start > first + WARMUP_DAYS {
        start - WARMUP_DAYS
    } else {
        first
    }
}

/// The chunks, as `(load_start, count_start, end)`, that cover the days
/// `start..=last` of a history whose first day is `first`.
pub open spec fn chunks_from(start: int, first: int, last: int) -> Seq<(int, int, int)>
    decreases last - start + 1,
{
    if start > last {
        Seq::empty()
    } else {
        seq![(chunk_load_start(start, first), start, chunk_end(start, last))] + chunks_from(
            chunk_end(start, last) + 1,
            first,
            last,
        )
    }
}

/// The view of a chunk as a triple of integers.
pub open spec fn chunk_view(c: DayChunk) -> (int, int, int) {
    (c.load_start as int, c.count_start as int, c.end as int)
}

/// Plans the chunks that walk the days `first_day..=last_day` (none when
/// `last_day < first_day`).
pub fn plan_signal_chunks(first_day: i64, last_day: i64) -> (r: Vec<DayChunk>)
    requires
        i64::MIN + WARMUP_DAYS <= first_day,
        last_day <= i64::MAX - CHUNK_DAYS,
    ensures
        r@.map_values(|c: DayChunk| chunk_view(c)) == chunks_from(first_day as int, first_day as int, last_day as int),
        r@.len() > 0 <==> first_day <= last_day,
        r@.len() > 0 ==> r@[0].count_start == first_day && r@[r@.len() - 1].end == last_day,
        forall|i: int|
            0 <= i < r@.len() - 1 ==> (#[trigger] r@[i]).end == r@[i].count_start + CHUNK_DAYS - 1 && r@[i
                + 1].count_start == r@[i].end + 1,
        forall|i: int|
            0 <= i < r@.len() ==> {
                &&& (#[trigger] r@[i]).count_start <= r@[i].end < r@[i].count_start + CHUNK_DAYS
                &&& r@[i].load_start == (if r@[i].count_start > first_day + WARMUP_DAYS {
                    r@[i].count_start - WARMUP_DAYS
                } else {
                    first_day as int
                })
            },
{
    let mut out: Vec<DayChunk> = Vec::new();
    let mut start: i64 = first_day;
    while start <= last_day
        invariant
            i64::MIN + WARMUP_DAYS <= first_day,
            last_day <= i64::MAX - CHUNK_DAYS,
            first_day <= start,
            out@.map_values(|c: DayChunk| chunk_view(c)) + chunks_from(start as int, first_day as int, last_day as int)
                == chunks_from(first_day as int, first_day as int, last_day as int),
        decreases last_day - start + 1,
    {
        let end: i64 = if start + (CHUNK_DAYS - 1) <= last_day {
            start + (CHUNK_DAYS - 1)
        } else {
            last_day
        };
        let load_start: i64 = if start > first_day + WARMUP_DAYS {
            start - WARMUP_DAYS
        } else {
            first_day
        };
        let ghost before = out@.map_values(|c: DayChunk| chunk_view(c));
        out.push(DayChunk { load_start, count_start: start, end });
        proof {
            assert(out@.map_values(|c: DayChunk| chunk_view(c)) =~= before.push(
                (load_start as int, start as int, end as int),
            ));
            assert(chunks_from(start as int, first_day as int, last_day as int) == seq![
                (load_start as int, start as int, end as int),
            ] + chunks_from(end + 1, first_day as int, last_day as int));
            assert(before.push((load_start as int, start as int, end as int)) + chunks_from(
                end + 1,
                first_day as int,
                last_day as int,
            ) =~= before + chunks_from(start as int, first_day as int, last_day as int));
        }
        start = end + 1;
    }
    proof {
        assert(out@.map_values(|c: DayChunk| chunk_view(c)) + chunks_from(
            start as int,
            first_day as int,
            last_day as int,
        ) =~= out@.map_values(|c: DayChunk| chunk_view(c)));
        let cs = chunks_from(first_day as int, first_day as int, last_day as int);
        lemma_chunks_partition(first_day as int, first_day as int, last_day as int);
        assert forall|i: int| 0 <= i < out@.len() implies #[trigger] chunk_view(out@[i]) == cs[i] by {
            assert(out@.map_values(|c: DayChunk| chunk_view(c))[i] == chunk_view(out@[i]));
        }
        assert forall|i: int| 0 <= i < out@.len() - 1 implies (#[trigger] out@[i]).end == out@[i].count_start
            + CHUNK_DAYS - 1 && out@[i + 1].count_start == out@[i].end + 1 by {
            assert(chunk_view(out@[i]) == cs[i]);
            assert(chunk_view(out@[i + 1]) == cs[i + 1]);
            assert(cs[i].2 == cs[i].1 + CHUNK_DAYS - 1);
            assert(cs[i + 1].1 == cs[i].2 + 1);
        }
        assert forall|i: int| 0 <= i < out@.len() implies {
            &&& (#[trigger] out@[i]).count_start <= out@[i].end < out@[i].count_start + CHUNK_DAYS
            &&& out@[i].load_start == (if out@[i].count_start > first_day + WARMUP_DAYS {
                out@[i].count_start - WARMUP_DAYS
            } else {
                first_day as int
            })
        } by {
            assert(chunk_view(out@[i]) == cs[i]);
            assert(cs[i].1 <= cs[i].2);
            assert(cs[i].0 == (if cs[i].1 > first_day + WARMUP_DAYS {
                cs[i].1 - WARMUP_DAYS
            } else {
                first_day as int
            }));
        }
        if out@.len() > 0 {
            assert(chunk_view(out@[0]) == cs[0]);
            assert(chunk_view(out@[out@.len() - 1]) == cs[cs.len() - 1]);
        }
    }
    out
}

/// The chunks walk the days in order and count each day of `start..=last`
/// exactly once: the first counts from `start`, each next one from the day
/// after the previous end, the last ends on `last`; each counts at most
/// `CHUNK_DAYS` days and every chunk but the last exactly that many, and each
/// loads from `WARMUP_DAYS` days before its first counted day, or from `first`
/// when that is earlier.
pub proof fn lemma_chunks_partition(start: int, first: int, last: int)
    requires
        first <= start,
    ensures
        ({
            let cs = chunks_from(start, first, last);
            &&& (start <= last <==> cs.len() > 0)
            &&& cs.len() > 0 ==> cs[0].1 == start && cs[cs.len() - 1].2 == last
            &&& forall|i: int|
                0 <= i < cs.len() ==> {
                    &&& #[trigger] cs[i].1 <= cs[i].2
                    &&& cs[i].2 - cs[i].1 < CHUNK_DAYS
                    &&& first <= cs[i].0 <= cs[i].1
                    &&& cs[i].1 - cs[i].0 <= WARMUP_DAYS
                    &&& start <= cs[i].1
                    &&& cs[i].2 <= last
                }
            &&& forall|i: int| 0 <= i < cs.len() - 1 ==> #[trigger] cs[i + 1].1 == cs[i].2 + 1
            &&& forall|i: int| 0 <= i < cs.len() - 1 ==> #[trigger] cs[i].2 == cs[i].1 + CHUNK_DAYS - 1
            &&& forall|i: int|
                0 <= i < cs.len() ==> #[trigger] cs[i].0 == (if cs[i].1 > first + WARMUP_DAYS {
                    cs[i].1 - WARMUP_DAYS
                } else {
                    first
                })
        }),
    decreases last - start + 1,
{
    if start <= last {
        let end = chunk_end(start, last);
        lemma_chunks_partition(end + 1, first, last);
        let rest = chunks_from(end + 1, first, last);
        let head = (chunk_load_start(start, first), start, end);
        let cs = chunks_from(start, first, last);
        assert(cs == seq![head] + rest);
        assert forall|i: int| 0 <= i < cs.len() - 1 implies #[trigger] cs[i].2 == cs[i].1 + CHUNK_DAYS - 1 by {
            if i > 0 {
                assert(cs[i] == rest[i - 1]);
            } else {
                assert(rest.len() > 0);
                assert(end + 1 <= last);
            }
        }
        assert forall|i: int| 0 <= i < cs.len() implies #[trigger] cs[i].0 == (if cs[i].1 > first + WARMUP_DAYS {
            cs[i].1 - WARMUP_DAYS
        } else {
            first
        }) by {
            if i > 0 {
                assert(cs[i] == rest[i - 1]);
            }
        }
        assert forall|i: int| 0 <= i < cs.len() - 1 implies #[trigger] cs[i + 1].1 == cs[i].2 + 1 by {
            if i > 0 {
                assert(cs[i] == rest[i - 1]);
                assert(cs[i + 1] == rest[(i - 1) + 1]);
            } else {
                assert(cs[1] == rest[0]);
            }
        }
        assert forall|i: int| 0 <= i < cs.len() implies {
            &&& #[trigger] cs[i].1 <= cs[i].2
            &&& cs[i].2 - cs[i].1 < CHUNK_DAYS
            &&& first <= cs[i].0 <= cs[i].1
            &&& cs[i].1 - cs[i].0 <= WARMUP_DAYS
            &&& start <= cs[i].1
            &&& cs[i].2 <= last
        } by {
            if i > 0 {
                assert(cs[i] == rest[i - 1]);
            }
        }
        if rest.len() > 0 {
            assert(cs[cs.len() - 1] == rest[rest.len() - 1]);
        }
    }
}

/// Every day of `first..=last` is counted by exactly one chunk of the plan.
pub proof fn lemma_each_day_counted_once(first: int, last: int, day: int)
    requires
        first <= day <= last,
    ensures
        ({
            let cs = chunks_from(first, first, last);
            &&& exists|i: int| 0 <= i < cs.len() && #[trigger] cs[i].1 <= day <= cs[i].2
            &&& forall|i: int, j: int|
                #![trigger cs[i], cs[j]]
                0 <= i < cs.len() && 0 <= j < cs.len() && cs[i].1 <= day <= cs[i].2 && cs[j].1 <= day <= cs[j].2
                    ==> i == j
        }),
{
    let cs = chunks_from(first, first, last);
    lemma_chunks_partition(first, first, last);
    lemma_count_starts_increase(cs, first, last);
    // The chunk holding `day` is the last one that starts on or before it.
    let k = last_start_at_or_before(cs, day, cs.len() - 1);
    assert(cs[k].1 <= day <= cs[k].2) by {
        if k < cs.len() - 1 {
            assert(day < cs[k + 1].1);
            assert(cs[k + 1].1 == cs[k].2 + 1);
        }
    }
    assert forall|i: int, j: int|
        #![trigger cs[i], cs[j]]
        0 <= i < cs.len() && 0 <= j < cs.len() && cs[i].1 <= day <= cs[i].2 && cs[j].1 <= day <= cs[j].2
            implies i == j by {
        if i < j {
            assert(cs[i].2 < cs[i + 1].1);
            assert(cs[i + 1].1 <= cs[j].1);
        } else if j < i {
            assert(cs[j].2 < cs[j + 1].1);
            assert(cs[j + 1].1 <= cs[i].1);
        }
    }
}

/// Count starts grow along the plan.
proof fn lemma_count_starts_increase(cs: Seq<(int, int, int)>, first: int, last: int)
    requires
        cs == chunks_from(first, first, last),
        forall|i: int| 0 <= i < cs.len() ==> #[trigger] cs[i].1 <= cs[i].2,
        forall|i: int| 0 <= i < cs.len() - 1 ==> #[trigger] cs[i + 1].1 == cs[i].2 + 1,
    ensures
        forall|i: int, j: int| #![trigger cs[i], cs[j]] 0 <= i < j < cs.len() ==> cs[i].2 < cs[j].1,
{
    assert forall|i: int, j: int| #![trigger cs[i], cs[j]] 0 <= i < j < cs.len() implies cs[i].2 < cs[j].1 by {
        lemma_start_after(cs, i, j);
    }
}

proof fn lemma_start_after(cs: Seq<(int, int, int)>, i: int, j: int)
    requires
        0 <= i < j < cs.len(),
        forall|k: int| 0 <= k < cs.len() ==> #[trigger] cs[k].1 <= cs[k].2,
        forall|k: int| 0 <= k < cs.len() - 1 ==> #[trigger] cs[k + 1].1 == cs[k].2 + 1,
    ensures
        cs[i].2 < cs[j].1,
    decreases j - i,
{
    assert(cs[i + 1].1 == cs[i].2 + 1);
    if j > i + 1 {
        lemma_start_after(cs, i + 1, j);
        assert(cs[i + 1].1 <= cs[i + 1].2);
    }
}

/// The last chunk among `0..=k` whose count starts on or before `day`, given
/// that the first one does.
proof fn last_start_at_or_before(cs: Seq<(int, int, int)>, day: int, k: int) -> (r: int)
    requires
        0 <= k < cs.len(),
        cs[0].1 <= day,
    ensures
        0 <= r <= k,
        cs[r].1 <= day,
        forall|m: int| r < m <= k ==> day < #[trigger] cs[m].1,
    decreases k,
{
    if k == 0 || cs[k].1 <= day {
        k
    } else {
        last_start_at_or_before(cs, day, k - 1)
    }
}

} // verus!
