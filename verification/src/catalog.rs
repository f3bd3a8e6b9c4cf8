//! Strategy catalog and flattened indicator paths for API discovery.

use vstd::prelude::*;

use crate::text::{
    chars_of, ends_with, is_literal, is_prefix_of, is_suffix_of, lemma_lex_total_at_start, lemma_lex_transitive,
    lex_less, lex_lt, same_chars, starts_with,
};
use crate::warmup::{
    WarmupConfig, min_bars_required_for_path, path_note, path_note_spec, warmup_arith_fits,
    warmup_bars, warmup_cfg_fits,
};

verus! {

pub const DESCRIPTION_DEFAULT: &'static str = "Long-only 15m BTC continuation (project default).";
pub const DESCRIPTION_MACD_TREND: &'static str = "MACD line/signal trend-style engine.";
pub const DESCRIPTION_RSI_PULLBACK: &'static str = "RSI pullback entries.";
pub const DESCRIPTION_SUPERTREND_ADX: &'static str = "SuperTrend + ADX filter.";
pub const DESCRIPTION_BB_MEAN_REVERSION: &'static str = "Bollinger mean-reversion style.";
pub const DESCRIPTION_STOCH_CROSSOVER: &'static str = "Stochastic crossover engine.";
pub const DESCRIPTION_ICHIMOKU_TREND: &'static str = "Ichimoku cloud trend filter.";
pub const DESCRIPTION_TTM_SQUEEZE_FIRE: &'static str = "TTM squeeze + momentum.";
pub const DESCRIPTION_DONCHIAN_BREAKOUT: &'static str = "Donchian channel breakout.";
pub const DESCRIPTION_OTHER: &'static str = "Strategy module.";

/// Name of the request field that labels the bar interval.
pub const BAR_INTERVAL_REQUEST_FIELD: &'static str = "bar_interval";

/// How the engine interprets each row of the series.
pub const SERIES_SEMANTICS_DETAIL: &'static str = "All indicator math is per row index. The bar_interval label is for your own logs only. The higher_tf_factor config controls how many base bars roll into one higher-TF bar for ema_fast_higher / ema_slow_higher.";

/// How the engine interprets each row in `candles`.
#[derive(Clone, Debug)]
pub struct EngineSeriesSemantics {
    pub uniform_bar_steps: bool,
    pub bar_interval_request_field: &'static str,
    pub higher_tf_factor: u32,
    pub detail: &'static str,
}

/// `GET /v1/catalog` payload.
#[derive(Clone, Debug)]
pub struct CatalogResponse {
    pub engine_series_semantics: EngineSeriesSemantics,
    pub strategies: Vec<CatalogStrategyEntry>,
    /// Same paths as `indicators[].path` (kept for older clients).
    pub indicator_paths: Vec<String>,
    pub indicators: Vec<CatalogIndicatorEntry>,
}

/// One strategy id with its one-line description.
#[derive(Clone, Debug)]
pub struct CatalogStrategyEntry {
    pub id: String,
    pub description: &'static str,
}

/// One flattened indicator path with its warm-up hint and note.
#[derive(Clone, Debug)]
pub struct CatalogIndicatorEntry {
    pub path: String,
    pub min_bars_required: Option<u32>,
    pub path_note: Option<&'static str>,
}

/// One-line description of a strategy id.
pub open spec fn description_of(id: Seq<char>) -> &'static str {
    if id == "default"@ {
        DESCRIPTION_DEFAULT
    } else if id == "macd_trend"@ {
        DESCRIPTION_MACD_TREND
    } else if id == "rsi_pullback"@ {
        DESCRIPTION_RSI_PULLBACK
    } else if id == "supertrend_adx"@ {
        DESCRIPTION_SUPERTREND_ADX
    } else if id == "bb_mean_reversion"@ {
        DESCRIPTION_BB_MEAN_REVERSION
    } else if id == "stoch_crossover"@ {
        DESCRIPTION_STOCH_CROSSOVER
    } else if id == "ichimoku_trend"@ {
        DESCRIPTION_ICHIMOKU_TREND
    } else if id == "ttm_squeeze_fire"@ {
        DESCRIPTION_TTM_SQUEEZE_FIRE
    } else if id == "donchian_breakout"@ {
        DESCRIPTION_DONCHIAN_BREAKOUT
    } else {
        DESCRIPTION_OTHER
    }
}

/// The nine strategy ids the catalog describes.
pub open spec fn is_known_strategy_id(id: Seq<char>) -> bool {
    ||| id == "default"@
    ||| id == "macd_trend"@
    ||| id == "rsi_pullback"@
    ||| id == "supertrend_adx"@
    ||| id == "bb_mean_reversion"@
    ||| id == "stoch_crossover"@
    ||| id == "ichimoku_trend"@
    ||| id == "ttm_squeeze_fire"@
    ||| id == "donchian_breakout"@
}

/// Each known strategy id has its own description, different from every
/// other one and from the generic line, and exactly the ids outside the nine
/// get the generic line.
pub proof fn lemma_strategy_descriptions(id: Seq<char>)
    ensures
        description_of("default"@) == DESCRIPTION_DEFAULT,
        description_of("macd_trend"@) == DESCRIPTION_MACD_TREND,
        description_of("rsi_pullback"@) == DESCRIPTION_RSI_PULLBACK,
        description_of("supertrend_adx"@) == DESCRIPTION_SUPERTREND_ADX,
        description_of("bb_mean_reversion"@) == DESCRIPTION_BB_MEAN_REVERSION,
        description_of("stoch_crossover"@) == DESCRIPTION_STOCH_CROSSOVER,
        description_of("ichimoku_trend"@) == DESCRIPTION_ICHIMOKU_TREND,
        description_of("ttm_squeeze_fire"@) == DESCRIPTION_TTM_SQUEEZE_FIRE,
        description_of("donchian_breakout"@) == DESCRIPTION_DONCHIAN_BREAKOUT,
        description_of(id) == DESCRIPTION_OTHER <==> !is_known_strategy_id(id),
        is_known_strategy_id(id) ==> description_of(id)@ != DESCRIPTION_OTHER@,
        DESCRIPTION_DEFAULT@ != DESCRIPTION_MACD_TREND@,
        DESCRIPTION_DEFAULT@ != DESCRIPTION_RSI_PULLBACK@,
        DESCRIPTION_DEFAULT@ != DESCRIPTION_SUPERTREND_ADX@,
        DESCRIPTION_DEFAULT@ != DESCRIPTION_BB_MEAN_REVERSION@,
        DESCRIPTION_DEFAULT@ != DESCRIPTION_STOCH_CROSSOVER@,
        DESCRIPTION_DEFAULT@ != DESCRIPTION_ICHIMOKU_TREND@,
        DESCRIPTION_DEFAULT@ != DESCRIPTION_TTM_SQUEEZE_FIRE@,
        DESCRIPTION_DEFAULT@ != DESCRIPTION_DONCHIAN_BREAKOUT@,
        DESCRIPTION_MACD_TREND@ != DESCRIPTION_RSI_PULLBACK@,
        DESCRIPTION_MACD_TREND@ != DESCRIPTION_SUPERTREND_ADX@,
        DESCRIPTION_MACD_TREND@ != DESCRIPTION_BB_MEAN_REVERSION@,
        DESCRIPTION_MACD_TREND@ != DESCRIPTION_STOCH_CROSSOVER@,
        DESCRIPTION_MACD_TREND@ != DESCRIPTION_ICHIMOKU_TREND@,
        DESCRIPTION_MACD_TREND@ != DESCRIPTION_TTM_SQUEEZE_FIRE@,
        DESCRIPTION_MACD_TREND@ != DESCRIPTION_DONCHIAN_BREAKOUT@,
        DESCRIPTION_RSI_PULLBACK@ != DESCRIPTION_SUPERTREND_ADX@,
        DESCRIPTION_RSI_PULLBACK@ != DESCRIPTION_BB_MEAN_REVERSION@,
        DESCRIPTION_RSI_PULLBACK@ != DESCRIPTION_STOCH_CROSSOVER@,
        DESCRIPTION_RSI_PULLBACK@ != DESCRIPTION_ICHIMOKU_TREND@,
        DESCRIPTION_RSI_PULLBACK@ != DESCRIPTION_TTM_SQUEEZE_FIRE@,
        DESCRIPTION_RSI_PULLBACK@ != DESCRIPTION_DONCHIAN_BREAKOUT@,
        DESCRIPTION_SUPERTREND_ADX@ != DESCRIPTION_BB_MEAN_REVERSION@,
        DESCRIPTION_SUPERTREND_ADX@ != DESCRIPTION_STOCH_CROSSOVER@,
        DESCRIPTION_SUPERTREND_ADX@ != DESCRIPTION_ICHIMOKU_TREND@,
        DESCRIPTION_SUPERTREND_ADX@ != DESCRIPTION_TTM_SQUEEZE_FIRE@,
        DESCRIPTION_SUPERTREND_ADX@ != DESCRIPTION_DONCHIAN_BREAKOUT@,
        DESCRIPTION_BB_MEAN_REVERSION@ != DESCRIPTION_STOCH_CROSSOVER@,
        DESCRIPTION_BB_MEAN_REVERSION@ != DESCRIPTION_ICHIMOKU_TREND@,
        DESCRIPTION_BB_MEAN_REVERSION@ != DESCRIPTION_TTM_SQUEEZE_FIRE@,
        DESCRIPTION_BB_MEAN_REVERSION@ != DESCRIPTION_DONCHIAN_BREAKOUT@,
        DESCRIPTION_STOCH_CROSSOVER@ != DESCRIPTION_ICHIMOKU_TREND@,
        DESCRIPTION_STOCH_CROSSOVER@ != DESCRIPTION_TTM_SQUEEZE_FIRE@,
        DESCRIPTION_STOCH_CROSSOVER@ != DESCRIPTION_DONCHIAN_BREAKOUT@,
        DESCRIPTION_ICHIMOKU_TREND@ != DESCRIPTION_TTM_SQUEEZE_FIRE@,
        DESCRIPTION_ICHIMOKU_TREND@ != DESCRIPTION_DONCHIAN_BREAKOUT@,
        DESCRIPTION_TTM_SQUEEZE_FIRE@ != DESCRIPTION_DONCHIAN_BREAKOUT@,
{
    reveal_strlit("default");
    reveal_strlit("Long-only 15m BTC continuation (project default).");
    reveal_strlit("macd_trend");
    reveal_strlit("MACD line/signal trend-style engine.");
    reveal_strlit("rsi_pullback");
    reveal_strlit("RSI pullback entries.");
    reveal_strlit("supertrend_adx");
    reveal_strlit("SuperTrend + ADX filter.");
    reveal_strlit("bb_mean_reversion");
    reveal_strlit("Bollinger mean-reversion style.");
    reveal_strlit("stoch_crossover");
    reveal_strlit("Stochastic crossover engine.");
    reveal_strlit("ichimoku_trend");
    reveal_strlit("Ichimoku cloud trend filter.");
    reveal_strlit("ttm_squeeze_fire");
    reveal_strlit("TTM squeeze + momentum.");
    reveal_strlit("donchian_breakout");
    reveal_strlit("Donchian channel breakout.");
    reveal_strlit("Strategy module.");
    assert("macd_trend"@.len() != "default"@.len());
    assert("rsi_pullback"@.len() != "default"@.len());
    assert("rsi_pullback"@.len() != "macd_trend"@.len());
    assert("supertrend_adx"@.len() != "default"@.len());
    assert("supertrend_adx"@.len() != "macd_trend"@.len());
    assert("supertrend_adx"@.len() != "rsi_pullback"@.len());
    assert("bb_mean_reversion"@.len() != "default"@.len());
    assert("bb_mean_reversion"@.len() != "macd_trend"@.len());
    assert("bb_mean_reversion"@.len() != "rsi_pullback"@.len());
    assert("bb_mean_reversion"@.len() != "supertrend_adx"@.len());
    assert("stoch_crossover"@.len() != "default"@.len());
    assert("stoch_crossover"@.len() != "macd_trend"@.len());
    assert("stoch_crossover"@.len() != "rsi_pullback"@.len());
    assert("stoch_crossover"@.len() != "supertrend_adx"@.len());
    assert("stoch_crossover"@.len() != "bb_mean_reversion"@.len());
    assert("ichimoku_trend"@.len() != "default"@.len());
    assert("ichimoku_trend"@.len() != "macd_trend"@.len());
    assert("ichimoku_trend"@.len() != "rsi_pullback"@.len());
    assert("ichimoku_trend"@[0] != "supertrend_adx"@[0]);
    assert("ichimoku_trend"@.len() != "bb_mean_reversion"@.len());
    assert("ichimoku_trend"@.len() != "stoch_crossover"@.len());
    assert("ttm_squeeze_fire"@.len() != "default"@.len());
    assert("ttm_squeeze_fire"@.len() != "macd_trend"@.len());
    assert("ttm_squeeze_fire"@.len() != "rsi_pullback"@.len());
    assert("ttm_squeeze_fire"@.len() != "supertrend_adx"@.len());
    assert("ttm_squeeze_fire"@.len() != "bb_mean_reversion"@.len());
    assert("ttm_squeeze_fire"@.len() != "stoch_crossover"@.len());
    assert("ttm_squeeze_fire"@.len() != "ichimoku_trend"@.len());
    assert("donchian_breakout"@.len() != "default"@.len());
    assert("donchian_breakout"@.len() != "macd_trend"@.len());
    assert("donchian_breakout"@.len() != "rsi_pullback"@.len());
    assert("donchian_breakout"@.len() != "supertrend_adx"@.len());
    assert("donchian_breakout"@[0] != "bb_mean_reversion"@[0]);
    assert("donchian_breakout"@.len() != "stoch_crossover"@.len());
    assert("donchian_breakout"@.len() != "ichimoku_trend"@.len());
    assert("donchian_breakout"@.len() != "ttm_squeeze_fire"@.len());
    assert("Long-only 15m BTC continuation (project default)."@.len() != "MACD line/signal trend-style engine."@.len());
    assert("Long-only 15m BTC continuation (project default)."@.len() != "RSI pullback entries."@.len());
    assert("Long-only 15m BTC continuation (project default)."@.len() != "SuperTrend + ADX filter."@.len());
    assert("Long-only 15m BTC continuation (project default)."@.len() != "Bollinger mean-reversion style."@.len());
    assert("Long-only 15m BTC continuation (project default)."@.len() != "Stochastic crossover engine."@.len());
    assert("Long-only 15m BTC continuation (project default)."@.len() != "Ichimoku cloud trend filter."@.len());
    assert("Long-only 15m BTC continuation (project default)."@.len() != "TTM squeeze + momentum."@.len());
    assert("Long-only 15m BTC continuation (project default)."@.len() != "Donchian channel breakout."@.len());
    assert("Long-only 15m BTC continuation (project default)."@.len() != "Strategy module."@.len());
    assert("MACD line/signal trend-style engine."@.len() != "RSI pullback entries."@.len());
    assert("MACD line/signal trend-style engine."@.len() != "SuperTrend + ADX filter."@.len());
    assert("MACD line/signal trend-style engine."@.len() != "Bollinger mean-reversion style."@.len());
    assert("MACD line/signal trend-style engine."@.len() != "Stochastic crossover engine."@.len());
    assert("MACD line/signal trend-style engine."@.len() != "Ichimoku cloud trend filter."@.len());
    assert("MACD line/signal trend-style engine."@.len() != "TTM squeeze + momentum."@.len());
    assert("MACD line/signal trend-style engine."@.len() != "Donchian channel breakout."@.len());
    assert("MACD line/signal trend-style engine."@.len() != "Strategy module."@.len());
    assert("RSI pullback entries."@.len() != "SuperTrend + ADX filter."@.len());
    assert("RSI pullback entries."@.len() != "Bollinger mean-reversion style."@.len());
    assert("RSI pullback entries."@.len() != "Stochastic crossover engine."@.len());
    assert("RSI pullback entries."@.len() != "Ichimoku cloud trend filter."@.len());
    assert("RSI pullback entries."@.len() != "TTM squeeze + momentum."@.len());
    assert("RSI pullback entries."@.len() != "Donchian channel breakout."@.len());
    assert("RSI pullback entries."@.len() != "Strategy module."@.len());
    assert("SuperTrend + ADX filter."@.len() != "Bollinger mean-reversion style."@.len());
    assert("SuperTrend + ADX filter."@.len() != "Stochastic crossover engine."@.len());
    assert("SuperTrend + ADX filter."@.len() != "Ichimoku cloud trend filter."@.len());
    assert("SuperTrend + ADX filter."@.len() != "TTM squeeze + momentum."@.len());
    assert("SuperTrend + ADX filter."@.len() != "Donchian channel breakout."@.len());
    assert("SuperTrend + ADX filter."@.len() != "Strategy module."@.len());
    assert("Bollinger mean-reversion style."@.len() != "Stochastic crossover engine."@.len());
    assert("Bollinger mean-reversion style."@.len() != "Ichimoku cloud trend filter."@.len());
    assert("Bollinger mean-reversion style."@.len() != "TTM squeeze + momentum."@.len());
    assert("Bollinger mean-reversion style."@.len() != "Donchian channel breakout."@.len());
    assert("Bollinger mean-reversion style."@.len() != "Strategy module."@.len());
    assert("Stochastic crossover engine."@[0] != "Ichimoku cloud trend filter."@[0]);
    assert("Stochastic crossover engine."@.len() != "TTM squeeze + momentum."@.len());
    assert("Stochastic crossover engine."@.len() != "Donchian channel breakout."@.len());
    assert("Stochastic crossover engine."@.len() != "Strategy module."@.len());
    assert("Ichimoku cloud trend filter."@.len() != "TTM squeeze + momentum."@.len());
    assert("Ichimoku cloud trend filter."@.len() != "Donchian channel breakout."@.len());
    assert("Ichimoku cloud trend filter."@.len() != "Strategy module."@.len());
    assert("TTM squeeze + momentum."@.len() != "Donchian channel breakout."@.len());
    assert("TTM squeeze + momentum."@.len() != "Strategy module."@.len());
    assert("Donchian channel breakout."@.len() != "Strategy module."@.len());
}

/// One-line description of a strategy id (a generic line for unknown ids).
pub fn strategy_description(id: &str) -> (r: &'static str)
    ensures
        r == description_of(id@),
        is_known_strategy_id(id@) <==> r@ != DESCRIPTION_OTHER@,
{
    proof {
        lemma_strategy_descriptions(id@);
    }
    let c = chars_of(id);
    let s = c.as_slice();
    if is_literal(s, "default") {
        DESCRIPTION_DEFAULT
    } else if is_literal(s, "macd_trend") {
        DESCRIPTION_MACD_TREND
    } else if is_literal(s, "rsi_pullback") {
        DESCRIPTION_RSI_PULLBACK
    } else if is_literal(s, "supertrend_adx") {
        DESCRIPTION_SUPERTREND_ADX
    } else if is_literal(s, "bb_mean_reversion") {
        DESCRIPTION_BB_MEAN_REVERSION
    } else if is_literal(s, "stoch_crossover") {
        DESCRIPTION_STOCH_CROSSOVER
    } else if is_literal(s, "ichimoku_trend") {
        DESCRIPTION_ICHIMOKU_TREND
    } else if is_literal(s, "ttm_squeeze_fire") {
        DESCRIPTION_TTM_SQUEEZE_FIRE
    } else if is_literal(s, "donchian_breakout") {
        DESCRIPTION_DONCHIAN_BREAKOUT
    } else {
        DESCRIPTION_OTHER
    }
}

/// A single filter selects `key` when the filter is `*` or empty, equals the
/// key, names a dot-separated ancestor of the key (`filter.` is a prefix), or
/// names its last segments (`.filter` is a suffix).
pub open spec fn filter_selects(key: Seq<char>, filter: Seq<char>) -> bool {
    ||| filter == "*"@
    ||| filter.len() == 0
    ||| key == filter
    ||| is_prefix_of(filter.push('.'), key)
    ||| is_suffix_of(seq!['.'] + filter, key)
}

/// What a filter selects: the key it names, every key below it (`filter.`
/// then more), every key ending in it (more, then `.filter`), and, for `*` or
/// an empty filter, every key.
pub proof fn lemma_filter_rules(key: Seq<char>, filter: Seq<char>, more: Seq<char>)
    ensures
        filter_selects(filter, filter),
        filter_selects(filter.push('.') + more, filter),
        filter_selects(more.push('.') + filter, filter),
        filter_selects(key, "*"@),
        filter_selects(key, Seq::<char>::empty()),
{
    let below = filter.push('.') + more;
    assert(below.subrange(0, filter.push('.').len() as int) =~= filter.push('.'));
    let ending = more.push('.') + filter;
    let suffix = seq!['.'] + filter;
    assert(ending.subrange(ending.len() - suffix.len(), ending.len() as int) =~= suffix);
}

/// The character views of a list of filters.
pub open spec fn filter_views(filters: Seq<String>) -> Seq<Seq<char>> {
    filters.map_values(|f: String| f@)
}

/// A key is kept when there are no filters at all, or some filter selects it.
pub open spec fn selected_by_any(key: Seq<char>, filters: Seq<Seq<char>>) -> bool {
    filters.len() == 0 || exists|i: int| 0 <= i < filters.len() && filter_selects(key, #[trigger] filters[i])
}

/// Whether one filter selects `key`.
pub fn key_matches_filter(key: &str, filter: &str) -> (r: bool)
    ensures
        r == filter_selects(key@, filter@),
{
    let f = chars_of(filter);
    let k = chars_of(key);
    if is_literal(f.as_slice(), "*") || f.len() == 0 {
        return true;
    }
    if crate::text::same_chars(k.as_slice(), f.as_slice()) {
        return true;
    }
    let mut prefix = f.clone();
    prefix.push('.');
    if starts_with(k.as_slice(), prefix.as_slice()) {
        return true;
    }
    let mut suffix: Vec<char> = Vec::new();
    suffix.push('.');
    let mut i: usize = 0;
    while i < f.len()
        invariant
            i <= f@.len(),
            suffix@ == seq!['.'] + f@.subrange(0, i as int),
        decreases f.len() - i,
    {
        suffix.push(f[i]);
        i = i + 1;
    }
    assert(f@.subrange(0, f@.len() as int) =~= f@);
    ends_with(k.as_slice(), suffix.as_slice())
}

/// `key` is included if any filter matches it (no filters: every key).
pub fn key_matches_any_filter(key: &str, filters: &[String]) -> (r: bool)
    ensures
        r == selected_by_any(key@, filter_views(filters@)),
{
    if filters.len() == 0 {
        return true;
    }
    let mut i: usize = 0;
    while i < filters.len()
        invariant
            i <= filters@.len(),
            forall|j: int| 0 <= j < i ==> !filter_selects(key@, #[trigger] filter_views(filters@)[j]),
        decreases filters.len() - i,
    {
        if key_matches_filter(key, filters[i].as_str()) {
            assert(filter_selects(key@, filter_views(filters@)[i as int]));
            return true;
        }
        i = i + 1;
    }
    false
}


/// Some key of `entries` is selected by `filter`.
pub open spec fn filter_hits_some_key<V>(entries: Seq<(String, V)>, filter: Seq<char>) -> bool {
    exists|j: int| 0 <= j < entries.len() && filter_selects(#[trigger] entries[j].0@, filter)
}

/// Entries whose key some filter selects, in their input order.
pub open spec fn kept_entries<V>(entries: Seq<(String, V)>, filters: Seq<Seq<char>>) -> Seq<(String, V)> {
    entries.filter(|e: (String, V)| selected_by_any(e.0@, filters))
}

/// Filters that select no key at all, in their input order.
pub open spec fn unmatched_filters<V>(entries: Seq<(String, V)>, filters: Seq<String>) -> Seq<String> {
    filters.filter(|f: String| !filter_hits_some_key(entries, f@))
}

/// Filtering by a predicate that holds everywhere keeps the sequence.
proof fn lemma_filter_keeps_all<A>(s: Seq<A>, p: spec_fn(A) -> bool)
    requires
        forall|a: A| #[trigger] p(a),
    ensures
        s.filter(p) == s,
    decreases s.len(),
{
    reveal_with_fuel(Seq::filter, 1);
    if s.len() > 0 {
        lemma_filter_keeps_all(s.drop_last(), p);
        assert(s.drop_last().push(s.last()) =~= s);
    } else {
        assert(s.filter(p) =~= s);
    }
}

/// Whether `filter` selects some key of `entries`.
fn any_key_matches<V>(entries: &Vec<(String, V)>, filter: &str) -> (r: bool)
    ensures
        r == filter_hits_some_key(entries@, filter@),
{
    let mut j: usize = 0;
    while j < entries.len()
        invariant
            j <= entries@.len(),
            forall|k: int| 0 <= k < j ==> !filter_selects(#[trigger] entries@[k].0@, filter@),
        decreases entries.len() - j,
    {
        if key_matches_filter(entries[j].0.as_str(), filter) {
            return true;
        }
        j = j + 1;
    }
    false
}

/// The character views of the keys of a list of entries.
pub open spec fn entry_keys<V>(entries: Seq<(String, V)>) -> Seq<Seq<char>> {
    entries.map_values(|e: (String, V)| e.0@)
}

/// Filtering keeps the key order of the entries: entries whose keys strictly
/// increase (a map's entries) stay so, and every kept entry is an input entry.
pub proof fn lemma_kept_entries_keep_order<V>(entries: Seq<(String, V)>, filters: Seq<Seq<char>>)
    ensures
        forall|m: int|
            0 <= m < kept_entries(entries, filters).len() ==> exists|j: int|
                0 <= j < entries.len() && #[trigger] kept_entries(entries, filters)[m] == entries[j],
        strictly_increasing(entry_keys(entries)) ==> strictly_increasing(entry_keys(kept_entries(entries, filters))),
    decreases entries.len(),
{
    reveal_with_fuel(Seq::filter, 1);
    if entries.len() > 0 {
        let init = entries.drop_last();
        let x = entries.last();
        lemma_kept_entries_keep_order(init, filters);
        let k0 = kept_entries(init, filters);
        let k1 = kept_entries(entries, filters);
        assert(k1 == if selected_by_any(x.0@, filters) { k0.push(x) } else { k0 });
        assert forall|m: int| 0 <= m < k1.len() implies exists|j: int|
            0 <= j < entries.len() && #[trigger] k1[m] == entries[j] by {
            if m < k0.len() {
                let j = choose|j: int| 0 <= j < init.len() && #[trigger] k0[m] == init[j];
                assert(k1[m] == entries[j]);
            } else {
                assert(k1[m] == entries[entries.len() - 1]);
            }
        }
        if strictly_increasing(entry_keys(entries)) {
            let ek = entry_keys(entries);
            assert(entry_keys(init) =~= ek.drop_last());
            assert forall|i: int, j: int| 0 <= i < j < entry_keys(k1).len() implies lex_lt(
                #[trigger] entry_keys(k1)[i],
                #[trigger] entry_keys(k1)[j],
            ) by {
                if j < k0.len() {
                    assert(entry_keys(k1)[i] == entry_keys(k0)[i]);
                    assert(entry_keys(k1)[j] == entry_keys(k0)[j]);
                } else {
                    let w = choose|w: int| 0 <= w < init.len() && #[trigger] k0[i] == init[w];
                    assert(entry_keys(k1)[i] == ek[w]);
                    assert(entry_keys(k1)[j] == ek[entries.len() - 1]);
                }
            }
        }
    } else {
        assert(kept_entries(entries, filters) =~= Seq::<(String, V)>::empty());
    }
}

/// Keeps the flattened entries that some filter selects and lists the filters
/// that selected nothing. With no filters the entries come back unchanged and
/// no filter is reported.
pub fn filter_indicator_map<V>(flat: Vec<(String, V)>, filters: &[String]) -> (r: (
    Vec<(String, V)>,
    Vec<String>,
))
    ensures
        filters@.len() == 0 ==> r.0@ == flat@ && r.1@.len() == 0,
        r.0@ == kept_entries(flat@, filter_views(filters@)),
        r.1@ == unmatched_filters(flat@, filters@),
        strictly_increasing(entry_keys(flat@)) ==> strictly_increasing(entry_keys(r.0@)),
{
    let ghost fv = filter_views(filters@);
    proof {
        lemma_kept_entries_keep_order(flat@, fv);
    }
    if filters.len() == 0 {
        proof {
            lemma_filter_keeps_all(flat@, |e: (String, V)| selected_by_any(e.0@, fv));
        }
        let unmatched: Vec<String> = Vec::new();
        proof {
            assert(filters@.filter(|f: String| !filter_hits_some_key(flat@, f@)) =~= Seq::<String>::empty()) by {
                reveal_with_fuel(Seq::filter, 1);
                assert(filters@ =~= Seq::<String>::empty());
            }
        }
        return (flat, unmatched);
    }
    let mut unmatched: Vec<String> = Vec::new();
    let mut i: usize = 0;
    while i < filters.len()
        invariant
            i <= filters@.len(),
            unmatched@ == filters@.take(i as int).filter(|f: String| !filter_hits_some_key(flat@, f@)),
        decreases filters.len() - i,
    {
        reveal_with_fuel(Seq::filter, 1);
        if !any_key_matches(&flat, filters[i].as_str()) {
            unmatched.push(filters[i].clone());
        }
        assert(filters@.take(i + 1).drop_last() =~= filters@.take(i as int));
        i = i + 1;
    }
    assert(filters@.take(filters@.len() as int) =~= filters@);
    let ghost input_entries = flat@;
    let mut kept: Vec<(String, V)> = Vec::new();
    for entry in it: flat.into_iter()
        invariant
            it.seq() == input_entries,
            fv == filter_views(filters@),
            kept@ == input_entries.take(it.index() as int).filter(|e: (String, V)| selected_by_any(e.0@, fv)),
    {
        reveal_with_fuel(Seq::filter, 1);
        assert(input_entries.take(it.index() + 1).drop_last() =~= input_entries.take(it.index() as int));
        if key_matches_any_filter(entry.0.as_str(), filters) {
            kept.push(entry);
        }
    }
    assert(input_entries.take(input_entries.len() as int) =~= input_entries);
    (kept, unmatched)
}


/// A JSON document as the catalog reads it: objects (keys in document order)
/// and opaque leaves (numbers, booleans, strings, null and arrays).
pub enum JsonTree<L> {
    Object(Vec<(String, JsonTree<L>)>),
    Leaf(L),
}

/// The dot path of a child `key` under `prefix` (just `key` at the root).
pub open spec fn child_path(prefix: Seq<char>, key: Seq<char>) -> Seq<char> {
    if prefix.len() == 0 {
        key
    } else {
        prefix.push('.') + key
    }
}

/// The `(path, leaf)` pairs that flattening `tree` under `prefix` produces, in
/// document order. Empty objects contribute nothing; a leaf at the root is
/// reported under `prefix` itself.
pub open spec fn flattened<L>(prefix: Seq<char>, tree: JsonTree<L>) -> Seq<(Seq<char>, L)>
    decreases tree, 0nat,
{
    match tree {
        JsonTree::Object(children) => flattened_children(prefix, children@, children@.len() as int),
        JsonTree::Leaf(l) => seq![(prefix, l)],
    }
}

/// The pairs produced by the first `n` children of an object under `prefix`.
pub open spec fn flattened_children<L>(
    prefix: Seq<char>,
    children: Seq<(String, JsonTree<L>)>,
    n: int,
) -> Seq<(Seq<char>, L)>
    decreases children, n,
{
    if n <= 0 || n > children.len() {
        Seq::empty()
    } else {
        flattened_children(prefix, children, n - 1) + flattened(
            child_path(prefix, children[n - 1].0@),
            children[n - 1].1,
        )
    }
}

/// The character view of a list of flattened entries.
pub open spec fn entry_views<L>(entries: Seq<(String, L)>) -> Seq<(Seq<char>, L)> {
    entries.map_values(|e: (String, L)| (e.0@, e.1))
}

/// Appends to `out`, in document order, every leaf of `value` with its dot path
/// under `prefix`. Inserting the appended pairs into a map in order gives the
/// flattened map (a later equal path replaces an earlier one).
#[verifier::loop_isolation(false)]
pub fn flatten_object_leaves<L>(prefix: &str, value: JsonTree<L>, out: &mut Vec<(String, L)>)
    ensures
        entry_views(final(out)@) == entry_views(old(out)@) + flattened(prefix@, value),
    decreases value, 0nat,
{
    let ghost whole = value;
    match value {
        JsonTree::Object(children) => {
            let ghost kids = children@;
            let ghost start = entry_views(out@);
            for child in it: children.into_iter()
                invariant
                    it.seq() == kids,
                    whole is Object,
                    whole->Object_0@ == kids,
                    entry_views(out@) == start + flattened_children(prefix@, kids, it.index() as int),
            {
                let ghost idx = it.index();
                let (key, sub) = child;
                proof {
                    assert(kids[idx as int] == (key, sub));
                    assert(decreases_to!(whole => whole->Object_0));
                    assert(decreases_to!(whole->Object_0 => whole->Object_0@));
                    assert(decreases_to!(whole->Object_0@ => whole->Object_0@[idx as int]));
                    assert(decreases_to!(whole->Object_0@[idx as int] => whole->Object_0@[idx as int].1));
                    assert(decreases_to!(whole => sub));
                }
                let path = if prefix.is_empty() {
                    key
                } else {
                    let mut p = prefix.to_owned();
                    p.append(".");
                    p.append(key.as_str());
                    proof {
                        reveal_strlit(".");
                        assert(p@ =~= prefix@.push('.') + key@);
                    }
                    p
                };
                assert(path@ == child_path(prefix@, key@));
                flatten_object_leaves(path.as_str(), sub, out);
                assert(flattened_children(prefix@, kids, idx + 1) == flattened_children(prefix@, kids, idx as int) + flattened(child_path(prefix@, kids[idx as int].0@), kids[idx as int].1));
            }
        },
        JsonTree::Leaf(l) => {
            let ghost before = out@;
            out.push((prefix.to_owned(), l));
            proof {
                assert(entry_views(out@) =~= entry_views(before) + seq![(prefix@, l)]);
            }
        },
    }
}


/// The character views of a list of strings.
pub open spec fn string_views(v: Seq<String>) -> Seq<Seq<char>> {
    v.map_values(|x: String| x@)
}

/// Every path sorts strictly before every later one: sorted, without
/// duplicates (the key order of a map keyed by path).
pub open spec fn strictly_increasing(paths: Seq<Seq<char>>) -> bool {
    forall|i: int, j: int| 0 <= i < j < paths.len() ==> lex_lt(#[trigger] paths[i], #[trigger] paths[j])
}

/// `k` is one of `paths`.
pub open spec fn lists_path(paths: Seq<Seq<char>>, k: Seq<char>) -> bool {
    exists|i: int| 0 <= i < paths.len() && paths[i] == k
}

/// `k` is the path of one of the flattened `entries`.
pub open spec fn is_entry_path<L>(entries: Seq<(Seq<char>, L)>, k: Seq<char>) -> bool {
    exists|j: int| 0 <= j < entries.len() && entries[j].0 == k
}

/// Whether the path `a` sorts strictly before the characters `b`.
fn path_less(a: &String, b: &[char]) -> (r: bool)
    ensures
        r == lex_lt(a@, b@),
{
    let c = chars_of(a.as_str());
    lex_less(c.as_slice(), b)
}

/// Whether the path `a` spells the characters `b`.
fn path_is(a: &String, b: &[char]) -> (r: bool)
    ensures
        r == (a@ == b@),
{
    let c = chars_of(a.as_str());
    same_chars(c.as_slice(), b)
}

/// Adds `key` to a strictly increasing list of paths, keeping it so.
fn insert_path(paths: &mut Vec<String>, key: &String)
    requires
        strictly_increasing(string_views(old(paths)@)),
    ensures
        strictly_increasing(string_views(final(paths)@)),
        forall|k: Seq<char>|
            #[trigger] lists_path(string_views(final(paths)@), k) <==> (lists_path(string_views(old(paths)@), k) || k
                == key@),
{
    let kc = chars_of(key.as_str());
    let ghost ov = string_views(paths@);
    let mut p: usize = 0;
    while p < paths.len() && path_less(&paths[p], kc.as_slice())
        invariant
            kc@ == key@,
            ov == string_views(paths@),
            p <= paths@.len(),
            forall|q: int| 0 <= q < p ==> lex_lt(#[trigger] ov[q], key@),
        decreases paths.len() - p,
    {
        p = p + 1;
    }
    if p < paths.len() && path_is(&paths[p], kc.as_slice()) {
        proof {
            assert forall|k: Seq<char>|
                #[trigger] lists_path(string_views(paths@), k) <==> (lists_path(ov, k) || k == key@) by {
                if k == key@ {
                    assert(ov[p as int] == k);
                }
            }
        }
        return;
    }
    proof {
        if p < ov.len() {
            lemma_lex_total_at_start(key@, ov[p as int]);
        }
    }
    paths.insert(p, key.clone());
    proof {
        let nv = string_views(paths@);
        assert(nv =~= ov.insert(p as int, key@));
        assert forall|i: int, j: int| 0 <= i < j < nv.len() implies lex_lt(#[trigger] nv[i], #[trigger] nv[j]) by {
            if j < p {
                assert(nv[i] == ov[i] && nv[j] == ov[j]);
            } else if j == p {
                assert(nv[i] == ov[i]);
            } else if i < p {
                assert(nv[i] == ov[i] && nv[j] == ov[j - 1]);
            } else if i == p {
                assert(nv[j] == ov[j - 1]);
                if j - 1 > p {
                    assert(lex_lt(ov[p as int], ov[j - 1]));
                    lemma_lex_transitive(key@, ov[p as int], ov[j - 1], 0);
                }
            } else {
                assert(nv[i] == ov[i - 1] && nv[j] == ov[j - 1]);
            }
        }
        assert forall|k: Seq<char>| #[trigger] lists_path(nv, k) <==> (lists_path(ov, k) || k == key@) by {
            if lists_path(nv, k) {
                let i = choose|i: int| 0 <= i < nv.len() && nv[i] == k;
                if i < p {
                    assert(ov[i] == k);
                } else if i > p {
                    assert(ov[i - 1] == k);
                }
            }
            if lists_path(ov, k) {
                let i = choose|i: int| 0 <= i < ov.len() && ov[i] == k;
                if i < p {
                    assert(nv[i] == k);
                } else {
                    assert(nv[i + 1] == k);
                }
            }
            if k == key@ {
                assert(nv[p as int] == k);
            }
        }
    }
}

/// The distinct paths of flattened entries in increasing order: the keys of
/// the map that inserting the entries in order builds.
pub fn sorted_leaf_paths<L>(entries: &Vec<(String, L)>) -> (r: Vec<String>)
    ensures
        strictly_increasing(string_views(r@)),
        forall|k: Seq<char>|
            #[trigger] lists_path(string_views(r@), k) <==> is_entry_path(entry_views(entries@), k),
{
    let ghost ev = entry_views(entries@);
    let mut paths: Vec<String> = Vec::new();
    let mut e: usize = 0;
    while e < entries.len()
        invariant
            ev == entry_views(entries@),
            e <= entries@.len(),
            strictly_increasing(string_views(paths@)),
            forall|k: Seq<char>| #[trigger] lists_path(string_views(paths@), k) <==> is_entry_path(ev.take(e as int), k),
        decreases entries.len() - e,
    {
        let ghost before = paths@;
        insert_path(&mut paths, &entries[e].0);
        proof {
            assert forall|k: Seq<char>|
                #[trigger] lists_path(string_views(paths@), k) <==> is_entry_path(ev.take(e + 1), k) by {
                assert(lists_path(string_views(paths@), k) <==> (lists_path(string_views(before), k) || k == entries@[e as int].0@));
                let t1 = ev.take(e + 1);
                let t0 = ev.take(e as int);
                if is_entry_path(t1, k) {
                    let j = choose|j: int| 0 <= j < t1.len() && #[trigger] t1[j].0 == k;
                    if j < e {
                        assert(ev.take(e as int)[j] == ev.take(e + 1)[j]);
                    }
                }
                if is_entry_path(t0, k) {
                    let j = choose|j: int| 0 <= j < t0.len() && #[trigger] t0[j].0 == k;
                    assert(ev.take(e + 1)[j] == ev.take(e as int)[j]);
                }
                if k == entries@[e as int].0@ {
                    assert(ev.take(e + 1)[e as int].0 == k);
                }
            }
        }
        e = e + 1;
    }
    proof {
        assert(ev.take(ev.len() as int) =~= ev);
    }
    paths
}

/// The row semantics reported by the catalog for a given configuration.
pub open spec fn series_semantics_for(cfg: WarmupConfig) -> EngineSeriesSemantics {
    EngineSeriesSemantics {
        uniform_bar_steps: true,
        bar_interval_request_field: BAR_INTERVAL_REQUEST_FIELD,
        higher_tf_factor: cfg.higher_tf_factor as u32,
        detail: SERIES_SEMANTICS_DETAIL,
    }
}

/// Builds the catalog from the supported strategy ids and a sample prepared
/// frame: its indicator paths are the distinct leaf paths of the frame in
/// increasing order (the keys of its flattened map), each annotated with its
/// warm-up rows under `cfg` and its note.
pub fn build_catalog_response<L>(strategy_ids: &[&str], sample_frame: JsonTree<L>, cfg: &WarmupConfig) -> (r:
    CatalogResponse)
    requires
        warmup_cfg_fits(*cfg),
    ensures
        r.engine_series_semantics == series_semantics_for(*cfg),
        r.strategies@.len() == strategy_ids@.len(),
        forall|i: int|
            0 <= i < strategy_ids@.len() ==> {
                &&& #[trigger] r.strategies@[i].id@ == strategy_ids@[i]@
                &&& r.strategies@[i].description == description_of(strategy_ids@[i]@)
            },
        strictly_increasing(string_views(r.indicator_paths@)),
        forall|k: Seq<char>|
            #[trigger] lists_path(string_views(r.indicator_paths@), k) <==> is_entry_path(
                flattened(""@, sample_frame),
                k,
            ),
        r.indicators@.len() == r.indicator_paths@.len(),
        forall|i: int|
            0 <= i < r.indicator_paths@.len() ==> {
                &&& #[trigger] r.indicators@[i].path@ == r.indicator_paths@[i]@
                &&& r.indicators@[i].min_bars_required == warmup_bars(r.indicator_paths@[i]@, *cfg)
                &&& r.indicators@[i].path_note == path_note_spec(r.indicator_paths@[i]@)
            },
{
    let ghost tree = sample_frame;
    let mut leaves: Vec<(String, L)> = Vec::new();
    flatten_object_leaves("", sample_frame, &mut leaves);
    assert(entry_views(leaves@) =~= flattened(""@, tree));
    let leaf_paths = sorted_leaf_paths(&leaves);
    let mut strategies: Vec<CatalogStrategyEntry> = Vec::new();
    let mut i: usize = 0;
    while i < strategy_ids.len()
        invariant
            i <= strategy_ids@.len(),
            strategies@.len() == i,
            forall|j: int|
                0 <= j < i ==> {
                    &&& #[trigger] strategies@[j].id@ == strategy_ids@[j]@
                    &&& strategies@[j].description == description_of(strategy_ids@[j]@)
                },
        decreases strategy_ids.len() - i,
    {
        let id = strategy_ids[i];
        strategies.push(CatalogStrategyEntry { id: id.to_owned(), description: strategy_description(id) });
        i = i + 1;
    }
    let mut indicators: Vec<CatalogIndicatorEntry> = Vec::new();
    let mut k: usize = 0;
    while k < leaf_paths.len()
        invariant
            k <= leaf_paths@.len(),
            indicators@.len() == k,
            warmup_cfg_fits(*cfg),
            forall|j: int|
                0 <= j < k ==> {
                    &&& #[trigger] indicators@[j].path@ == leaf_paths@[j]@
                    &&& indicators@[j].min_bars_required == warmup_bars(leaf_paths@[j]@, *cfg)
                    &&& indicators@[j].path_note == path_note_spec(leaf_paths@[j]@)
                },
        decreases leaf_paths.len() - k,
    {
        let path = leaf_paths[k].as_str();
        assert(warmup_arith_fits(leaf_paths@[k as int]@, *cfg));
        let entry = CatalogIndicatorEntry {
            path: path.to_owned(),
            min_bars_required: min_bars_required_for_path(path, cfg),
            path_note: path_note(path),
        };
        indicators.push(entry);
        k = k + 1;
    }
    CatalogResponse {
        engine_series_semantics: EngineSeriesSemantics {
            uniform_bar_steps: true,
            bar_interval_request_field: BAR_INTERVAL_REQUEST_FIELD,
            higher_tf_factor: #[verifier::truncate] (cfg.higher_tf_factor as u32),
            detail: SERIES_SEMANTICS_DETAIL,
        },
        strategies,
        indicator_paths: leaf_paths,
        indicators,
    }
}

} // verus!
