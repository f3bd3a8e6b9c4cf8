//! Laws of the warm-up table: every catalogued path and snapshot leaf, with
//! the warm-up rows it needs, and how snapshot paths are looked up.

use vstd::prelude::*;

use crate::text::{is_prefix_of, occurs_at, occurs_in};
use crate::warmup::{
    NOTE_HIGHER_TF_FIELDS, VwapAnchorMode, WarmupConfig, higher_tf_warmup_bars, path_note_spec, is_top_level_path, lemma_warmup_path_kinds,
    snapshot_warmup_bars, warmup_bars,
};

verus! {


/// The named momentum leaves of the indicator snapshot.
pub open spec fn is_momentum_leaf(rest: Seq<char>) -> bool {
    ||| rest == "momentum.rsi_14"@
    ||| rest == "momentum.macd_line"@
    ||| rest == "momentum.macd_signal"@
    ||| rest == "momentum.macd_hist"@
    ||| rest == "momentum.stoch_k"@
    ||| rest == "momentum.stoch_d"@
    ||| rest == "momentum.stoch_rsi_k"@
    ||| rest == "momentum.stoch_rsi_d"@
    ||| rest == "momentum.cci_20"@
    ||| rest == "momentum.williams_r_14"@
    ||| rest == "momentum.roc_10"@
    ||| rest == "momentum.mfi_14"@
    ||| rest == "momentum.ultosc_7_14_28"@
    ||| rest == "momentum.tsi_25_13"@
    ||| rest == "momentum.awesome_oscillator_5_34"@
    ||| rest == "momentum.ppo_line"@
    ||| rest == "momentum.ppo_signal"@
    ||| rest == "momentum.ppo_hist"@
    ||| rest == "momentum.kst"@
    ||| rest == "momentum.elder_bull"@
    ||| rest == "momentum.elder_bear"@
    ||| rest == "momentum.cmo_14"@
    ||| rest == "momentum.trix_15"@
    ||| rest == "momentum.trix_signal_9"@
    ||| rest == "momentum.kvo_34_55"@
    ||| rest == "momentum.kvo_signal_13"@
    ||| rest == "momentum.chaikin_oscillator_3_10"@
    ||| rest == "momentum.pvo_line"@
    ||| rest == "momentum.pvo_signal"@
    ||| rest == "momentum.pvo_hist"@
    ||| rest == "momentum.force_index_13"@
}

/// The named trend leaves of the indicator snapshot.
pub open spec fn is_trend_leaf(rest: Seq<char>) -> bool {
    ||| rest == "trend.sma_20"@
    ||| rest == "trend.sma_50"@
    ||| rest == "trend.sma_200"@
    ||| rest == "trend.ema_20"@
    ||| rest == "trend.wma_20"@
    ||| rest == "trend.hull_9"@
    ||| rest == "trend.dema_20"@
    ||| rest == "trend.tema_20"@
    ||| rest == "trend.mcginley_14"@
    ||| rest == "trend.kama_10"@
    ||| rest == "trend.alma_20"@
    ||| rest == "trend.vidya_14"@
    ||| rest == "trend.lr_slope_20"@
    ||| rest == "trend.price_zscore_20"@
    ||| rest == "trend.hist_vol_logrets_20"@
    ||| rest == "trend.vwap_session"@
    ||| rest == "trend.vwap_upper_1sd"@
    ||| rest == "trend.vwap_lower_1sd"@
    ||| rest == "trend.vwap_upper_2sd"@
    ||| rest == "trend.vwap_lower_2sd"@
    ||| rest == "trend.mama"@
    ||| rest == "trend.fama"@
}

/// The named volatility leaves of the indicator snapshot.
pub open spec fn is_volatility_leaf(rest: Seq<char>) -> bool {
    ||| rest == "volatility.bb_middle_20"@
    ||| rest == "volatility.bb_upper_20"@
    ||| rest == "volatility.bb_lower_20"@
    ||| rest == "volatility.bb_pct_b_20"@
    ||| rest == "volatility.bb_bandwidth_20"@
    ||| rest == "volatility.keltner_middle_20"@
    ||| rest == "volatility.keltner_upper_20"@
    ||| rest == "volatility.keltner_lower_20"@
    ||| rest == "volatility.donchian_upper_20"@
    ||| rest == "volatility.donchian_lower_20"@
    ||| rest == "volatility.donchian_mid_20"@
    ||| rest == "volatility.supertrend_10_3"@
    ||| rest == "volatility.supertrend_long"@
    ||| rest == "volatility.mass_index_25"@
    ||| rest == "volatility.ttm_squeeze_on"@
    ||| rest == "volatility.ttm_squeeze_momentum"@
}

/// The named directional leaves of the indicator snapshot.
pub open spec fn is_directional_leaf(rest: Seq<char>) -> bool {
    ||| rest == "directional.adx_14"@
    ||| rest == "directional.di_plus"@
    ||| rest == "directional.di_minus"@
    ||| rest == "directional.aroon_up_25"@
    ||| rest == "directional.aroon_down_25"@
    ||| rest == "directional.psar"@
    ||| rest == "directional.psar_trend_long"@
    ||| rest == "directional.vortex_vi_plus_14"@
    ||| rest == "directional.vortex_vi_minus_14"@
}

/// The named volume leaves of the indicator snapshot.
pub open spec fn is_volume_leaf(rest: Seq<char>) -> bool {
    ||| rest == "volume.obv"@
    ||| rest == "volume.ad_line"@
    ||| rest == "volume.cmf_20"@
    ||| rest == "volume.volume_sma_20"@
    ||| rest == "volume.volume_ema_20"@
    ||| rest == "volume.nvi"@
    ||| rest == "volume.pvi"@
}

/// The leaves of the indicator snapshot that have a warm-up entry: the named
/// leaves of the momentum, trend, band-volatility, directional and volume
/// groups, and every leaf under `ichimoku.`, `patterns.` and the pivot groups.
pub open spec fn is_snapshot_leaf(rest: Seq<char>) -> bool {
    ||| is_prefix_of("ichimoku."@, rest)
    ||| is_prefix_of("patterns."@, rest)
    ||| is_prefix_of("volatility.pivot_classic."@, rest)
    ||| is_prefix_of("volatility.pivot_fib."@, rest)
    ||| is_momentum_leaf(rest)
    ||| is_trend_leaf(rest)
    ||| is_volatility_leaf(rest)
    ||| is_directional_leaf(rest)
    ||| is_volume_leaf(rest)
}

/// A path the warm-up table catalogues: a top-level path, or a snapshot leaf
/// under `indicator_snapshot.`.
pub open spec fn is_catalogued_path(path: Seq<char>) -> bool {
    ||| is_top_level_path(path)
    ||| is_prefix_of("indicator_snapshot."@, path) && is_snapshot_leaf(path.subrange(19, path.len() as int))
}

/// A prefix fixes the characters it covers.
proof fn lemma_prefix_char(p: Seq<char>, s: Seq<char>, k: int)
    requires
        is_prefix_of(p, s),
        0 <= k < p.len(),
    ensures
        s[k] == p[k],
{
    assert(s.subrange(0, p.len() as int)[k] == s[k]);
}

/// Whole families of snapshot leaves: everything under `ichimoku.` needs 52
/// rows, everything under a pivot group 2, everything under `patterns.` 3.
pub proof fn lemma_prefix_family_leaves(rest: Seq<char>, cfg: WarmupConfig)
    ensures
        is_prefix_of("ichimoku."@, rest) ==> snapshot_warmup_bars(rest, cfg) == Some(52u32),
        (is_prefix_of("volatility.pivot_classic."@, rest) || is_prefix_of("volatility.pivot_fib."@, rest))
            ==> snapshot_warmup_bars(rest, cfg) == Some(2u32),
        is_prefix_of("patterns."@, rest) ==> snapshot_warmup_bars(rest, cfg) == Some(3u32),
{
    reveal_strlit("momentum.");
    reveal_strlit("trend.");
    reveal_strlit("ichimoku.");
    reveal_strlit("volatility.");
    reveal_strlit("directional.");
    reveal_strlit("volume.");
    reveal_strlit("patterns.");
    reveal_strlit("volatility.pivot_classic.");
    reveal_strlit("volatility.pivot_fib.");
    if is_prefix_of("ichimoku."@, rest) {
        lemma_prefix_char("ichimoku."@, rest, 0);
        if is_prefix_of("momentum."@, rest) {
            lemma_prefix_char("momentum."@, rest, 0);
        }
        if is_prefix_of("trend."@, rest) {
            lemma_prefix_char("trend."@, rest, 0);
        }
    }
    if is_prefix_of("volatility.pivot_classic."@, rest) || is_prefix_of("volatility.pivot_fib."@, rest) {
        if is_prefix_of("volatility.pivot_classic."@, rest) {
            lemma_prefix_char("volatility.pivot_classic."@, rest, 0);
            assert(rest.subrange(0, 11) =~= "volatility."@);
        } else {
            lemma_prefix_char("volatility.pivot_fib."@, rest, 0);
            assert(rest.subrange(0, 11) =~= "volatility."@);
        }
        if is_prefix_of("momentum."@, rest) {
            lemma_prefix_char("momentum."@, rest, 0);
        }
        if is_prefix_of("trend."@, rest) {
            lemma_prefix_char("trend."@, rest, 0);
        }
        if is_prefix_of("ichimoku."@, rest) {
            lemma_prefix_char("ichimoku."@, rest, 0);
        }
    }
    if is_prefix_of("patterns."@, rest) {
        lemma_prefix_char("patterns."@, rest, 0);
        if is_prefix_of("momentum."@, rest) {
            lemma_prefix_char("momentum."@, rest, 0);
        }
        if is_prefix_of("trend."@, rest) {
            lemma_prefix_char("trend."@, rest, 0);
        }
        if is_prefix_of("ichimoku."@, rest) {
            lemma_prefix_char("ichimoku."@, rest, 0);
        }
        if is_prefix_of("volatility."@, rest) {
            lemma_prefix_char("volatility."@, rest, 0);
        }
        if is_prefix_of("directional."@, rest) {
            lemma_prefix_char("directional."@, rest, 0);
        }
        if is_prefix_of("volume."@, rest) {
            lemma_prefix_char("volume."@, rest, 0);
            lemma_prefix_char("volume."@, rest, 1);
            lemma_prefix_char("patterns."@, rest, 1);
        }
    }
}

/// A full snapshot path is looked up by its leaf: the path
/// `indicator_snapshot.` + `rest` needs what the leaf `rest` needs.
pub proof fn lemma_snapshot_path(rest: Seq<char>, cfg: WarmupConfig)
    ensures
        warmup_bars("indicator_snapshot."@ + rest, cfg) == snapshot_warmup_bars(rest, cfg),
{
    reveal_strlit("indicator_snapshot.");
    let path = "indicator_snapshot."@ + rest;
    assert(path.subrange(0, 19) =~= "indicator_snapshot."@);
    assert(path.subrange(19, path.len() as int) =~= rest);
    lemma_warmup_path_kinds(path, cfg);
}

/// The catalogued top-level paths and their warm-up rows.
pub proof fn lemma_top_level_table(cfg: WarmupConfig)
    ensures
        warmup_bars("candle.open"@, cfg) == Some(1u32),
        warmup_bars("candle.high"@, cfg) == Some(1u32),
        warmup_bars("candle.low"@, cfg) == Some(1u32),
        warmup_bars("candle.close"@, cfg) == Some(1u32),
        warmup_bars("candle.volume"@, cfg) == Some(1u32),
        warmup_bars("candle.buy_volume"@, cfg) == Some(1u32),
        warmup_bars("candle.sell_volume"@, cfg) == Some(1u32),
        warmup_bars("candle.delta"@, cfg) == Some(1u32),
        warmup_bars("candle.close_time"@, cfg) == Some(1u32),
        warmup_bars("ema_fast"@, cfg) == Some(cfg.ema_fast_period as u32),
        warmup_bars("ema_slow"@, cfg) == Some(cfg.ema_slow_period as u32),
        warmup_bars("vwma"@, cfg) == Some(cfg.vwma_lookback as u32),
        warmup_bars("atr"@, cfg) == Some(((cfg.atr_period as u32) + 1) as u32),
        warmup_bars("atr_pct"@, cfg) == Some(((cfg.atr_period as u32) + 1) as u32),
        warmup_bars("atr_pct_baseline"@, cfg) == Some(cfg.vol_baseline_lookback_bars as u32),
        warmup_bars("vol_ratio"@, cfg) == Some(({
            let atr_rows = (cfg.atr_period + 1) as usize;
            let m = if cfg.vol_baseline_lookback_bars >= atr_rows { cfg.vol_baseline_lookback_bars } else { atr_rows };
            if m >= 2 { m } else { 2 }
        }) as u32),
        warmup_bars("cvd_ema3"@, cfg) == Some(8u32),
        warmup_bars("cvd_ema3_slope"@, cfg) == Some(12u32),
        warmup_bars("vp_val"@, cfg) == (if cfg.vp_enabled { Some(cfg.vp_lookback_bars as u32) } else { Some(1u32) }),
        warmup_bars("vp_poc"@, cfg) == (if cfg.vp_enabled { Some(cfg.vp_lookback_bars as u32) } else { Some(1u32) }),
        warmup_bars("vp_vah"@, cfg) == (if cfg.vp_enabled { Some(cfg.vp_lookback_bars as u32) } else { Some(1u32) }),
        warmup_bars("ema_fast_higher"@, cfg) == Some(higher_tf_warmup_bars(cfg)),
        warmup_bars("ema_slow_higher"@, cfg) == Some(higher_tf_warmup_bars(cfg)),
{
    assert(warmup_bars("candle.open"@, cfg) == Some(1u32)) by {
        reveal_strlit("candle.open");
        assert("candle.open"@.len() == 11);
    }
    assert(warmup_bars("candle.high"@, cfg) == Some(1u32)) by {
        reveal_strlit("candle.high");
        assert("candle.high"@.len() == 11);
        reveal_strlit("candle.open");
        assert("candle.high"@[7] != "candle.open"@[7]);
    }
    assert(warmup_bars("candle.low"@, cfg) == Some(1u32)) by {
        reveal_strlit("candle.low");
        assert("candle.low"@.len() == 10);
        reveal_strlit("candle.open");
        assert("candle.open"@.len() == 11);
        reveal_strlit("candle.high");
        assert("candle.high"@.len() == 11);
    }
    assert(warmup_bars("candle.close"@, cfg) == Some(1u32)) by {
        reveal_strlit("candle.close");
        assert("candle.close"@.len() == 12);
        reveal_strlit("candle.open");
        assert("candle.open"@.len() == 11);
        reveal_strlit("candle.high");
        assert("candle.high"@.len() == 11);
        reveal_strlit("candle.low");
        assert("candle.low"@.len() == 10);
    }
    assert(warmup_bars("candle.volume"@, cfg) == Some(1u32)) by {
        reveal_strlit("candle.volume");
        assert("candle.volume"@.len() == 13);
        reveal_strlit("candle.open");
        assert("candle.open"@.len() == 11);
        reveal_strlit("candle.high");
        assert("candle.high"@.len() == 11);
        reveal_strlit("candle.low");
        assert("candle.low"@.len() == 10);
        reveal_strlit("candle.close");
        assert("candle.close"@.len() == 12);
    }
    assert(warmup_bars("candle.buy_volume"@, cfg) == Some(1u32)) by {
        reveal_strlit("candle.buy_volume");
        assert("candle.buy_volume"@.len() == 17);
        reveal_strlit("candle.open");
        assert("candle.open"@.len() == 11);
        reveal_strlit("candle.high");
        assert("candle.high"@.len() == 11);
        reveal_strlit("candle.low");
        assert("candle.low"@.len() == 10);
        reveal_strlit("candle.close");
        assert("candle.close"@.len() == 12);
        reveal_strlit("candle.volume");
        assert("candle.volume"@.len() == 13);
    }
    assert(warmup_bars("candle.sell_volume"@, cfg) == Some(1u32)) by {
        reveal_strlit("candle.sell_volume");
        assert("candle.sell_volume"@.len() == 18);
        reveal_strlit("candle.open");
        assert("candle.open"@.len() == 11);
        reveal_strlit("candle.high");
        assert("candle.high"@.len() == 11);
        reveal_strlit("candle.low");
        assert("candle.low"@.len() == 10);
        reveal_strlit("candle.close");
        assert("candle.close"@.len() == 12);
        reveal_strlit("candle.volume");
        assert("candle.volume"@.len() == 13);
        reveal_strlit("candle.buy_volume");
        assert("candle.buy_volume"@.len() == 17);
    }
    assert(warmup_bars("candle.delta"@, cfg) == Some(1u32)) by {
        reveal_strlit("candle.delta");
        assert("candle.delta"@.len() == 12);
        reveal_strlit("candle.open");
        assert("candle.open"@.len() == 11);
        reveal_strlit("candle.high");
        assert("candle.high"@.len() == 11);
        reveal_strlit("candle.low");
        assert("candle.low"@.len() == 10);
        reveal_strlit("candle.close");
        assert("candle.delta"@[7] != "candle.close"@[7]);
        reveal_strlit("candle.volume");
        assert("candle.volume"@.len() == 13);
        reveal_strlit("candle.buy_volume");
        assert("candle.buy_volume"@.len() == 17);
        reveal_strlit("candle.sell_volume");
        assert("candle.sell_volume"@.len() == 18);
    }
    assert(warmup_bars("candle.close_time"@, cfg) == Some(1u32)) by {
        reveal_strlit("candle.close_time");
        assert("candle.close_time"@.len() == 17);
        reveal_strlit("candle.open");
        assert("candle.open"@.len() == 11);
        reveal_strlit("candle.high");
        assert("candle.high"@.len() == 11);
        reveal_strlit("candle.low");
        assert("candle.low"@.len() == 10);
        reveal_strlit("candle.close");
        assert("candle.close"@.len() == 12);
        reveal_strlit("candle.volume");
        assert("candle.volume"@.len() == 13);
        reveal_strlit("candle.buy_volume");
        assert("candle.close_time"@[7] != "candle.buy_volume"@[7]);
        reveal_strlit("candle.sell_volume");
        assert("candle.sell_volume"@.len() == 18);
        reveal_strlit("candle.delta");
        assert("candle.delta"@.len() == 12);
    }
    assert(warmup_bars("ema_fast"@, cfg) == Some(cfg.ema_fast_period as u32)) by {
        reveal_strlit("ema_fast");
        assert("ema_fast"@.len() == 8);
        reveal_strlit("candle.open");
        assert("candle.open"@.len() == 11);
        reveal_strlit("candle.high");
        assert("candle.high"@.len() == 11);
        reveal_strlit("candle.low");
        assert("candle.low"@.len() == 10);
        reveal_strlit("candle.close");
        assert("candle.close"@.len() == 12);
        reveal_strlit("candle.volume");
        assert("candle.volume"@.len() == 13);
        reveal_strlit("candle.buy_volume");
        assert("candle.buy_volume"@.len() == 17);
        reveal_strlit("candle.sell_volume");
        assert("candle.sell_volume"@.len() == 18);
        reveal_strlit("candle.delta");
        assert("candle.delta"@.len() == 12);
        reveal_strlit("candle.close_time");
        assert("candle.close_time"@.len() == 17);
    }
    assert(warmup_bars("ema_slow"@, cfg) == Some(cfg.ema_slow_period as u32)) by {
        reveal_strlit("ema_slow");
        assert("ema_slow"@.len() == 8);
        reveal_strlit("candle.open");
        assert("candle.open"@.len() == 11);
        reveal_strlit("candle.high");
        assert("candle.high"@.len() == 11);
        reveal_strlit("candle.low");
        assert("candle.low"@.len() == 10);
        reveal_strlit("candle.close");
        assert("candle.close"@.len() == 12);
        reveal_strlit("candle.volume");
        assert("candle.volume"@.len() == 13);
        reveal_strlit("candle.buy_volume");
        assert("candle.buy_volume"@.len() == 17);
        reveal_strlit("candle.sell_volume");
        assert("candle.sell_volume"@.len() == 18);
        reveal_strlit("candle.delta");
        assert("candle.delta"@.len() == 12);
        reveal_strlit("candle.close_time");
        assert("candle.close_time"@.len() == 17);
        reveal_strlit("ema_fast");
        assert("ema_slow"@[4] != "ema_fast"@[4]);
    }
    assert(warmup_bars("vwma"@, cfg) == Some(cfg.vwma_lookback as u32)) by {
        reveal_strlit("vwma");
        assert("vwma"@.len() == 4);
        reveal_strlit("candle.open");
        assert("candle.open"@.len() == 11);
        reveal_strlit("candle.high");
        assert("candle.high"@.len() == 11);
        reveal_strlit("candle.low");
        assert("candle.low"@.len() == 10);
        reveal_strlit("candle.close");
        assert("candle.close"@.len() == 12);
        reveal_strlit("candle.volume");
        assert("candle.volume"@.len() == 13);
        reveal_strlit("candle.buy_volume");
        assert("candle.buy_volume"@.len() == 17);
        reveal_strlit("candle.sell_volume");
        assert("candle.sell_volume"@.len() == 18);
        reveal_strlit("candle.delta");
        assert("candle.delta"@.len() == 12);
        reveal_strlit("candle.close_time");
        assert("candle.close_time"@.len() == 17);
        reveal_strlit("ema_fast");
        assert("ema_fast"@.len() == 8);
        reveal_strlit("ema_slow");
        assert("ema_slow"@.len() == 8);
    }
    assert(warmup_bars("atr"@, cfg) == Some(((cfg.atr_period as u32) + 1) as u32)) by {
        reveal_strlit("atr");
        assert("atr"@.len() == 3);
        reveal_strlit("candle.open");
        assert("candle.open"@.len() == 11);
        reveal_strlit("candle.high");
        assert("candle.high"@.len() == 11);
        reveal_strlit("candle.low");
        assert("candle.low"@.len() == 10);
        reveal_strlit("candle.close");
        assert("candle.close"@.len() == 12);
        reveal_strlit("candle.volume");
        assert("candle.volume"@.len() == 13);
        reveal_strlit("candle.buy_volume");
        assert("candle.buy_volume"@.len() == 17);
        reveal_strlit("candle.sell_volume");
        assert("candle.sell_volume"@.len() == 18);
        reveal_strlit("candle.delta");
        assert("candle.delta"@.len() == 12);
        reveal_strlit("candle.close_time");
        assert("candle.close_time"@.len() == 17);
        reveal_strlit("ema_fast");
        assert("ema_fast"@.len() == 8);
        reveal_strlit("ema_slow");
        assert("ema_slow"@.len() == 8);
        reveal_strlit("vwma");
        assert("vwma"@.len() == 4);
    }
    assert(warmup_bars("atr_pct"@, cfg) == Some(((cfg.atr_period as u32) + 1) as u32)) by {
        reveal_strlit("atr_pct");
        assert("atr_pct"@.len() == 7);
        reveal_strlit("candle.open");
        assert("candle.open"@.len() == 11);
        reveal_strlit("candle.high");
        assert("candle.high"@.len() == 11);
        reveal_strlit("candle.low");
        assert("candle.low"@.len() == 10);
        reveal_strlit("candle.close");
        assert("candle.close"@.len() == 12);
        reveal_strlit("candle.volume");
        assert("candle.volume"@.len() == 13);
        reveal_strlit("candle.buy_volume");
        assert("candle.buy_volume"@.len() == 17);
        reveal_strlit("candle.sell_volume");
        assert("candle.sell_volume"@.len() == 18);
        reveal_strlit("candle.delta");
        assert("candle.delta"@.len() == 12);
        reveal_strlit("candle.close_time");
        assert("candle.close_time"@.len() == 17);
        reveal_strlit("ema_fast");
        assert("ema_fast"@.len() == 8);
        reveal_strlit("ema_slow");
        assert("ema_slow"@.len() == 8);
        reveal_strlit("vwma");
        assert("vwma"@.len() == 4);
        reveal_strlit("atr");
        assert("atr"@.len() == 3);
    }
    assert(warmup_bars("atr_pct_baseline"@, cfg) == Some(cfg.vol_baseline_lookback_bars as u32)) by {
        reveal_strlit("atr_pct_baseline");
        assert("atr_pct_baseline"@.len() == 16);
        reveal_strlit("candle.open");
        assert("candle.open"@.len() == 11);
        reveal_strlit("candle.high");
        assert("candle.high"@.len() == 11);
        reveal_strlit("candle.low");
        assert("candle.low"@.len() == 10);
        reveal_strlit("candle.close");
        assert("candle.close"@.len() == 12);
        reveal_strlit("candle.volume");
        assert("candle.volume"@.len() == 13);
        reveal_strlit("candle.buy_volume");
        assert("candle.buy_volume"@.len() == 17);
        reveal_strlit("candle.sell_volume");
        assert("candle.sell_volume"@.len() == 18);
        reveal_strlit("candle.delta");
        assert("candle.delta"@.len() == 12);
        reveal_strlit("candle.close_time");
        assert("candle.close_time"@.len() == 17);
        reveal_strlit("ema_fast");
        assert("ema_fast"@.len() == 8);
        reveal_strlit("ema_slow");
        assert("ema_slow"@.len() == 8);
        reveal_strlit("vwma");
        assert("vwma"@.len() == 4);
        reveal_strlit("atr");
        assert("atr"@.len() == 3);
        reveal_strlit("atr_pct");
        assert("atr_pct"@.len() == 7);
    }
    assert(warmup_bars("vol_ratio"@, cfg) == Some(({
            let atr_rows = (cfg.atr_period + 1) as usize;
            let m = if cfg.vol_baseline_lookback_bars >= atr_rows { cfg.vol_baseline_lookback_bars } else { atr_rows };
            if m >= 2 { m } else { 2 }
        }) as u32)) by {
        reveal_strlit("vol_ratio");
        assert("vol_ratio"@.len() == 9);
        reveal_strlit("candle.open");
        assert("candle.open"@.len() == 11);
        reveal_strlit("candle.high");
        assert("candle.high"@.len() == 11);
        reveal_strlit("candle.low");
        assert("candle.low"@.len() == 10);
        reveal_strlit("candle.close");
        assert("candle.close"@.len() == 12);
        reveal_strlit("candle.volume");
        assert("candle.volume"@.len() == 13);
        reveal_strlit("candle.buy_volume");
        assert("candle.buy_volume"@.len() == 17);
        reveal_strlit("candle.sell_volume");
        assert("candle.sell_volume"@.len() == 18);
        reveal_strlit("candle.delta");
        assert("candle.delta"@.len() == 12);
        reveal_strlit("candle.close_time");
        assert("candle.close_time"@.len() == 17);
        reveal_strlit("ema_fast");
        assert("ema_fast"@.len() == 8);
        reveal_strlit("ema_slow");
        assert("ema_slow"@.len() == 8);
        reveal_strlit("vwma");
        assert("vwma"@.len() == 4);
        reveal_strlit("atr");
        assert("atr"@.len() == 3);
        reveal_strlit("atr_pct");
        assert("atr_pct"@.len() == 7);
        reveal_strlit("atr_pct_baseline");
        assert("atr_pct_baseline"@.len() == 16);
    }
    assert(warmup_bars("cvd_ema3"@, cfg) == Some(8u32)) by {
        reveal_strlit("cvd_ema3");
        assert("cvd_ema3"@.len() == 8);
        reveal_strlit("candle.open");
        assert("candle.open"@.len() == 11);
        reveal_strlit("candle.high");
        assert("candle.high"@.len() == 11);
        reveal_strlit("candle.low");
        assert("candle.low"@.len() == 10);
        reveal_strlit("candle.close");
        assert("candle.close"@.len() == 12);
        reveal_strlit("candle.volume");
        assert("candle.volume"@.len() == 13);
        reveal_strlit("candle.buy_volume");
        assert("candle.buy_volume"@.len() == 17);
        reveal_strlit("candle.sell_volume");
        assert("candle.sell_volume"@.len() == 18);
        reveal_strlit("candle.delta");
        assert("candle.delta"@.len() == 12);
        reveal_strlit("candle.close_time");
        assert("candle.close_time"@.len() == 17);
        reveal_strlit("ema_fast");
        assert("cvd_ema3"@[0] != "ema_fast"@[0]);
        reveal_strlit("ema_slow");
        assert("cvd_ema3"@[0] != "ema_slow"@[0]);
        reveal_strlit("vwma");
        assert("vwma"@.len() == 4);
        reveal_strlit("atr");
        assert("atr"@.len() == 3);
        reveal_strlit("atr_pct");
        assert("atr_pct"@.len() == 7);
        reveal_strlit("atr_pct_baseline");
        assert("atr_pct_baseline"@.len() == 16);
        reveal_strlit("vol_ratio");
        assert("vol_ratio"@.len() == 9);
    }
    assert(warmup_bars("cvd_ema3_slope"@, cfg) == Some(12u32)) by {
        reveal_strlit("cvd_ema3_slope");
        assert("cvd_ema3_slope"@.len() == 14);
        reveal_strlit("candle.open");
        assert("candle.open"@.len() == 11);
        reveal_strlit("candle.high");
        assert("candle.high"@.len() == 11);
        reveal_strlit("candle.low");
        assert("candle.low"@.len() == 10);
        reveal_strlit("candle.close");
        assert("candle.close"@.len() == 12);
        reveal_strlit("candle.volume");
        assert("candle.volume"@.len() == 13);
        reveal_strlit("candle.buy_volume");
        assert("candle.buy_volume"@.len() == 17);
        reveal_strlit("candle.sell_volume");
        assert("candle.sell_volume"@.len() == 18);
        reveal_strlit("candle.delta");
        assert("candle.delta"@.len() == 12);
        reveal_strlit("candle.close_time");
        assert("candle.close_time"@.len() == 17);
        reveal_strlit("ema_fast");
        assert("ema_fast"@.len() == 8);
        reveal_strlit("ema_slow");
        assert("ema_slow"@.len() == 8);
        reveal_strlit("vwma");
        assert("vwma"@.len() == 4);
        reveal_strlit("atr");
        assert("atr"@.len() == 3);
        reveal_strlit("atr_pct");
        assert("atr_pct"@.len() == 7);
        reveal_strlit("atr_pct_baseline");
        assert("atr_pct_baseline"@.len() == 16);
        reveal_strlit("vol_ratio");
        assert("vol_ratio"@.len() == 9);
        reveal_strlit("cvd_ema3");
        assert("cvd_ema3"@.len() == 8);
    }
    assert(warmup_bars("vp_val"@, cfg) == (if cfg.vp_enabled { Some(cfg.vp_lookback_bars as u32) } else { Some(1u32) })) by {
        reveal_strlit("vp_val");
        assert("vp_val"@.len() == 6);
        reveal_strlit("candle.open");
        assert("candle.open"@.len() == 11);
        reveal_strlit("candle.high");
        assert("candle.high"@.len() == 11);
        reveal_strlit("candle.low");
        assert("candle.low"@.len() == 10);
        reveal_strlit("candle.close");
        assert("candle.close"@.len() == 12);
        reveal_strlit("candle.volume");
        assert("candle.volume"@.len() == 13);
        reveal_strlit("candle.buy_volume");
        assert("candle.buy_volume"@.len() == 17);
        reveal_strlit("candle.sell_volume");
        assert("candle.sell_volume"@.len() == 18);
        reveal_strlit("candle.delta");
        assert("candle.delta"@.len() == 12);
        reveal_strlit("candle.close_time");
        assert("candle.close_time"@.len() == 17);
        reveal_strlit("ema_fast");
        assert("ema_fast"@.len() == 8);
        reveal_strlit("ema_slow");
        assert("ema_slow"@.len() == 8);
        reveal_strlit("vwma");
        assert("vwma"@.len() == 4);
        reveal_strlit("atr");
        assert("atr"@.len() == 3);
        reveal_strlit("atr_pct");
        assert("atr_pct"@.len() == 7);
        reveal_strlit("atr_pct_baseline");
        assert("atr_pct_baseline"@.len() == 16);
        reveal_strlit("vol_ratio");
        assert("vol_ratio"@.len() == 9);
        reveal_strlit("cvd_ema3");
        assert("cvd_ema3"@.len() == 8);
        reveal_strlit("cvd_ema3_slope");
        assert("cvd_ema3_slope"@.len() == 14);
    }
    assert(warmup_bars("vp_poc"@, cfg) == (if cfg.vp_enabled { Some(cfg.vp_lookback_bars as u32) } else { Some(1u32) })) by {
        reveal_strlit("vp_poc");
        assert("vp_poc"@.len() == 6);
        reveal_strlit("candle.open");
        assert("candle.open"@.len() == 11);
        reveal_strlit("candle.high");
        assert("candle.high"@.len() == 11);
        reveal_strlit("candle.low");
        assert("candle.low"@.len() == 10);
        reveal_strlit("candle.close");
        assert("candle.close"@.len() == 12);
        reveal_strlit("candle.volume");
        assert("candle.volume"@.len() == 13);
        reveal_strlit("candle.buy_volume");
        assert("candle.buy_volume"@.len() == 17);
        reveal_strlit("candle.sell_volume");
        assert("candle.sell_volume"@.len() == 18);
        reveal_strlit("candle.delta");
        assert("candle.delta"@.len() == 12);
        reveal_strlit("candle.close_time");
        assert("candle.close_time"@.len() == 17);
        reveal_strlit("ema_fast");
        assert("ema_fast"@.len() == 8);
        reveal_strlit("ema_slow");
        assert("ema_slow"@.len() == 8);
        reveal_strlit("vwma");
        assert("vwma"@.len() == 4);
        reveal_strlit("atr");
        assert("atr"@.len() == 3);
        reveal_strlit("atr_pct");
        assert("atr_pct"@.len() == 7);
        reveal_strlit("atr_pct_baseline");
        assert("atr_pct_baseline"@.len() == 16);
        reveal_strlit("vol_ratio");
        assert("vol_ratio"@.len() == 9);
        reveal_strlit("cvd_ema3");
        assert("cvd_ema3"@.len() == 8);
        reveal_strlit("cvd_ema3_slope");
        assert("cvd_ema3_slope"@.len() == 14);
        reveal_strlit("vp_val");
        assert("vp_poc"@[3] != "vp_val"@[3]);
    }
    assert(warmup_bars("vp_vah"@, cfg) == (if cfg.vp_enabled { Some(cfg.vp_lookback_bars as u32) } else { Some(1u32) })) by {
        reveal_strlit("vp_vah");
        assert("vp_vah"@.len() == 6);
        reveal_strlit("candle.open");
        assert("candle.open"@.len() == 11);
        reveal_strlit("candle.high");
        assert("candle.high"@.len() == 11);
        reveal_strlit("candle.low");
        assert("candle.low"@.len() == 10);
        reveal_strlit("candle.close");
        assert("candle.close"@.len() == 12);
        reveal_strlit("candle.volume");
        assert("candle.volume"@.len() == 13);
        reveal_strlit("candle.buy_volume");
        assert("candle.buy_volume"@.len() == 17);
        reveal_strlit("candle.sell_volume");
        assert("candle.sell_volume"@.len() == 18);
        reveal_strlit("candle.delta");
        assert("candle.delta"@.len() == 12);
        reveal_strlit("candle.close_time");
        assert("candle.close_time"@.len() == 17);
        reveal_strlit("ema_fast");
        assert("ema_fast"@.len() == 8);
        reveal_strlit("ema_slow");
        assert("ema_slow"@.len() == 8);
        reveal_strlit("vwma");
        assert("vwma"@.len() == 4);
        reveal_strlit("atr");
        assert("atr"@.len() == 3);
        reveal_strlit("atr_pct");
        assert("atr_pct"@.len() == 7);
        reveal_strlit("atr_pct_baseline");
        assert("atr_pct_baseline"@.len() == 16);
        reveal_strlit("vol_ratio");
        assert("vol_ratio"@.len() == 9);
        reveal_strlit("cvd_ema3");
        assert("cvd_ema3"@.len() == 8);
        reveal_strlit("cvd_ema3_slope");
        assert("cvd_ema3_slope"@.len() == 14);
        reveal_strlit("vp_val");
        assert("vp_vah"@[5] != "vp_val"@[5]);
        reveal_strlit("vp_poc");
        assert("vp_vah"@[3] != "vp_poc"@[3]);
    }
    assert(warmup_bars("ema_fast_higher"@, cfg) == Some(higher_tf_warmup_bars(cfg))) by {
        reveal_strlit("ema_fast_higher");
        assert("ema_fast_higher"@.len() == 15);
        reveal_strlit("candle.open");
        assert("candle.open"@.len() == 11);
        reveal_strlit("candle.high");
        assert("candle.high"@.len() == 11);
        reveal_strlit("candle.low");
        assert("candle.low"@.len() == 10);
        reveal_strlit("candle.close");
        assert("candle.close"@.len() == 12);
        reveal_strlit("candle.volume");
        assert("candle.volume"@.len() == 13);
        reveal_strlit("candle.buy_volume");
        assert("candle.buy_volume"@.len() == 17);
        reveal_strlit("candle.sell_volume");
        assert("candle.sell_volume"@.len() == 18);
        reveal_strlit("candle.delta");
        assert("candle.delta"@.len() == 12);
        reveal_strlit("candle.close_time");
        assert("candle.close_time"@.len() == 17);
        reveal_strlit("ema_fast");
        assert("ema_fast"@.len() == 8);
        reveal_strlit("ema_slow");
        assert("ema_slow"@.len() == 8);
        reveal_strlit("vwma");
        assert("vwma"@.len() == 4);
        reveal_strlit("atr");
        assert("atr"@.len() == 3);
        reveal_strlit("atr_pct");
        assert("atr_pct"@.len() == 7);
        reveal_strlit("atr_pct_baseline");
        assert("atr_pct_baseline"@.len() == 16);
        reveal_strlit("vol_ratio");
        assert("vol_ratio"@.len() == 9);
        reveal_strlit("cvd_ema3");
        assert("cvd_ema3"@.len() == 8);
        reveal_strlit("cvd_ema3_slope");
        assert("cvd_ema3_slope"@.len() == 14);
        reveal_strlit("vp_val");
        assert("vp_val"@.len() == 6);
        reveal_strlit("vp_poc");
        assert("vp_poc"@.len() == 6);
        reveal_strlit("vp_vah");
        assert("vp_vah"@.len() == 6);
    }
    assert(warmup_bars("ema_slow_higher"@, cfg) == Some(higher_tf_warmup_bars(cfg))) by {
        reveal_strlit("ema_slow_higher");
        assert("ema_slow_higher"@.len() == 15);
        reveal_strlit("candle.open");
        assert("candle.open"@.len() == 11);
        reveal_strlit("candle.high");
        assert("candle.high"@.len() == 11);
        reveal_strlit("candle.low");
        assert("candle.low"@.len() == 10);
        reveal_strlit("candle.close");
        assert("candle.close"@.len() == 12);
        reveal_strlit("candle.volume");
        assert("candle.volume"@.len() == 13);
        reveal_strlit("candle.buy_volume");
        assert("candle.buy_volume"@.len() == 17);
        reveal_strlit("candle.sell_volume");
        assert("candle.sell_volume"@.len() == 18);
        reveal_strlit("candle.delta");
        assert("candle.delta"@.len() == 12);
        reveal_strlit("candle.close_time");
        assert("candle.close_time"@.len() == 17);
        reveal_strlit("ema_fast");
        assert("ema_fast"@.len() == 8);
        reveal_strlit("ema_slow");
        assert("ema_slow"@.len() == 8);
        reveal_strlit("vwma");
        assert("vwma"@.len() == 4);
        reveal_strlit("atr");
        assert("atr"@.len() == 3);
        reveal_strlit("atr_pct");
        assert("atr_pct"@.len() == 7);
        reveal_strlit("atr_pct_baseline");
        assert("atr_pct_baseline"@.len() == 16);
        reveal_strlit("vol_ratio");
        assert("vol_ratio"@.len() == 9);
        reveal_strlit("cvd_ema3");
        assert("cvd_ema3"@.len() == 8);
        reveal_strlit("cvd_ema3_slope");
        assert("cvd_ema3_slope"@.len() == 14);
        reveal_strlit("vp_val");
        assert("vp_val"@.len() == 6);
        reveal_strlit("vp_poc");
        assert("vp_poc"@.len() == 6);
        reveal_strlit("vp_vah");
        assert("vp_vah"@.len() == 6);
        reveal_strlit("ema_fast_higher");
        assert("ema_slow_higher"@[4] != "ema_fast_higher"@[4]);
    }
}

/// Warm-up rows of momentum leaves (part 1).
proof fn lemma_momentum_leaves_1(cfg: WarmupConfig)
    ensures
        snapshot_warmup_bars("momentum.rsi_14"@, cfg) == Some(15u32),
        snapshot_warmup_bars("momentum.macd_line"@, cfg) == Some(35u32),
        snapshot_warmup_bars("momentum.macd_signal"@, cfg) == Some(35u32),
        snapshot_warmup_bars("momentum.macd_hist"@, cfg) == Some(35u32),
        snapshot_warmup_bars("momentum.stoch_k"@, cfg) == Some(20u32),
        snapshot_warmup_bars("momentum.stoch_d"@, cfg) == Some(20u32),
{
    assert(snapshot_warmup_bars("momentum.rsi_14"@, cfg) == Some(15u32)) by {
        reveal_strlit("momentum.rsi_14");
        reveal_strlit("momentum.");
        assert("momentum.rsi_14"@.subrange(0, 9) =~= "momentum."@);
        assert("momentum.rsi_14"@.len() == 15);
    }
    assert(snapshot_warmup_bars("momentum.macd_line"@, cfg) == Some(35u32)) by {
        reveal_strlit("momentum.macd_line");
        reveal_strlit("momentum.");
        assert("momentum.macd_line"@.subrange(0, 9) =~= "momentum."@);
        assert("momentum.macd_line"@.len() == 18);
        reveal_strlit("momentum.rsi_14");
        assert("momentum.rsi_14"@.len() == 15);
    }
    assert(snapshot_warmup_bars("momentum.macd_signal"@, cfg) == Some(35u32)) by {
        reveal_strlit("momentum.macd_signal");
        reveal_strlit("momentum.");
        assert("momentum.macd_signal"@.subrange(0, 9) =~= "momentum."@);
        assert("momentum.macd_signal"@.len() == 20);
        reveal_strlit("momentum.rsi_14");
        assert("momentum.rsi_14"@.len() == 15);
        reveal_strlit("momentum.macd_line");
        assert("momentum.macd_line"@.len() == 18);
    }
    assert(snapshot_warmup_bars("momentum.macd_hist"@, cfg) == Some(35u32)) by {
        reveal_strlit("momentum.macd_hist");
        reveal_strlit("momentum.");
        assert("momentum.macd_hist"@.subrange(0, 9) =~= "momentum."@);
        assert("momentum.macd_hist"@.len() == 18);
        reveal_strlit("momentum.rsi_14");
        assert("momentum.rsi_14"@.len() == 15);
        reveal_strlit("momentum.macd_line");
        assert("momentum.macd_hist"@[14] != "momentum.macd_line"@[14]);
        reveal_strlit("momentum.macd_signal");
        assert("momentum.macd_signal"@.len() == 20);
    }
    assert(snapshot_warmup_bars("momentum.stoch_k"@, cfg) == Some(20u32)) by {
        reveal_strlit("momentum.stoch_k");
        reveal_strlit("momentum.");
        assert("momentum.stoch_k"@.subrange(0, 9) =~= "momentum."@);
        assert("momentum.stoch_k"@.len() == 16);
        reveal_strlit("momentum.rsi_14");
        assert("momentum.rsi_14"@.len() == 15);
        reveal_strlit("momentum.macd_line");
        assert("momentum.macd_line"@.len() == 18);
        reveal_strlit("momentum.macd_signal");
        assert("momentum.macd_signal"@.len() == 20);
        reveal_strlit("momentum.macd_hist");
        assert("momentum.macd_hist"@.len() == 18);
    }
    assert(snapshot_warmup_bars("momentum.stoch_d"@, cfg) == Some(20u32)) by {
        reveal_strlit("momentum.stoch_d");
        reveal_strlit("momentum.");
        assert("momentum.stoch_d"@.subrange(0, 9) =~= "momentum."@);
        assert("momentum.stoch_d"@.len() == 16);
        reveal_strlit("momentum.rsi_14");
        assert("momentum.rsi_14"@.len() == 15);
        reveal_strlit("momentum.macd_line");
        assert("momentum.macd_line"@.len() == 18);
        reveal_strlit("momentum.macd_signal");
        assert("momentum.macd_signal"@.len() == 20);
        reveal_strlit("momentum.macd_hist");
        assert("momentum.macd_hist"@.len() == 18);
        reveal_strlit("momentum.stoch_k");
        assert("momentum.stoch_d"@[15] != "momentum.stoch_k"@[15]);
    }
}

/// Warm-up rows of momentum leaves (part 2).
proof fn lemma_momentum_leaves_2(cfg: WarmupConfig)
    ensures
        snapshot_warmup_bars("momentum.stoch_rsi_k"@, cfg) == Some(40u32),
        snapshot_warmup_bars("momentum.stoch_rsi_d"@, cfg) == Some(40u32),
        snapshot_warmup_bars("momentum.cci_20"@, cfg) == Some(21u32),
        snapshot_warmup_bars("momentum.williams_r_14"@, cfg) == Some(15u32),
        snapshot_warmup_bars("momentum.roc_10"@, cfg) == Some(11u32),
        snapshot_warmup_bars("momentum.mfi_14"@, cfg) == Some(15u32),
{
    assert(snapshot_warmup_bars("momentum.stoch_rsi_k"@, cfg) == Some(40u32)) by {
        reveal_strlit("momentum.stoch_rsi_k");
        reveal_strlit("momentum.");
        assert("momentum.stoch_rsi_k"@.subrange(0, 9) =~= "momentum."@);
        assert("momentum.stoch_rsi_k"@.len() == 20);
        reveal_strlit("momentum.rsi_14");
        assert("momentum.rsi_14"@.len() == 15);
        reveal_strlit("momentum.macd_line");
        assert("momentum.macd_line"@.len() == 18);
        reveal_strlit("momentum.macd_signal");
        assert("momentum.stoch_rsi_k"@[9] != "momentum.macd_signal"@[9]);
        reveal_strlit("momentum.macd_hist");
        assert("momentum.macd_hist"@.len() == 18);
        reveal_strlit("momentum.stoch_k");
        assert("momentum.stoch_k"@.len() == 16);
        reveal_strlit("momentum.stoch_d");
        assert("momentum.stoch_d"@.len() == 16);
    }
    assert(snapshot_warmup_bars("momentum.stoch_rsi_d"@, cfg) == Some(40u32)) by {
        reveal_strlit("momentum.stoch_rsi_d");
        reveal_strlit("momentum.");
        assert("momentum.stoch_rsi_d"@.subrange(0, 9) =~= "momentum."@);
        assert("momentum.stoch_rsi_d"@.len() == 20);
        reveal_strlit("momentum.rsi_14");
        assert("momentum.rsi_14"@.len() == 15);
        reveal_strlit("momentum.macd_line");
        assert("momentum.macd_line"@.len() == 18);
        reveal_strlit("momentum.macd_signal");
        assert("momentum.stoch_rsi_d"@[9] != "momentum.macd_signal"@[9]);
        reveal_strlit("momentum.macd_hist");
        assert("momentum.macd_hist"@.len() == 18);
        reveal_strlit("momentum.stoch_k");
        assert("momentum.stoch_k"@.len() == 16);
        reveal_strlit("momentum.stoch_d");
        assert("momentum.stoch_d"@.len() == 16);
        reveal_strlit("momentum.stoch_rsi_k");
        assert("momentum.stoch_rsi_d"@[19] != "momentum.stoch_rsi_k"@[19]);
    }
    assert(snapshot_warmup_bars("momentum.cci_20"@, cfg) == Some(21u32)) by {
        reveal_strlit("momentum.cci_20");
        reveal_strlit("momentum.");
        assert("momentum.cci_20"@.subrange(0, 9) =~= "momentum."@);
        assert("momentum.cci_20"@.len() == 15);
        reveal_strlit("momentum.rsi_14");
        assert("momentum.cci_20"@[9] != "momentum.rsi_14"@[9]);
        reveal_strlit("momentum.macd_line");
        assert("momentum.macd_line"@.len() == 18);
        reveal_strlit("momentum.macd_signal");
        assert("momentum.macd_signal"@.len() == 20);
        reveal_strlit("momentum.macd_hist");
        assert("momentum.macd_hist"@.len() == 18);
        reveal_strlit("momentum.stoch_k");
        assert("momentum.stoch_k"@.len() == 16);
        reveal_strlit("momentum.stoch_d");
        assert("momentum.stoch_d"@.len() == 16);
        reveal_strlit("momentum.stoch_rsi_k");
        assert("momentum.stoch_rsi_k"@.len() == 20);
        reveal_strlit("momentum.stoch_rsi_d");
        assert("momentum.stoch_rsi_d"@.len() == 20);
    }
    assert(snapshot_warmup_bars("momentum.williams_r_14"@, cfg) == Some(15u32)) by {
        reveal_strlit("momentum.williams_r_14");
        reveal_strlit("momentum.");
        assert("momentum.williams_r_14"@.subrange(0, 9) =~= "momentum."@);
        assert("momentum.williams_r_14"@.len() == 22);
        reveal_strlit("momentum.rsi_14");
        assert("momentum.rsi_14"@.len() == 15);
        reveal_strlit("momentum.macd_line");
        assert("momentum.macd_line"@.len() == 18);
        reveal_strlit("momentum.macd_signal");
        assert("momentum.macd_signal"@.len() == 20);
        reveal_strlit("momentum.macd_hist");
        assert("momentum.macd_hist"@.len() == 18);
        reveal_strlit("momentum.stoch_k");
        assert("momentum.stoch_k"@.len() == 16);
        reveal_strlit("momentum.stoch_d");
        assert("momentum.stoch_d"@.len() == 16);
        reveal_strlit("momentum.stoch_rsi_k");
        assert("momentum.stoch_rsi_k"@.len() == 20);
        reveal_strlit("momentum.stoch_rsi_d");
        assert("momentum.stoch_rsi_d"@.len() == 20);
        reveal_strlit("momentum.cci_20");
        assert("momentum.cci_20"@.len() == 15);
    }
    assert(snapshot_warmup_bars("momentum.roc_10"@, cfg) == Some(11u32)) by {
        reveal_strlit("momentum.roc_10");
        reveal_strlit("momentum.");
        assert("momentum.roc_10"@.subrange(0, 9) =~= "momentum."@);
        assert("momentum.roc_10"@.len() == 15);
        reveal_strlit("momentum.rsi_14");
        assert("momentum.roc_10"@[10] != "momentum.rsi_14"@[10]);
        reveal_strlit("momentum.macd_line");
        assert("momentum.macd_line"@.len() == 18);
        reveal_strlit("momentum.macd_signal");
        assert("momentum.macd_signal"@.len() == 20);
        reveal_strlit("momentum.macd_hist");
        assert("momentum.macd_hist"@.len() == 18);
        reveal_strlit("momentum.stoch_k");
        assert("momentum.stoch_k"@.len() == 16);
        reveal_strlit("momentum.stoch_d");
        assert("momentum.stoch_d"@.len() == 16);
        reveal_strlit("momentum.stoch_rsi_k");
        assert("momentum.stoch_rsi_k"@.len() == 20);
        reveal_strlit("momentum.stoch_rsi_d");
        assert("momentum.stoch_rsi_d"@.len() == 20);
        reveal_strlit("momentum.cci_20");
        assert("momentum.roc_10"@[9] != "momentum.cci_20"@[9]);
        reveal_strlit("momentum.williams_r_14");
        assert("momentum.williams_r_14"@.len() == 22);
    }
    assert(snapshot_warmup_bars("momentum.mfi_14"@, cfg) == Some(15u32)) by {
        reveal_strlit("momentum.mfi_14");
        reveal_strlit("momentum.");
        assert("momentum.mfi_14"@.subrange(0, 9) =~= "momentum."@);
        assert("momentum.mfi_14"@.len() == 15);
        reveal_strlit("momentum.rsi_14");
        assert("momentum.mfi_14"@[9] != "momentum.rsi_14"@[9]);
        reveal_strlit("momentum.macd_line");
        assert("momentum.macd_line"@.len() == 18);
        reveal_strlit("momentum.macd_signal");
        assert("momentum.macd_signal"@.len() == 20);
        reveal_strlit("momentum.macd_hist");
        assert("momentum.macd_hist"@.len() == 18);
        reveal_strlit("momentum.stoch_k");
        assert("momentum.stoch_k"@.len() == 16);
        reveal_strlit("momentum.stoch_d");
        assert("momentum.stoch_d"@.len() == 16);
        reveal_strlit("momentum.stoch_rsi_k");
        assert("momentum.stoch_rsi_k"@.len() == 20);
        reveal_strlit("momentum.stoch_rsi_d");
        assert("momentum.stoch_rsi_d"@.len() == 20);
        reveal_strlit("momentum.cci_20");
        assert("momentum.mfi_14"@[9] != "momentum.cci_20"@[9]);
        reveal_strlit("momentum.williams_r_14");
        assert("momentum.williams_r_14"@.len() == 22);
        reveal_strlit("momentum.roc_10");
        assert("momentum.mfi_14"@[9] != "momentum.roc_10"@[9]);
    }
}

/// Warm-up rows of momentum leaves (part 3).
proof fn lemma_momentum_leaves_3(cfg: WarmupConfig)
    ensures
        snapshot_warmup_bars("momentum.ultosc_7_14_28"@, cfg) == Some(29u32),
        snapshot_warmup_bars("momentum.tsi_25_13"@, cfg) == Some(26u32),
        snapshot_warmup_bars("momentum.awesome_oscillator_5_34"@, cfg) == Some(35u32),
        snapshot_warmup_bars("momentum.ppo_line"@, cfg) == Some(35u32),
        snapshot_warmup_bars("momentum.ppo_signal"@, cfg) == Some(35u32),
        snapshot_warmup_bars("momentum.ppo_hist"@, cfg) == Some(35u32),
{
    assert(snapshot_warmup_bars("momentum.ultosc_7_14_28"@, cfg) == Some(29u32)) by {
        reveal_strlit("momentum.ultosc_7_14_28");
        reveal_strlit("momentum.");
        assert("momentum.ultosc_7_14_28"@.subrange(0, 9) =~= "momentum."@);
        assert("momentum.ultosc_7_14_28"@.len() == 23);
        reveal_strlit("momentum.rsi_14");
        assert("momentum.rsi_14"@.len() == 15);
        reveal_strlit("momentum.macd_line");
        assert("momentum.macd_line"@.len() == 18);
        reveal_strlit("momentum.macd_signal");
        assert("momentum.macd_signal"@.len() == 20);
        reveal_strlit("momentum.macd_hist");
        assert("momentum.macd_hist"@.len() == 18);
        reveal_strlit("momentum.stoch_k");
        assert("momentum.stoch_k"@.len() == 16);
        reveal_strlit("momentum.stoch_d");
        assert("momentum.stoch_d"@.len() == 16);
        reveal_strlit("momentum.stoch_rsi_k");
        assert("momentum.stoch_rsi_k"@.len() == 20);
        reveal_strlit("momentum.stoch_rsi_d");
        assert("momentum.stoch_rsi_d"@.len() == 20);
        reveal_strlit("momentum.cci_20");
        assert("momentum.cci_20"@.len() == 15);
        reveal_strlit("momentum.williams_r_14");
        assert("momentum.williams_r_14"@.len() == 22);
        reveal_strlit("momentum.roc_10");
        assert("momentum.roc_10"@.len() == 15);
        reveal_strlit("momentum.mfi_14");
        assert("momentum.mfi_14"@.len() == 15);
    }
    assert(snapshot_warmup_bars("momentum.tsi_25_13"@, cfg) == Some(26u32)) by {
        reveal_strlit("momentum.tsi_25_13");
        reveal_strlit("momentum.");
        assert("momentum.tsi_25_13"@.subrange(0, 9) =~= "momentum."@);
        assert("momentum.tsi_25_13"@.len() == 18);
        reveal_strlit("momentum.rsi_14");
        assert("momentum.rsi_14"@.len() == 15);
        reveal_strlit("momentum.macd_line");
        assert("momentum.tsi_25_13"@[9] != "momentum.macd_line"@[9]);
        reveal_strlit("momentum.macd_signal");
        assert("momentum.macd_signal"@.len() == 20);
        reveal_strlit("momentum.macd_hist");
        assert("momentum.tsi_25_13"@[9] != "momentum.macd_hist"@[9]);
        reveal_strlit("momentum.stoch_k");
        assert("momentum.stoch_k"@.len() == 16);
        reveal_strlit("momentum.stoch_d");
        assert("momentum.stoch_d"@.len() == 16);
        reveal_strlit("momentum.stoch_rsi_k");
        assert("momentum.stoch_rsi_k"@.len() == 20);
        reveal_strlit("momentum.stoch_rsi_d");
        assert("momentum.stoch_rsi_d"@.len() == 20);
        reveal_strlit("momentum.cci_20");
        assert("momentum.cci_20"@.len() == 15);
        reveal_strlit("momentum.williams_r_14");
        assert("momentum.williams_r_14"@.len() == 22);
        reveal_strlit("momentum.roc_10");
        assert("momentum.roc_10"@.len() == 15);
        reveal_strlit("momentum.mfi_14");
        assert("momentum.mfi_14"@.len() == 15);
        reveal_strlit("momentum.ultosc_7_14_28");
        assert("momentum.ultosc_7_14_28"@.len() == 23);
    }
    assert(snapshot_warmup_bars("momentum.awesome_oscillator_5_34"@, cfg) == Some(35u32)) by {
        reveal_strlit("momentum.awesome_oscillator_5_34");
        reveal_strlit("momentum.");
        assert("momentum.awesome_oscillator_5_34"@.subrange(0, 9) =~= "momentum."@);
        assert("momentum.awesome_oscillator_5_34"@.len() == 32);
        reveal_strlit("momentum.rsi_14");
        assert("momentum.rsi_14"@.len() == 15);
        reveal_strlit("momentum.macd_line");
        assert("momentum.macd_line"@.len() == 18);
        reveal_strlit("momentum.macd_signal");
        assert("momentum.macd_signal"@.len() == 20);
        reveal_strlit("momentum.macd_hist");
        assert("momentum.macd_hist"@.len() == 18);
        reveal_strlit("momentum.stoch_k");
        assert("momentum.stoch_k"@.len() == 16);
        reveal_strlit("momentum.stoch_d");
        assert("momentum.stoch_d"@.len() == 16);
        reveal_strlit("momentum.stoch_rsi_k");
        assert("momentum.stoch_rsi_k"@.len() == 20);
        reveal_strlit("momentum.stoch_rsi_d");
        assert("momentum.stoch_rsi_d"@.len() == 20);
        reveal_strlit("momentum.cci_20");
        assert("momentum.cci_20"@.len() == 15);
        reveal_strlit("momentum.williams_r_14");
        assert("momentum.williams_r_14"@.len() == 22);
        reveal_strlit("momentum.roc_10");
        assert("momentum.roc_10"@.len() == 15);
        reveal_strlit("momentum.mfi_14");
        assert("momentum.mfi_14"@.len() == 15);
        reveal_strlit("momentum.ultosc_7_14_28");
        assert("momentum.ultosc_7_14_28"@.len() == 23);
        reveal_strlit("momentum.tsi_25_13");
        assert("momentum.tsi_25_13"@.len() == 18);
    }
    assert(snapshot_warmup_bars("momentum.ppo_line"@, cfg) == Some(35u32)) by {
        reveal_strlit("momentum.ppo_line");
        reveal_strlit("momentum.");
        assert("momentum.ppo_line"@.subrange(0, 9) =~= "momentum."@);
        assert("momentum.ppo_line"@.len() == 17);
        reveal_strlit("momentum.rsi_14");
        assert("momentum.rsi_14"@.len() == 15);
        reveal_strlit("momentum.macd_line");
        assert("momentum.macd_line"@.len() == 18);
        reveal_strlit("momentum.macd_signal");
        assert("momentum.macd_signal"@.len() == 20);
        reveal_strlit("momentum.macd_hist");
        assert("momentum.macd_hist"@.len() == 18);
        reveal_strlit("momentum.stoch_k");
        assert("momentum.stoch_k"@.len() == 16);
        reveal_strlit("momentum.stoch_d");
        assert("momentum.stoch_d"@.len() == 16);
        reveal_strlit("momentum.stoch_rsi_k");
        assert("momentum.stoch_rsi_k"@.len() == 20);
        reveal_strlit("momentum.stoch_rsi_d");
        assert("momentum.stoch_rsi_d"@.len() == 20);
        reveal_strlit("momentum.cci_20");
        assert("momentum.cci_20"@.len() == 15);
        reveal_strlit("momentum.williams_r_14");
        assert("momentum.williams_r_14"@.len() == 22);
        reveal_strlit("momentum.roc_10");
        assert("momentum.roc_10"@.len() == 15);
        reveal_strlit("momentum.mfi_14");
        assert("momentum.mfi_14"@.len() == 15);
        reveal_strlit("momentum.ultosc_7_14_28");
        assert("momentum.ultosc_7_14_28"@.len() == 23);
        reveal_strlit("momentum.tsi_25_13");
        assert("momentum.tsi_25_13"@.len() == 18);
        reveal_strlit("momentum.awesome_oscillator_5_34");
        assert("momentum.awesome_oscillator_5_34"@.len() == 32);
    }
    assert(snapshot_warmup_bars("momentum.ppo_signal"@, cfg) == Some(35u32)) by {
        reveal_strlit("momentum.ppo_signal");
        reveal_strlit("momentum.");
        assert("momentum.ppo_signal"@.subrange(0, 9) =~= "momentum."@);
        assert("momentum.ppo_signal"@.len() == 19);
        reveal_strlit("momentum.rsi_14");
        assert("momentum.rsi_14"@.len() == 15);
        reveal_strlit("momentum.macd_line");
        assert("momentum.macd_line"@.len() == 18);
        reveal_strlit("momentum.macd_signal");
        assert("momentum.macd_signal"@.len() == 20);
        reveal_strlit("momentum.macd_hist");
        assert("momentum.macd_hist"@.len() == 18);
        reveal_strlit("momentum.stoch_k");
        assert("momentum.stoch_k"@.len() == 16);
        reveal_strlit("momentum.stoch_d");
        assert("momentum.stoch_d"@.len() == 16);
        reveal_strlit("momentum.stoch_rsi_k");
        assert("momentum.stoch_rsi_k"@.len() == 20);
        reveal_strlit("momentum.stoch_rsi_d");
        assert("momentum.stoch_rsi_d"@.len() == 20);
        reveal_strlit("momentum.cci_20");
        assert("momentum.cci_20"@.len() == 15);
        reveal_strlit("momentum.williams_r_14");
        assert("momentum.williams_r_14"@.len() == 22);
        reveal_strlit("momentum.roc_10");
        assert("momentum.roc_10"@.len() == 15);
        reveal_strlit("momentum.mfi_14");
        assert("momentum.mfi_14"@.len() == 15);
        reveal_strlit("momentum.ultosc_7_14_28");
        assert("momentum.ultosc_7_14_28"@.len() == 23);
        reveal_strlit("momentum.tsi_25_13");
        assert("momentum.tsi_25_13"@.len() == 18);
        reveal_strlit("momentum.awesome_oscillator_5_34");
        assert("momentum.awesome_oscillator_5_34"@.len() == 32);
        reveal_strlit("momentum.ppo_line");
        assert("momentum.ppo_line"@.len() == 17);
    }
    assert(snapshot_warmup_bars("momentum.ppo_hist"@, cfg) == Some(35u32)) by {
        reveal_strlit("momentum.ppo_hist");
        reveal_strlit("momentum.");
        assert("momentum.ppo_hist"@.subrange(0, 9) =~= "momentum."@);
        assert("momentum.ppo_hist"@.len() == 17);
        reveal_strlit("momentum.rsi_14");
        assert("momentum.rsi_14"@.len() == 15);
        reveal_strlit("momentum.macd_line");
        assert("momentum.macd_line"@.len() == 18);
        reveal_strlit("momentum.macd_signal");
        assert("momentum.macd_signal"@.len() == 20);
        reveal_strlit("momentum.macd_hist");
        assert("momentum.macd_hist"@.len() == 18);
        reveal_strlit("momentum.stoch_k");
        assert("momentum.stoch_k"@.len() == 16);
        reveal_strlit("momentum.stoch_d");
        assert("momentum.stoch_d"@.len() == 16);
        reveal_strlit("momentum.stoch_rsi_k");
        assert("momentum.stoch_rsi_k"@.len() == 20);
        reveal_strlit("momentum.stoch_rsi_d");
        assert("momentum.stoch_rsi_d"@.len() == 20);
        reveal_strlit("momentum.cci_20");
        assert("momentum.cci_20"@.len() == 15);
        reveal_strlit("momentum.williams_r_14");
        assert("momentum.williams_r_14"@.len() == 22);
        reveal_strlit("momentum.roc_10");
        assert("momentum.roc_10"@.len() == 15);
        reveal_strlit("momentum.mfi_14");
        assert("momentum.mfi_14"@.len() == 15);
        reveal_strlit("momentum.ultosc_7_14_28");
        assert("momentum.ultosc_7_14_28"@.len() == 23);
        reveal_strlit("momentum.tsi_25_13");
        assert("momentum.tsi_25_13"@.len() == 18);
        reveal_strlit("momentum.awesome_oscillator_5_34");
        assert("momentum.awesome_oscillator_5_34"@.len() == 32);
        reveal_strlit("momentum.ppo_line");
        assert("momentum.ppo_hist"@[13] != "momentum.ppo_line"@[13]);
        reveal_strlit("momentum.ppo_signal");
        assert("momentum.ppo_signal"@.len() == 19);
    }
}

/// Warm-up rows of momentum leaves (part 4).
proof fn lemma_momentum_leaves_4(cfg: WarmupConfig)
    ensures
        snapshot_warmup_bars("momentum.kst"@, cfg) == Some(50u32),
        snapshot_warmup_bars("momentum.elder_bull"@, cfg) == Some(14u32),
        snapshot_warmup_bars("momentum.elder_bear"@, cfg) == Some(14u32),
        snapshot_warmup_bars("momentum.cmo_14"@, cfg) == Some(15u32),
        snapshot_warmup_bars("momentum.trix_15"@, cfg) == Some(24u32),
        snapshot_warmup_bars("momentum.trix_signal_9"@, cfg) == Some(24u32),
{
    assert(snapshot_warmup_bars("momentum.kst"@, cfg) == Some(50u32)) by {
        reveal_strlit("momentum.kst");
        reveal_strlit("momentum.");
        assert("momentum.kst"@.subrange(0, 9) =~= "momentum."@);
        assert("momentum.kst"@.len() == 12);
        reveal_strlit("momentum.rsi_14");
        assert("momentum.rsi_14"@.len() == 15);
        reveal_strlit("momentum.macd_line");
        assert("momentum.macd_line"@.len() == 18);
        reveal_strlit("momentum.macd_signal");
        assert("momentum.macd_signal"@.len() == 20);
        reveal_strlit("momentum.macd_hist");
        assert("momentum.macd_hist"@.len() == 18);
        reveal_strlit("momentum.stoch_k");
        assert("momentum.stoch_k"@.len() == 16);
        reveal_strlit("momentum.stoch_d");
        assert("momentum.stoch_d"@.len() == 16);
        reveal_strlit("momentum.stoch_rsi_k");
        assert("momentum.stoch_rsi_k"@.len() == 20);
        reveal_strlit("momentum.stoch_rsi_d");
        assert("momentum.stoch_rsi_d"@.len() == 20);
        reveal_strlit("momentum.cci_20");
        assert("momentum.cci_20"@.len() == 15);
        reveal_strlit("momentum.williams_r_14");
        assert("momentum.williams_r_14"@.len() == 22);
        reveal_strlit("momentum.roc_10");
        assert("momentum.roc_10"@.len() == 15);
        reveal_strlit("momentum.mfi_14");
        assert("momentum.mfi_14"@.len() == 15);
        reveal_strlit("momentum.ultosc_7_14_28");
        assert("momentum.ultosc_7_14_28"@.len() == 23);
        reveal_strlit("momentum.tsi_25_13");
        assert("momentum.tsi_25_13"@.len() == 18);
        reveal_strlit("momentum.awesome_oscillator_5_34");
        assert("momentum.awesome_oscillator_5_34"@.len() == 32);
        reveal_strlit("momentum.ppo_line");
        assert("momentum.ppo_line"@.len() == 17);
        reveal_strlit("momentum.ppo_signal");
        assert("momentum.ppo_signal"@.len() == 19);
        reveal_strlit("momentum.ppo_hist");
        assert("momentum.ppo_hist"@.len() == 17);
    }
    assert(snapshot_warmup_bars("momentum.elder_bull"@, cfg) == Some(14u32)) by {
        reveal_strlit("momentum.elder_bull");
        reveal_strlit("momentum.");
        assert("momentum.elder_bull"@.subrange(0, 9) =~= "momentum."@);
        assert("momentum.elder_bull"@.len() == 19);
        reveal_strlit("momentum.rsi_14");
        assert("momentum.rsi_14"@.len() == 15);
        reveal_strlit("momentum.macd_line");
        assert("momentum.macd_line"@.len() == 18);
        reveal_strlit("momentum.macd_signal");
        assert("momentum.macd_signal"@.len() == 20);
        reveal_strlit("momentum.macd_hist");
        assert("momentum.macd_hist"@.len() == 18);
        reveal_strlit("momentum.stoch_k");
        assert("momentum.stoch_k"@.len() == 16);
        reveal_strlit("momentum.stoch_d");
        assert("momentum.stoch_d"@.len() == 16);
        reveal_strlit("momentum.stoch_rsi_k");
        assert("momentum.stoch_rsi_k"@.len() == 20);
        reveal_strlit("momentum.stoch_rsi_d");
        assert("momentum.stoch_rsi_d"@.len() == 20);
        reveal_strlit("momentum.cci_20");
        assert("momentum.cci_20"@.len() == 15);
        reveal_strlit("momentum.williams_r_14");
        assert("momentum.williams_r_14"@.len() == 22);
        reveal_strlit("momentum.roc_10");
        assert("momentum.roc_10"@.len() == 15);
        reveal_strlit("momentum.mfi_14");
        assert("momentum.mfi_14"@.len() == 15);
        reveal_strlit("momentum.ultosc_7_14_28");
        assert("momentum.ultosc_7_14_28"@.len() == 23);
        reveal_strlit("momentum.tsi_25_13");
        assert("momentum.tsi_25_13"@.len() == 18);
        reveal_strlit("momentum.awesome_oscillator_5_34");
        assert("momentum.awesome_oscillator_5_34"@.len() == 32);
        reveal_strlit("momentum.ppo_line");
        assert("momentum.ppo_line"@.len() == 17);
        reveal_strlit("momentum.ppo_signal");
        assert("momentum.elder_bull"@[9] != "momentum.ppo_signal"@[9]);
        reveal_strlit("momentum.ppo_hist");
        assert("momentum.ppo_hist"@.len() == 17);
        reveal_strlit("momentum.kst");
        assert("momentum.kst"@.len() == 12);
    }
    assert(snapshot_warmup_bars("momentum.elder_bear"@, cfg) == Some(14u32)) by {
        reveal_strlit("momentum.elder_bear");
        reveal_strlit("momentum.");
        assert("momentum.elder_bear"@.subrange(0, 9) =~= "momentum."@);
        assert("momentum.elder_bear"@.len() == 19);
        reveal_strlit("momentum.rsi_14");
        assert("momentum.rsi_14"@.len() == 15);
        reveal_strlit("momentum.macd_line");
        assert("momentum.macd_line"@.len() == 18);
        reveal_strlit("momentum.macd_signal");
        assert("momentum.macd_signal"@.len() == 20);
        reveal_strlit("momentum.macd_hist");
        assert("momentum.macd_hist"@.len() == 18);
        reveal_strlit("momentum.stoch_k");
        assert("momentum.stoch_k"@.len() == 16);
        reveal_strlit("momentum.stoch_d");
        assert("momentum.stoch_d"@.len() == 16);
        reveal_strlit("momentum.stoch_rsi_k");
        assert("momentum.stoch_rsi_k"@.len() == 20);
        reveal_strlit("momentum.stoch_rsi_d");
        assert("momentum.stoch_rsi_d"@.len() == 20);
        reveal_strlit("momentum.cci_20");
        assert("momentum.cci_20"@.len() == 15);
        reveal_strlit("momentum.williams_r_14");
        assert("momentum.williams_r_14"@.len() == 22);
        reveal_strlit("momentum.roc_10");
        assert("momentum.roc_10"@.len() == 15);
        reveal_strlit("momentum.mfi_14");
        assert("momentum.mfi_14"@.len() == 15);
        reveal_strlit("momentum.ultosc_7_14_28");
        assert("momentum.ultosc_7_14_28"@.len() == 23);
        reveal_strlit("momentum.tsi_25_13");
        assert("momentum.tsi_25_13"@.len() == 18);
        reveal_strlit("momentum.awesome_oscillator_5_34");
        assert("momentum.awesome_oscillator_5_34"@.len() == 32);
        reveal_strlit("momentum.ppo_line");
        assert("momentum.ppo_line"@.len() == 17);
        reveal_strlit("momentum.ppo_signal");
        assert("momentum.elder_bear"@[9] != "momentum.ppo_signal"@[9]);
        reveal_strlit("momentum.ppo_hist");
        assert("momentum.ppo_hist"@.len() == 17);
        reveal_strlit("momentum.kst");
        assert("momentum.kst"@.len() == 12);
        reveal_strlit("momentum.elder_bull");
        assert("momentum.elder_bear"@[16] != "momentum.elder_bull"@[16]);
    }
    assert(snapshot_warmup_bars("momentum.cmo_14"@, cfg) == Some(15u32)) by {
        reveal_strlit("momentum.cmo_14");
        reveal_strlit("momentum.");
        assert("momentum.cmo_14"@.subrange(0, 9) =~= "momentum."@);
        assert("momentum.cmo_14"@.len() == 15);
        reveal_strlit("momentum.rsi_14");
        assert("momentum.cmo_14"@[9] != "momentum.rsi_14"@[9]);
        reveal_strlit("momentum.macd_line");
        assert("momentum.macd_line"@.len() == 18);
        reveal_strlit("momentum.macd_signal");
        assert("momentum.macd_signal"@.len() == 20);
        reveal_strlit("momentum.macd_hist");
        assert("momentum.macd_hist"@.len() == 18);
        reveal_strlit("momentum.stoch_k");
        assert("momentum.stoch_k"@.len() == 16);
        reveal_strlit("momentum.stoch_d");
        assert("momentum.stoch_d"@.len() == 16);
        reveal_strlit("momentum.stoch_rsi_k");
        assert("momentum.stoch_rsi_k"@.len() == 20);
        reveal_strlit("momentum.stoch_rsi_d");
        assert("momentum.stoch_rsi_d"@.len() == 20);
        reveal_strlit("momentum.cci_20");
        assert("momentum.cmo_14"@[10] != "momentum.cci_20"@[10]);
        reveal_strlit("momentum.williams_r_14");
        assert("momentum.williams_r_14"@.len() == 22);
        reveal_strlit("momentum.roc_10");
        assert("momentum.cmo_14"@[9] != "momentum.roc_10"@[9]);
        reveal_strlit("momentum.mfi_14");
        assert("momentum.cmo_14"@[9] != "momentum.mfi_14"@[9]);
        reveal_strlit("momentum.ultosc_7_14_28");
        assert("momentum.ultosc_7_14_28"@.len() == 23);
        reveal_strlit("momentum.tsi_25_13");
        assert("momentum.tsi_25_13"@.len() == 18);
        reveal_strlit("momentum.awesome_oscillator_5_34");
        assert("momentum.awesome_oscillator_5_34"@.len() == 32);
        reveal_strlit("momentum.ppo_line");
        assert("momentum.ppo_line"@.len() == 17);
        reveal_strlit("momentum.ppo_signal");
        assert("momentum.ppo_signal"@.len() == 19);
        reveal_strlit("momentum.ppo_hist");
        assert("momentum.ppo_hist"@.len() == 17);
        reveal_strlit("momentum.kst");
        assert("momentum.kst"@.len() == 12);
        reveal_strlit("momentum.elder_bull");
        assert("momentum.elder_bull"@.len() == 19);
        reveal_strlit("momentum.elder_bear");
        assert("momentum.elder_bear"@.len() == 19);
    }
    assert(snapshot_warmup_bars("momentum.trix_15"@, cfg) == Some(24u32)) by {
        reveal_strlit("momentum.trix_15");
        reveal_strlit("momentum.");
        assert("momentum.trix_15"@.subrange(0, 9) =~= "momentum."@);
        assert("momentum.trix_15"@.len() == 16);
        reveal_strlit("momentum.rsi_14");
        assert("momentum.rsi_14"@.len() == 15);
        reveal_strlit("momentum.macd_line");
        assert("momentum.macd_line"@.len() == 18);
        reveal_strlit("momentum.macd_signal");
        assert("momentum.macd_signal"@.len() == 20);
        reveal_strlit("momentum.macd_hist");
        assert("momentum.macd_hist"@.len() == 18);
        reveal_strlit("momentum.stoch_k");
        assert("momentum.trix_15"@[9] != "momentum.stoch_k"@[9]);
        reveal_strlit("momentum.stoch_d");
        assert("momentum.trix_15"@[9] != "momentum.stoch_d"@[9]);
        reveal_strlit("momentum.stoch_rsi_k");
        assert("momentum.stoch_rsi_k"@.len() == 20);
        reveal_strlit("momentum.stoch_rsi_d");
        assert("momentum.stoch_rsi_d"@.len() == 20);
        reveal_strlit("momentum.cci_20");
        assert("momentum.cci_20"@.len() == 15);
        reveal_strlit("momentum.williams_r_14");
        assert("momentum.williams_r_14"@.len() == 22);
        reveal_strlit("momentum.roc_10");
        assert("momentum.roc_10"@.len() == 15);
        reveal_strlit("momentum.mfi_14");
        assert("momentum.mfi_14"@.len() == 15);
        reveal_strlit("momentum.ultosc_7_14_28");
        assert("momentum.ultosc_7_14_28"@.len() == 23);
        reveal_strlit("momentum.tsi_25_13");
        assert("momentum.tsi_25_13"@.len() == 18);
        reveal_strlit("momentum.awesome_oscillator_5_34");
        assert("momentum.awesome_oscillator_5_34"@.len() == 32);
        reveal_strlit("momentum.ppo_line");
        assert("momentum.ppo_line"@.len() == 17);
        reveal_strlit("momentum.ppo_signal");
        assert("momentum.ppo_signal"@.len() == 19);
        reveal_strlit("momentum.ppo_hist");
        assert("momentum.ppo_hist"@.len() == 17);
        reveal_strlit("momentum.kst");
        assert("momentum.kst"@.len() == 12);
        reveal_strlit("momentum.elder_bull");
        assert("momentum.elder_bull"@.len() == 19);
        reveal_strlit("momentum.elder_bear");
        assert("momentum.elder_bear"@.len() == 19);
        reveal_strlit("momentum.cmo_14");
        assert("momentum.cmo_14"@.len() == 15);
    }
    assert(snapshot_warmup_bars("momentum.trix_signal_9"@, cfg) == Some(24u32)) by {
        reveal_strlit("momentum.trix_signal_9");
        reveal_strlit("momentum.");
        assert("momentum.trix_signal_9"@.subrange(0, 9) =~= "momentum."@);
        assert("momentum.trix_signal_9"@.len() == 22);
        reveal_strlit("momentum.rsi_14");
        assert("momentum.rsi_14"@.len() == 15);
        reveal_strlit("momentum.macd_line");
        assert("momentum.macd_line"@.len() == 18);
        reveal_strlit("momentum.macd_signal");
        assert("momentum.macd_signal"@.len() == 20);
        reveal_strlit("momentum.macd_hist");
        assert("momentum.macd_hist"@.len() == 18);
        reveal_strlit("momentum.stoch_k");
        assert("momentum.stoch_k"@.len() == 16);
        reveal_strlit("momentum.stoch_d");
        assert("momentum.stoch_d"@.len() == 16);
        reveal_strlit("momentum.stoch_rsi_k");
        assert("momentum.stoch_rsi_k"@.len() == 20);
        reveal_strlit("momentum.stoch_rsi_d");
        assert("momentum.stoch_rsi_d"@.len() == 20);
        reveal_strlit("momentum.cci_20");
        assert("momentum.cci_20"@.len() == 15);
        reveal_strlit("momentum.williams_r_14");
        assert("momentum.trix_signal_9"@[9] != "momentum.williams_r_14"@[9]);
        reveal_strlit("momentum.roc_10");
        assert("momentum.roc_10"@.len() == 15);
        reveal_strlit("momentum.mfi_14");
        assert("momentum.mfi_14"@.len() == 15);
        reveal_strlit("momentum.ultosc_7_14_28");
        assert("momentum.ultosc_7_14_28"@.len() == 23);
        reveal_strlit("momentum.tsi_25_13");
        assert("momentum.tsi_25_13"@.len() == 18);
        reveal_strlit("momentum.awesome_oscillator_5_34");
        assert("momentum.awesome_oscillator_5_34"@.len() == 32);
        reveal_strlit("momentum.ppo_line");
        assert("momentum.ppo_line"@.len() == 17);
        reveal_strlit("momentum.ppo_signal");
        assert("momentum.ppo_signal"@.len() == 19);
        reveal_strlit("momentum.ppo_hist");
        assert("momentum.ppo_hist"@.len() == 17);
        reveal_strlit("momentum.kst");
        assert("momentum.kst"@.len() == 12);
        reveal_strlit("momentum.elder_bull");
        assert("momentum.elder_bull"@.len() == 19);
        reveal_strlit("momentum.elder_bear");
        assert("momentum.elder_bear"@.len() == 19);
        reveal_strlit("momentum.cmo_14");
        assert("momentum.cmo_14"@.len() == 15);
        reveal_strlit("momentum.trix_15");
        assert("momentum.trix_15"@.len() == 16);
    }
}

/// Warm-up rows of momentum leaves (part 5).
proof fn lemma_momentum_leaves_5(cfg: WarmupConfig)
    ensures
        snapshot_warmup_bars("momentum.kvo_34_55"@, cfg) == Some(60u32),
        snapshot_warmup_bars("momentum.kvo_signal_13"@, cfg) == Some(60u32),
        snapshot_warmup_bars("momentum.chaikin_oscillator_3_10"@, cfg) == Some(12u32),
        snapshot_warmup_bars("momentum.pvo_line"@, cfg) == Some(27u32),
        snapshot_warmup_bars("momentum.pvo_signal"@, cfg) == Some(27u32),
        snapshot_warmup_bars("momentum.pvo_hist"@, cfg) == Some(27u32),
{
    assert(snapshot_warmup_bars("momentum.kvo_34_55"@, cfg) == Some(60u32)) by {
        reveal_strlit("momentum.kvo_34_55");
        reveal_strlit("momentum.");
        assert("momentum.kvo_34_55"@.subrange(0, 9) =~= "momentum."@);
        assert("momentum.kvo_34_55"@.len() == 18);
        reveal_strlit("momentum.rsi_14");
        assert("momentum.rsi_14"@.len() == 15);
        reveal_strlit("momentum.macd_line");
        assert("momentum.kvo_34_55"@[9] != "momentum.macd_line"@[9]);
        reveal_strlit("momentum.macd_signal");
        assert("momentum.macd_signal"@.len() == 20);
        reveal_strlit("momentum.macd_hist");
        assert("momentum.kvo_34_55"@[9] != "momentum.macd_hist"@[9]);
        reveal_strlit("momentum.stoch_k");
        assert("momentum.stoch_k"@.len() == 16);
        reveal_strlit("momentum.stoch_d");
        assert("momentum.stoch_d"@.len() == 16);
        reveal_strlit("momentum.stoch_rsi_k");
        assert("momentum.stoch_rsi_k"@.len() == 20);
        reveal_strlit("momentum.stoch_rsi_d");
        assert("momentum.stoch_rsi_d"@.len() == 20);
        reveal_strlit("momentum.cci_20");
        assert("momentum.cci_20"@.len() == 15);
        reveal_strlit("momentum.williams_r_14");
        assert("momentum.williams_r_14"@.len() == 22);
        reveal_strlit("momentum.roc_10");
        assert("momentum.roc_10"@.len() == 15);
        reveal_strlit("momentum.mfi_14");
        assert("momentum.mfi_14"@.len() == 15);
        reveal_strlit("momentum.ultosc_7_14_28");
        assert("momentum.ultosc_7_14_28"@.len() == 23);
        reveal_strlit("momentum.tsi_25_13");
        assert("momentum.kvo_34_55"@[9] != "momentum.tsi_25_13"@[9]);
        reveal_strlit("momentum.awesome_oscillator_5_34");
        assert("momentum.awesome_oscillator_5_34"@.len() == 32);
        reveal_strlit("momentum.ppo_line");
        assert("momentum.ppo_line"@.len() == 17);
        reveal_strlit("momentum.ppo_signal");
        assert("momentum.ppo_signal"@.len() == 19);
        reveal_strlit("momentum.ppo_hist");
        assert("momentum.ppo_hist"@.len() == 17);
        reveal_strlit("momentum.kst");
        assert("momentum.kst"@.len() == 12);
        reveal_strlit("momentum.elder_bull");
        assert("momentum.elder_bull"@.len() == 19);
        reveal_strlit("momentum.elder_bear");
        assert("momentum.elder_bear"@.len() == 19);
        reveal_strlit("momentum.cmo_14");
        assert("momentum.cmo_14"@.len() == 15);
        reveal_strlit("momentum.trix_15");
        assert("momentum.trix_15"@.len() == 16);
        reveal_strlit("momentum.trix_signal_9");
        assert("momentum.trix_signal_9"@.len() == 22);
    }
    assert(snapshot_warmup_bars("momentum.kvo_signal_13"@, cfg) == Some(60u32)) by {
        reveal_strlit("momentum.kvo_signal_13");
        reveal_strlit("momentum.");
        assert("momentum.kvo_signal_13"@.subrange(0, 9) =~= "momentum."@);
        assert("momentum.kvo_signal_13"@.len() == 22);
        reveal_strlit("momentum.rsi_14");
        assert("momentum.rsi_14"@.len() == 15);
        reveal_strlit("momentum.macd_line");
        assert("momentum.macd_line"@.len() == 18);
        reveal_strlit("momentum.macd_signal");
        assert("momentum.macd_signal"@.len() == 20);
        reveal_strlit("momentum.macd_hist");
        assert("momentum.macd_hist"@.len() == 18);
        reveal_strlit("momentum.stoch_k");
        assert("momentum.stoch_k"@.len() == 16);
        reveal_strlit("momentum.stoch_d");
        assert("momentum.stoch_d"@.len() == 16);
        reveal_strlit("momentum.stoch_rsi_k");
        assert("momentum.stoch_rsi_k"@.len() == 20);
        reveal_strlit("momentum.stoch_rsi_d");
        assert("momentum.stoch_rsi_d"@.len() == 20);
        reveal_strlit("momentum.cci_20");
        assert("momentum.cci_20"@.len() == 15);
        reveal_strlit("momentum.williams_r_14");
        assert("momentum.kvo_signal_13"@[9] != "momentum.williams_r_14"@[9]);
        reveal_strlit("momentum.roc_10");
        assert("momentum.roc_10"@.len() == 15);
        reveal_strlit("momentum.mfi_14");
        assert("momentum.mfi_14"@.len() == 15);
        reveal_strlit("momentum.ultosc_7_14_28");
        assert("momentum.ultosc_7_14_28"@.len() == 23);
        reveal_strlit("momentum.tsi_25_13");
        assert("momentum.tsi_25_13"@.len() == 18);
        reveal_strlit("momentum.awesome_oscillator_5_34");
        assert("momentum.awesome_oscillator_5_34"@.len() == 32);
        reveal_strlit("momentum.ppo_line");
        assert("momentum.ppo_line"@.len() == 17);
        reveal_strlit("momentum.ppo_signal");
        assert("momentum.ppo_signal"@.len() == 19);
        reveal_strlit("momentum.ppo_hist");
        assert("momentum.ppo_hist"@.len() == 17);
        reveal_strlit("momentum.kst");
        assert("momentum.kst"@.len() == 12);
        reveal_strlit("momentum.elder_bull");
        assert("momentum.elder_bull"@.len() == 19);
        reveal_strlit("momentum.elder_bear");
        assert("momentum.elder_bear"@.len() == 19);
        reveal_strlit("momentum.cmo_14");
        assert("momentum.cmo_14"@.len() == 15);
        reveal_strlit("momentum.trix_15");
        assert("momentum.trix_15"@.len() == 16);
        reveal_strlit("momentum.trix_signal_9");
        assert("momentum.kvo_signal_13"@[9] != "momentum.trix_signal_9"@[9]);
        reveal_strlit("momentum.kvo_34_55");
        assert("momentum.kvo_34_55"@.len() == 18);
    }
    assert(snapshot_warmup_bars("momentum.chaikin_oscillator_3_10"@, cfg) == Some(12u32)) by {
        reveal_strlit("momentum.chaikin_oscillator_3_10");
        reveal_strlit("momentum.");
        assert("momentum.chaikin_oscillator_3_10"@.subrange(0, 9) =~= "momentum."@);
        assert("momentum.chaikin_oscillator_3_10"@.len() == 32);
        reveal_strlit("momentum.rsi_14");
        assert("momentum.rsi_14"@.len() == 15);
        reveal_strlit("momentum.macd_line");
        assert("momentum.macd_line"@.len() == 18);
        reveal_strlit("momentum.macd_signal");
        assert("momentum.macd_signal"@.len() == 20);
        reveal_strlit("momentum.macd_hist");
        assert("momentum.macd_hist"@.len() == 18);
        reveal_strlit("momentum.stoch_k");
        assert("momentum.stoch_k"@.len() == 16);
        reveal_strlit("momentum.stoch_d");
        assert("momentum.stoch_d"@.len() == 16);
        reveal_strlit("momentum.stoch_rsi_k");
        assert("momentum.stoch_rsi_k"@.len() == 20);
        reveal_strlit("momentum.stoch_rsi_d");
        assert("momentum.stoch_rsi_d"@.len() == 20);
        reveal_strlit("momentum.cci_20");
        assert("momentum.cci_20"@.len() == 15);
        reveal_strlit("momentum.williams_r_14");
        assert("momentum.williams_r_14"@.len() == 22);
        reveal_strlit("momentum.roc_10");
        assert("momentum.roc_10"@.len() == 15);
        reveal_strlit("momentum.mfi_14");
        assert("momentum.mfi_14"@.len() == 15);
        reveal_strlit("momentum.ultosc_7_14_28");
        assert("momentum.ultosc_7_14_28"@.len() == 23);
        reveal_strlit("momentum.tsi_25_13");
        assert("momentum.tsi_25_13"@.len() == 18);
        reveal_strlit("momentum.awesome_oscillator_5_34");
        assert("momentum.chaikin_oscillator_3_10"@[9] != "momentum.awesome_oscillator_5_34"@[9]);
        reveal_strlit("momentum.ppo_line");
        assert("momentum.ppo_line"@.len() == 17);
        reveal_strlit("momentum.ppo_signal");
        assert("momentum.ppo_signal"@.len() == 19);
        reveal_strlit("momentum.ppo_hist");
        assert("momentum.ppo_hist"@.len() == 17);
        reveal_strlit("momentum.kst");
        assert("momentum.kst"@.len() == 12);
        reveal_strlit("momentum.elder_bull");
        assert("momentum.elder_bull"@.len() == 19);
        reveal_strlit("momentum.elder_bear");
        assert("momentum.elder_bear"@.len() == 19);
        reveal_strlit("momentum.cmo_14");
        assert("momentum.cmo_14"@.len() == 15);
        reveal_strlit("momentum.trix_15");
        assert("momentum.trix_15"@.len() == 16);
        reveal_strlit("momentum.trix_signal_9");
        assert("momentum.trix_signal_9"@.len() == 22);
        reveal_strlit("momentum.kvo_34_55");
        assert("momentum.kvo_34_55"@.len() == 18);
        reveal_strlit("momentum.kvo_signal_13");
        assert("momentum.kvo_signal_13"@.len() == 22);
    }
    assert(snapshot_warmup_bars("momentum.pvo_line"@, cfg) == Some(27u32)) by {
        reveal_strlit("momentum.pvo_line");
        reveal_strlit("momentum.");
        assert("momentum.pvo_line"@.subrange(0, 9) =~= "momentum."@);
        assert("momentum.pvo_line"@.len() == 17);
        reveal_strlit("momentum.rsi_14");
        assert("momentum.rsi_14"@.len() == 15);
        reveal_strlit("momentum.macd_line");
        assert("momentum.macd_line"@.len() == 18);
        reveal_strlit("momentum.macd_signal");
        assert("momentum.macd_signal"@.len() == 20);
        reveal_strlit("momentum.macd_hist");
        assert("momentum.macd_hist"@.len() == 18);
        reveal_strlit("momentum.stoch_k");
        assert("momentum.stoch_k"@.len() == 16);
        reveal_strlit("momentum.stoch_d");
        assert("momentum.stoch_d"@.len() == 16);
        reveal_strlit("momentum.stoch_rsi_k");
        assert("momentum.stoch_rsi_k"@.len() == 20);
        reveal_strlit("momentum.stoch_rsi_d");
        assert("momentum.stoch_rsi_d"@.len() == 20);
        reveal_strlit("momentum.cci_20");
        assert("momentum.cci_20"@.len() == 15);
        reveal_strlit("momentum.williams_r_14");
        assert("momentum.williams_r_14"@.len() == 22);
        reveal_strlit("momentum.roc_10");
        assert("momentum.roc_10"@.len() == 15);
        reveal_strlit("momentum.mfi_14");
        assert("momentum.mfi_14"@.len() == 15);
        reveal_strlit("momentum.ultosc_7_14_28");
        assert("momentum.ultosc_7_14_28"@.len() == 23);
        reveal_strlit("momentum.tsi_25_13");
        assert("momentum.tsi_25_13"@.len() == 18);
        reveal_strlit("momentum.awesome_oscillator_5_34");
        assert("momentum.awesome_oscillator_5_34"@.len() == 32);
        reveal_strlit("momentum.ppo_line");
        assert("momentum.pvo_line"@[10] != "momentum.ppo_line"@[10]);
        reveal_strlit("momentum.ppo_signal");
        assert("momentum.ppo_signal"@.len() == 19);
        reveal_strlit("momentum.ppo_hist");
        assert("momentum.pvo_line"@[10] != "momentum.ppo_hist"@[10]);
        reveal_strlit("momentum.kst");
        assert("momentum.kst"@.len() == 12);
        reveal_strlit("momentum.elder_bull");
        assert("momentum.elder_bull"@.len() == 19);
        reveal_strlit("momentum.elder_bear");
        assert("momentum.elder_bear"@.len() == 19);
        reveal_strlit("momentum.cmo_14");
        assert("momentum.cmo_14"@.len() == 15);
        reveal_strlit("momentum.trix_15");
        assert("momentum.trix_15"@.len() == 16);
        reveal_strlit("momentum.trix_signal_9");
        assert("momentum.trix_signal_9"@.len() == 22);
        reveal_strlit("momentum.kvo_34_55");
        assert("momentum.kvo_34_55"@.len() == 18);
        reveal_strlit("momentum.kvo_signal_13");
        assert("momentum.kvo_signal_13"@.len() == 22);
        reveal_strlit("momentum.chaikin_oscillator_3_10");
        assert("momentum.chaikin_oscillator_3_10"@.len() == 32);
    }
    assert(snapshot_warmup_bars("momentum.pvo_signal"@, cfg) == Some(27u32)) by {
        reveal_strlit("momentum.pvo_signal");
        reveal_strlit("momentum.");
        assert("momentum.pvo_signal"@.subrange(0, 9) =~= "momentum."@);
        assert("momentum.pvo_signal"@.len() == 19);
        reveal_strlit("momentum.rsi_14");
        assert("momentum.rsi_14"@.len() == 15);
        reveal_strlit("momentum.macd_line");
        assert("momentum.macd_line"@.len() == 18);
        reveal_strlit("momentum.macd_signal");
        assert("momentum.macd_signal"@.len() == 20);
        reveal_strlit("momentum.macd_hist");
        assert("momentum.macd_hist"@.len() == 18);
        reveal_strlit("momentum.stoch_k");
        assert("momentum.stoch_k"@.len() == 16);
        reveal_strlit("momentum.stoch_d");
        assert("momentum.stoch_d"@.len() == 16);
        reveal_strlit("momentum.stoch_rsi_k");
        assert("momentum.stoch_rsi_k"@.len() == 20);
        reveal_strlit("momentum.stoch_rsi_d");
        assert("momentum.stoch_rsi_d"@.len() == 20);
        reveal_strlit("momentum.cci_20");
        assert("momentum.cci_20"@.len() == 15);
        reveal_strlit("momentum.williams_r_14");
        assert("momentum.williams_r_14"@.len() == 22);
        reveal_strlit("momentum.roc_10");
        assert("momentum.roc_10"@.len() == 15);
        reveal_strlit("momentum.mfi_14");
        assert("momentum.mfi_14"@.len() == 15);
        reveal_strlit("momentum.ultosc_7_14_28");
        assert("momentum.ultosc_7_14_28"@.len() == 23);
        reveal_strlit("momentum.tsi_25_13");
        assert("momentum.tsi_25_13"@.len() == 18);
        reveal_strlit("momentum.awesome_oscillator_5_34");
        assert("momentum.awesome_oscillator_5_34"@.len() == 32);
        reveal_strlit("momentum.ppo_line");
        assert("momentum.ppo_line"@.len() == 17);
        reveal_strlit("momentum.ppo_signal");
        assert("momentum.pvo_signal"@[10] != "momentum.ppo_signal"@[10]);
        reveal_strlit("momentum.ppo_hist");
        assert("momentum.ppo_hist"@.len() == 17);
        reveal_strlit("momentum.kst");
        assert("momentum.kst"@.len() == 12);
        reveal_strlit("momentum.elder_bull");
        assert("momentum.pvo_signal"@[9] != "momentum.elder_bull"@[9]);
        reveal_strlit("momentum.elder_bear");
        assert("momentum.pvo_signal"@[9] != "momentum.elder_bear"@[9]);
        reveal_strlit("momentum.cmo_14");
        assert("momentum.cmo_14"@.len() == 15);
        reveal_strlit("momentum.trix_15");
        assert("momentum.trix_15"@.len() == 16);
        reveal_strlit("momentum.trix_signal_9");
        assert("momentum.trix_signal_9"@.len() == 22);
        reveal_strlit("momentum.kvo_34_55");
        assert("momentum.kvo_34_55"@.len() == 18);
        reveal_strlit("momentum.kvo_signal_13");
        assert("momentum.kvo_signal_13"@.len() == 22);
        reveal_strlit("momentum.chaikin_oscillator_3_10");
        assert("momentum.chaikin_oscillator_3_10"@.len() == 32);
        reveal_strlit("momentum.pvo_line");
        assert("momentum.pvo_line"@.len() == 17);
    }
    assert(snapshot_warmup_bars("momentum.pvo_hist"@, cfg) == Some(27u32)) by {
        reveal_strlit("momentum.pvo_hist");
        reveal_strlit("momentum.");
        assert("momentum.pvo_hist"@.subrange(0, 9) =~= "momentum."@);
        assert("momentum.pvo_hist"@.len() == 17);
        reveal_strlit("momentum.rsi_14");
        assert("momentum.rsi_14"@.len() == 15);
        reveal_strlit("momentum.macd_line");
        assert("momentum.macd_line"@.len() == 18);
        reveal_strlit("momentum.macd_signal");
        assert("momentum.macd_signal"@.len() == 20);
        reveal_strlit("momentum.macd_hist");
        assert("momentum.macd_hist"@.len() == 18);
        reveal_strlit("momentum.stoch_k");
        assert("momentum.stoch_k"@.len() == 16);
        reveal_strlit("momentum.stoch_d");
        assert("momentum.stoch_d"@.len() == 16);
        reveal_strlit("momentum.stoch_rsi_k");
        assert("momentum.stoch_rsi_k"@.len() == 20);
        reveal_strlit("momentum.stoch_rsi_d");
        assert("momentum.stoch_rsi_d"@.len() == 20);
        reveal_strlit("momentum.cci_20");
        assert("momentum.cci_20"@.len() == 15);
        reveal_strlit("momentum.williams_r_14");
        assert("momentum.williams_r_14"@.len() == 22);
        reveal_strlit("momentum.roc_10");
        assert("momentum.roc_10"@.len() == 15);
        reveal_strlit("momentum.mfi_14");
        assert("momentum.mfi_14"@.len() == 15);
        reveal_strlit("momentum.ultosc_7_14_28");
        assert("momentum.ultosc_7_14_28"@.len() == 23);
        reveal_strlit("momentum.tsi_25_13");
        assert("momentum.tsi_25_13"@.len() == 18);
        reveal_strlit("momentum.awesome_oscillator_5_34");
        assert("momentum.awesome_oscillator_5_34"@.len() == 32);
        reveal_strlit("momentum.ppo_line");
        assert("momentum.pvo_hist"@[10] != "momentum.ppo_line"@[10]);
        reveal_strlit("momentum.ppo_signal");
        assert("momentum.ppo_signal"@.len() == 19);
        reveal_strlit("momentum.ppo_hist");
        assert("momentum.pvo_hist"@[10] != "momentum.ppo_hist"@[10]);
        reveal_strlit("momentum.kst");
        assert("momentum.kst"@.len() == 12);
        reveal_strlit("momentum.elder_bull");
        assert("momentum.elder_bull"@.len() == 19);
        reveal_strlit("momentum.elder_bear");
        assert("momentum.elder_bear"@.len() == 19);
        reveal_strlit("momentum.cmo_14");
        assert("momentum.cmo_14"@.len() == 15);
        reveal_strlit("momentum.trix_15");
        assert("momentum.trix_15"@.len() == 16);
        reveal_strlit("momentum.trix_signal_9");
        assert("momentum.trix_signal_9"@.len() == 22);
        reveal_strlit("momentum.kvo_34_55");
        assert("momentum.kvo_34_55"@.len() == 18);
        reveal_strlit("momentum.kvo_signal_13");
        assert("momentum.kvo_signal_13"@.len() == 22);
        reveal_strlit("momentum.chaikin_oscillator_3_10");
        assert("momentum.chaikin_oscillator_3_10"@.len() == 32);
        reveal_strlit("momentum.pvo_line");
        assert("momentum.pvo_hist"@[13] != "momentum.pvo_line"@[13]);
        reveal_strlit("momentum.pvo_signal");
        assert("momentum.pvo_signal"@.len() == 19);
    }
}

/// Warm-up rows of momentum leaves (part 6).
proof fn lemma_momentum_leaves_6(cfg: WarmupConfig)
    ensures
        snapshot_warmup_bars("momentum.force_index_13"@, cfg) == Some(14u32),
{
    assert(snapshot_warmup_bars("momentum.force_index_13"@, cfg) == Some(14u32)) by {
        reveal_strlit("momentum.force_index_13");
        reveal_strlit("momentum.");
        assert("momentum.force_index_13"@.subrange(0, 9) =~= "momentum."@);
        assert("momentum.force_index_13"@.len() == 23);
        reveal_strlit("momentum.rsi_14");
        assert("momentum.rsi_14"@.len() == 15);
        reveal_strlit("momentum.macd_line");
        assert("momentum.macd_line"@.len() == 18);
        reveal_strlit("momentum.macd_signal");
        assert("momentum.macd_signal"@.len() == 20);
        reveal_strlit("momentum.macd_hist");
        assert("momentum.macd_hist"@.len() == 18);
        reveal_strlit("momentum.stoch_k");
        assert("momentum.stoch_k"@.len() == 16);
        reveal_strlit("momentum.stoch_d");
        assert("momentum.stoch_d"@.len() == 16);
        reveal_strlit("momentum.stoch_rsi_k");
        assert("momentum.stoch_rsi_k"@.len() == 20);
        reveal_strlit("momentum.stoch_rsi_d");
        assert("momentum.stoch_rsi_d"@.len() == 20);
        reveal_strlit("momentum.cci_20");
        assert("momentum.cci_20"@.len() == 15);
        reveal_strlit("momentum.williams_r_14");
        assert("momentum.williams_r_14"@.len() == 22);
        reveal_strlit("momentum.roc_10");
        assert("momentum.roc_10"@.len() == 15);
        reveal_strlit("momentum.mfi_14");
        assert("momentum.mfi_14"@.len() == 15);
        reveal_strlit("momentum.ultosc_7_14_28");
        assert("momentum.force_index_13"@[9] != "momentum.ultosc_7_14_28"@[9]);
        reveal_strlit("momentum.tsi_25_13");
        assert("momentum.tsi_25_13"@.len() == 18);
        reveal_strlit("momentum.awesome_oscillator_5_34");
        assert("momentum.awesome_oscillator_5_34"@.len() == 32);
        reveal_strlit("momentum.ppo_line");
        assert("momentum.ppo_line"@.len() == 17);
        reveal_strlit("momentum.ppo_signal");
        assert("momentum.ppo_signal"@.len() == 19);
        reveal_strlit("momentum.ppo_hist");
        assert("momentum.ppo_hist"@.len() == 17);
        reveal_strlit("momentum.kst");
        assert("momentum.kst"@.len() == 12);
        reveal_strlit("momentum.elder_bull");
        assert("momentum.elder_bull"@.len() == 19);
        reveal_strlit("momentum.elder_bear");
        assert("momentum.elder_bear"@.len() == 19);
        reveal_strlit("momentum.cmo_14");
        assert("momentum.cmo_14"@.len() == 15);
        reveal_strlit("momentum.trix_15");
        assert("momentum.trix_15"@.len() == 16);
        reveal_strlit("momentum.trix_signal_9");
        assert("momentum.trix_signal_9"@.len() == 22);
        reveal_strlit("momentum.kvo_34_55");
        assert("momentum.kvo_34_55"@.len() == 18);
        reveal_strlit("momentum.kvo_signal_13");
        assert("momentum.kvo_signal_13"@.len() == 22);
        reveal_strlit("momentum.chaikin_oscillator_3_10");
        assert("momentum.chaikin_oscillator_3_10"@.len() == 32);
        reveal_strlit("momentum.pvo_line");
        assert("momentum.pvo_line"@.len() == 17);
        reveal_strlit("momentum.pvo_signal");
        assert("momentum.pvo_signal"@.len() == 19);
        reveal_strlit("momentum.pvo_hist");
        assert("momentum.pvo_hist"@.len() == 17);
    }
}

/// The momentum leaves of the indicator snapshot and their warm-up rows.
pub proof fn lemma_momentum_leaf_table(cfg: WarmupConfig)
    ensures
        snapshot_warmup_bars("momentum.rsi_14"@, cfg) == Some(15u32),
        snapshot_warmup_bars("momentum.macd_line"@, cfg) == Some(35u32),
        snapshot_warmup_bars("momentum.macd_signal"@, cfg) == Some(35u32),
        snapshot_warmup_bars("momentum.macd_hist"@, cfg) == Some(35u32),
        snapshot_warmup_bars("momentum.stoch_k"@, cfg) == Some(20u32),
        snapshot_warmup_bars("momentum.stoch_d"@, cfg) == Some(20u32),
        snapshot_warmup_bars("momentum.stoch_rsi_k"@, cfg) == Some(40u32),
        snapshot_warmup_bars("momentum.stoch_rsi_d"@, cfg) == Some(40u32),
        snapshot_warmup_bars("momentum.cci_20"@, cfg) == Some(21u32),
        snapshot_warmup_bars("momentum.williams_r_14"@, cfg) == Some(15u32),
        snapshot_warmup_bars("momentum.roc_10"@, cfg) == Some(11u32),
        snapshot_warmup_bars("momentum.mfi_14"@, cfg) == Some(15u32),
        snapshot_warmup_bars("momentum.ultosc_7_14_28"@, cfg) == Some(29u32),
        snapshot_warmup_bars("momentum.tsi_25_13"@, cfg) == Some(26u32),
        snapshot_warmup_bars("momentum.awesome_oscillator_5_34"@, cfg) == Some(35u32),
        snapshot_warmup_bars("momentum.ppo_line"@, cfg) == Some(35u32),
        snapshot_warmup_bars("momentum.ppo_signal"@, cfg) == Some(35u32),
        snapshot_warmup_bars("momentum.ppo_hist"@, cfg) == Some(35u32),
        snapshot_warmup_bars("momentum.kst"@, cfg) == Some(50u32),
        snapshot_warmup_bars("momentum.elder_bull"@, cfg) == Some(14u32),
        snapshot_warmup_bars("momentum.elder_bear"@, cfg) == Some(14u32),
        snapshot_warmup_bars("momentum.cmo_14"@, cfg) == Some(15u32),
        snapshot_warmup_bars("momentum.trix_15"@, cfg) == Some(24u32),
        snapshot_warmup_bars("momentum.trix_signal_9"@, cfg) == Some(24u32),
        snapshot_warmup_bars("momentum.kvo_34_55"@, cfg) == Some(60u32),
        snapshot_warmup_bars("momentum.kvo_signal_13"@, cfg) == Some(60u32),
        snapshot_warmup_bars("momentum.chaikin_oscillator_3_10"@, cfg) == Some(12u32),
        snapshot_warmup_bars("momentum.pvo_line"@, cfg) == Some(27u32),
        snapshot_warmup_bars("momentum.pvo_signal"@, cfg) == Some(27u32),
        snapshot_warmup_bars("momentum.pvo_hist"@, cfg) == Some(27u32),
        snapshot_warmup_bars("momentum.force_index_13"@, cfg) == Some(14u32),
{
    lemma_momentum_leaves_1(cfg);
    lemma_momentum_leaves_2(cfg);
    lemma_momentum_leaves_3(cfg);
    lemma_momentum_leaves_4(cfg);
    lemma_momentum_leaves_5(cfg);
    lemma_momentum_leaves_6(cfg);
}

/// Every named momentum leaf has a warm-up.
proof fn lemma_momentum_leaves_have_warmup(rest: Seq<char>, cfg: WarmupConfig)
    ensures
        is_momentum_leaf(rest) ==> snapshot_warmup_bars(rest, cfg) is Some,
{
    lemma_momentum_leaf_table(cfg);
}

/// Warm-up rows of trend leaves (part 1).
proof fn lemma_trend_leaves_1(cfg: WarmupConfig)
    ensures
        snapshot_warmup_bars("trend.sma_20"@, cfg) == Some(20u32),
        snapshot_warmup_bars("trend.sma_50"@, cfg) == Some(50u32),
        snapshot_warmup_bars("trend.sma_200"@, cfg) == Some(200u32),
        snapshot_warmup_bars("trend.ema_20"@, cfg) == Some(20u32),
        snapshot_warmup_bars("trend.wma_20"@, cfg) == Some(20u32),
        snapshot_warmup_bars("trend.hull_9"@, cfg) == Some(12u32),
{
    assert(snapshot_warmup_bars("trend.sma_20"@, cfg) == Some(20u32)) by {
        reveal_strlit("trend.sma_20");
        reveal_strlit("momentum.");
        assert("momentum."@.len() == 9);
        assert("trend.sma_20"@.subrange(0, 9)[0] != "momentum."@[0]);
        reveal_strlit("trend.");
        assert("trend.sma_20"@.subrange(0, 6) =~= "trend."@);
        assert("trend.sma_20"@.len() == 12);
    }
    assert(snapshot_warmup_bars("trend.sma_50"@, cfg) == Some(50u32)) by {
        reveal_strlit("trend.sma_50");
        reveal_strlit("momentum.");
        assert("momentum."@.len() == 9);
        assert("trend.sma_50"@.subrange(0, 9)[0] != "momentum."@[0]);
        reveal_strlit("trend.");
        assert("trend.sma_50"@.subrange(0, 6) =~= "trend."@);
        assert("trend.sma_50"@.len() == 12);
        reveal_strlit("trend.sma_20");
        assert("trend.sma_50"@[10] != "trend.sma_20"@[10]);
    }
    assert(snapshot_warmup_bars("trend.sma_200"@, cfg) == Some(200u32)) by {
        reveal_strlit("trend.sma_200");
        reveal_strlit("momentum.");
        assert("momentum."@.len() == 9);
        assert("trend.sma_200"@.subrange(0, 9)[0] != "momentum."@[0]);
        reveal_strlit("trend.");
        assert("trend.sma_200"@.subrange(0, 6) =~= "trend."@);
        assert("trend.sma_200"@.len() == 13);
        reveal_strlit("trend.sma_20");
        assert("trend.sma_20"@.len() == 12);
        reveal_strlit("trend.sma_50");
        assert("trend.sma_50"@.len() == 12);
    }
    assert(snapshot_warmup_bars("trend.ema_20"@, cfg) == Some(20u32)) by {
        reveal_strlit("trend.ema_20");
        reveal_strlit("momentum.");
        assert("momentum."@.len() == 9);
        assert("trend.ema_20"@.subrange(0, 9)[0] != "momentum."@[0]);
        reveal_strlit("trend.");
        assert("trend.ema_20"@.subrange(0, 6) =~= "trend."@);
        assert("trend.ema_20"@.len() == 12);
        reveal_strlit("trend.sma_20");
        assert("trend.ema_20"@[6] != "trend.sma_20"@[6]);
        reveal_strlit("trend.sma_50");
        assert("trend.ema_20"@[6] != "trend.sma_50"@[6]);
        reveal_strlit("trend.sma_200");
        assert("trend.sma_200"@.len() == 13);
    }
    assert(snapshot_warmup_bars("trend.wma_20"@, cfg) == Some(20u32)) by {
        reveal_strlit("trend.wma_20");
        reveal_strlit("momentum.");
        assert("momentum."@.len() == 9);
        assert("trend.wma_20"@.subrange(0, 9)[0] != "momentum."@[0]);
        reveal_strlit("trend.");
        assert("trend.wma_20"@.subrange(0, 6) =~= "trend."@);
        assert("trend.wma_20"@.len() == 12);
        reveal_strlit("trend.sma_20");
        assert("trend.wma_20"@[6] != "trend.sma_20"@[6]);
        reveal_strlit("trend.sma_50");
        assert("trend.wma_20"@[6] != "trend.sma_50"@[6]);
        reveal_strlit("trend.sma_200");
        assert("trend.sma_200"@.len() == 13);
        reveal_strlit("trend.ema_20");
        assert("trend.wma_20"@[6] != "trend.ema_20"@[6]);
    }
    assert(snapshot_warmup_bars("trend.hull_9"@, cfg) == Some(12u32)) by {
        reveal_strlit("trend.hull_9");
        reveal_strlit("momentum.");
        assert("momentum."@.len() == 9);
        assert("trend.hull_9"@.subrange(0, 9)[0] != "momentum."@[0]);
        reveal_strlit("trend.");
        assert("trend.hull_9"@.subrange(0, 6) =~= "trend."@);
        assert("trend.hull_9"@.len() == 12);
        reveal_strlit("trend.sma_20");
        assert("trend.hull_9"@[6] != "trend.sma_20"@[6]);
        reveal_strlit("trend.sma_50");
        assert("trend.hull_9"@[6] != "trend.sma_50"@[6]);
        reveal_strlit("trend.sma_200");
        assert("trend.sma_200"@.len() == 13);
        reveal_strlit("trend.ema_20");
        assert("trend.hull_9"@[6] != "trend.ema_20"@[6]);
        reveal_strlit("trend.wma_20");
        assert("trend.hull_9"@[6] != "trend.wma_20"@[6]);
    }
}

/// Warm-up rows of trend leaves (part 2).
proof fn lemma_trend_leaves_2(cfg: WarmupConfig)
    ensures
        snapshot_warmup_bars("trend.dema_20"@, cfg) == Some(40u32),
        snapshot_warmup_bars("trend.tema_20"@, cfg) == Some(40u32),
        snapshot_warmup_bars("trend.mcginley_14"@, cfg) == Some(15u32),
        snapshot_warmup_bars("trend.kama_10"@, cfg) == Some(12u32),
        snapshot_warmup_bars("trend.alma_20"@, cfg) == Some(20u32),
        snapshot_warmup_bars("trend.vidya_14"@, cfg) == Some(20u32),
{
    assert(snapshot_warmup_bars("trend.dema_20"@, cfg) == Some(40u32)) by {
        reveal_strlit("trend.dema_20");
        reveal_strlit("momentum.");
        assert("momentum."@.len() == 9);
        assert("trend.dema_20"@.subrange(0, 9)[0] != "momentum."@[0]);
        reveal_strlit("trend.");
        assert("trend.dema_20"@.subrange(0, 6) =~= "trend."@);
        assert("trend.dema_20"@.len() == 13);
        reveal_strlit("trend.sma_20");
        assert("trend.sma_20"@.len() == 12);
        reveal_strlit("trend.sma_50");
        assert("trend.sma_50"@.len() == 12);
        reveal_strlit("trend.sma_200");
        assert("trend.dema_20"@[6] != "trend.sma_200"@[6]);
        reveal_strlit("trend.ema_20");
        assert("trend.ema_20"@.len() == 12);
        reveal_strlit("trend.wma_20");
        assert("trend.wma_20"@.len() == 12);
        reveal_strlit("trend.hull_9");
        assert("trend.hull_9"@.len() == 12);
    }
    assert(snapshot_warmup_bars("trend.tema_20"@, cfg) == Some(40u32)) by {
        reveal_strlit("trend.tema_20");
        reveal_strlit("momentum.");
        assert("momentum."@.len() == 9);
        assert("trend.tema_20"@.subrange(0, 9)[0] != "momentum."@[0]);
        reveal_strlit("trend.");
        assert("trend.tema_20"@.subrange(0, 6) =~= "trend."@);
        assert("trend.tema_20"@.len() == 13);
        reveal_strlit("trend.sma_20");
        assert("trend.sma_20"@.len() == 12);
        reveal_strlit("trend.sma_50");
        assert("trend.sma_50"@.len() == 12);
        reveal_strlit("trend.sma_200");
        assert("trend.tema_20"@[6] != "trend.sma_200"@[6]);
        reveal_strlit("trend.ema_20");
        assert("trend.ema_20"@.len() == 12);
        reveal_strlit("trend.wma_20");
        assert("trend.wma_20"@.len() == 12);
        reveal_strlit("trend.hull_9");
        assert("trend.hull_9"@.len() == 12);
        reveal_strlit("trend.dema_20");
        assert("trend.tema_20"@[6] != "trend.dema_20"@[6]);
    }
    assert(snapshot_warmup_bars("trend.mcginley_14"@, cfg) == Some(15u32)) by {
        reveal_strlit("trend.mcginley_14");
        reveal_strlit("momentum.");
        assert("momentum."@.len() == 9);
        assert("trend.mcginley_14"@.subrange(0, 9)[0] != "momentum."@[0]);
        reveal_strlit("trend.");
        assert("trend.mcginley_14"@.subrange(0, 6) =~= "trend."@);
        assert("trend.mcginley_14"@.len() == 17);
        reveal_strlit("trend.sma_20");
        assert("trend.sma_20"@.len() == 12);
        reveal_strlit("trend.sma_50");
        assert("trend.sma_50"@.len() == 12);
        reveal_strlit("trend.sma_200");
        assert("trend.sma_200"@.len() == 13);
        reveal_strlit("trend.ema_20");
        assert("trend.ema_20"@.len() == 12);
        reveal_strlit("trend.wma_20");
        assert("trend.wma_20"@.len() == 12);
        reveal_strlit("trend.hull_9");
        assert("trend.hull_9"@.len() == 12);
        reveal_strlit("trend.dema_20");
        assert("trend.dema_20"@.len() == 13);
        reveal_strlit("trend.tema_20");
        assert("trend.tema_20"@.len() == 13);
    }
    assert(snapshot_warmup_bars("trend.kama_10"@, cfg) == Some(12u32)) by {
        reveal_strlit("trend.kama_10");
        reveal_strlit("momentum.");
        assert("momentum."@.len() == 9);
        assert("trend.kama_10"@.subrange(0, 9)[0] != "momentum."@[0]);
        reveal_strlit("trend.");
        assert("trend.kama_10"@.subrange(0, 6) =~= "trend."@);
        assert("trend.kama_10"@.len() == 13);
        reveal_strlit("trend.sma_20");
        assert("trend.sma_20"@.len() == 12);
        reveal_strlit("trend.sma_50");
        assert("trend.sma_50"@.len() == 12);
        reveal_strlit("trend.sma_200");
        assert("trend.kama_10"@[6] != "trend.sma_200"@[6]);
        reveal_strlit("trend.ema_20");
        assert("trend.ema_20"@.len() == 12);
        reveal_strlit("trend.wma_20");
        assert("trend.wma_20"@.len() == 12);
        reveal_strlit("trend.hull_9");
        assert("trend.hull_9"@.len() == 12);
        reveal_strlit("trend.dema_20");
        assert("trend.kama_10"@[6] != "trend.dema_20"@[6]);
        reveal_strlit("trend.tema_20");
        assert("trend.kama_10"@[6] != "trend.tema_20"@[6]);
        reveal_strlit("trend.mcginley_14");
        assert("trend.mcginley_14"@.len() == 17);
    }
    assert(snapshot_warmup_bars("trend.alma_20"@, cfg) == Some(20u32)) by {
        reveal_strlit("trend.alma_20");
        reveal_strlit("momentum.");
        assert("momentum."@.len() == 9);
        assert("trend.alma_20"@.subrange(0, 9)[0] != "momentum."@[0]);
        reveal_strlit("trend.");
        assert("trend.alma_20"@.subrange(0, 6) =~= "trend."@);
        assert("trend.alma_20"@.len() == 13);
        reveal_strlit("trend.sma_20");
        assert("trend.sma_20"@.len() == 12);
        reveal_strlit("trend.sma_50");
        assert("trend.sma_50"@.len() == 12);
        reveal_strlit("trend.sma_200");
        assert("trend.alma_20"@[6] != "trend.sma_200"@[6]);
        reveal_strlit("trend.ema_20");
        assert("trend.ema_20"@.len() == 12);
        reveal_strlit("trend.wma_20");
        assert("trend.wma_20"@.len() == 12);
        reveal_strlit("trend.hull_9");
        assert("trend.hull_9"@.len() == 12);
        reveal_strlit("trend.dema_20");
        assert("trend.alma_20"@[6] != "trend.dema_20"@[6]);
        reveal_strlit("trend.tema_20");
        assert("trend.alma_20"@[6] != "trend.tema_20"@[6]);
        reveal_strlit("trend.mcginley_14");
        assert("trend.mcginley_14"@.len() == 17);
        reveal_strlit("trend.kama_10");
        assert("trend.alma_20"@[6] != "trend.kama_10"@[6]);
    }
    assert(snapshot_warmup_bars("trend.vidya_14"@, cfg) == Some(20u32)) by {
        reveal_strlit("trend.vidya_14");
        reveal_strlit("momentum.");
        assert("momentum."@.len() == 9);
        assert("trend.vidya_14"@.subrange(0, 9)[0] != "momentum."@[0]);
        reveal_strlit("trend.");
        assert("trend.vidya_14"@.subrange(0, 6) =~= "trend."@);
        assert("trend.vidya_14"@.len() == 14);
        reveal_strlit("trend.sma_20");
        assert("trend.sma_20"@.len() == 12);
        reveal_strlit("trend.sma_50");
        assert("trend.sma_50"@.len() == 12);
        reveal_strlit("trend.sma_200");
        assert("trend.sma_200"@.len() == 13);
        reveal_strlit("trend.ema_20");
        assert("trend.ema_20"@.len() == 12);
        reveal_strlit("trend.wma_20");
        assert("trend.wma_20"@.len() == 12);
        reveal_strlit("trend.hull_9");
        assert("trend.hull_9"@.len() == 12);
        reveal_strlit("trend.dema_20");
        assert("trend.dema_20"@.len() == 13);
        reveal_strlit("trend.tema_20");
        assert("trend.tema_20"@.len() == 13);
        reveal_strlit("trend.mcginley_14");
        assert("trend.mcginley_14"@.len() == 17);
        reveal_strlit("trend.kama_10");
        assert("trend.kama_10"@.len() == 13);
        reveal_strlit("trend.alma_20");
        assert("trend.alma_20"@.len() == 13);
    }
}

/// Warm-up rows of trend leaves (part 3).
proof fn lemma_trend_leaves_3(cfg: WarmupConfig)
    ensures
        snapshot_warmup_bars("trend.lr_slope_20"@, cfg) == Some(21u32),
        snapshot_warmup_bars("trend.price_zscore_20"@, cfg) == Some(21u32),
        snapshot_warmup_bars("trend.hist_vol_logrets_20"@, cfg) == Some(21u32),
        snapshot_warmup_bars("trend.vwap_session"@, cfg) == match cfg.vwap_anchor_mode {
                VwapAnchorMode::RollingBars => Some(
                    (match cfg.vwap_rolling_bars {
                        Some(n) => n,
                        None => 96usize,
                    }) as u32,
                ),
                VwapAnchorMode::UtcDay => Some(96u32),
                VwapAnchorMode::Disabled => Some(1u32),
            },
        snapshot_warmup_bars("trend.vwap_upper_1sd"@, cfg) == match cfg.vwap_anchor_mode {
                VwapAnchorMode::RollingBars => Some(
                    (match cfg.vwap_rolling_bars {
                        Some(n) => n,
                        None => 96usize,
                    }) as u32,
                ),
                VwapAnchorMode::UtcDay => Some(96u32),
                VwapAnchorMode::Disabled => Some(1u32),
            },
        snapshot_warmup_bars("trend.vwap_lower_1sd"@, cfg) == match cfg.vwap_anchor_mode {
                VwapAnchorMode::RollingBars => Some(
                    (match cfg.vwap_rolling_bars {
                        Some(n) => n,
                        None => 96usize,
                    }) as u32,
                ),
                VwapAnchorMode::UtcDay => Some(96u32),
                VwapAnchorMode::Disabled => Some(1u32),
            },
{
    assert(snapshot_warmup_bars("trend.lr_slope_20"@, cfg) == Some(21u32)) by {
        reveal_strlit("trend.lr_slope_20");
        reveal_strlit("momentum.");
        assert("momentum."@.len() == 9);
        assert("trend.lr_slope_20"@.subrange(0, 9)[0] != "momentum."@[0]);
        reveal_strlit("trend.");
        assert("trend.lr_slope_20"@.subrange(0, 6) =~= "trend."@);
        assert("trend.lr_slope_20"@.len() == 17);
        reveal_strlit("trend.sma_20");
        assert("trend.sma_20"@.len() == 12);
        reveal_strlit("trend.sma_50");
        assert("trend.sma_50"@.len() == 12);
        reveal_strlit("trend.sma_200");
        assert("trend.sma_200"@.len() == 13);
        reveal_strlit("trend.ema_20");
        assert("trend.ema_20"@.len() == 12);
        reveal_strlit("trend.wma_20");
        assert("trend.wma_20"@.len() == 12);
        reveal_strlit("trend.hull_9");
        assert("trend.hull_9"@.len() == 12);
        reveal_strlit("trend.dema_20");
        assert("trend.dema_20"@.len() == 13);
        reveal_strlit("trend.tema_20");
        assert("trend.tema_20"@.len() == 13);
        reveal_strlit("trend.mcginley_14");
        assert("trend.lr_slope_20"@[6] != "trend.mcginley_14"@[6]);
        reveal_strlit("trend.kama_10");
        assert("trend.kama_10"@.len() == 13);
        reveal_strlit("trend.alma_20");
        assert("trend.alma_20"@.len() == 13);
        reveal_strlit("trend.vidya_14");
        assert("trend.vidya_14"@.len() == 14);
    }
    assert(snapshot_warmup_bars("trend.price_zscore_20"@, cfg) == Some(21u32)) by {
        reveal_strlit("trend.price_zscore_20");
        reveal_strlit("momentum.");
        assert("momentum."@.len() == 9);
        assert("trend.price_zscore_20"@.subrange(0, 9)[0] != "momentum."@[0]);
        reveal_strlit("trend.");
        assert("trend.price_zscore_20"@.subrange(0, 6) =~= "trend."@);
        assert("trend.price_zscore_20"@.len() == 21);
        reveal_strlit("trend.sma_20");
        assert("trend.sma_20"@.len() == 12);
        reveal_strlit("trend.sma_50");
        assert("trend.sma_50"@.len() == 12);
        reveal_strlit("trend.sma_200");
        assert("trend.sma_200"@.len() == 13);
        reveal_strlit("trend.ema_20");
        assert("trend.ema_20"@.len() == 12);
        reveal_strlit("trend.wma_20");
        assert("trend.wma_20"@.len() == 12);
        reveal_strlit("trend.hull_9");
        assert("trend.hull_9"@.len() == 12);
        reveal_strlit("trend.dema_20");
        assert("trend.dema_20"@.len() == 13);
        reveal_strlit("trend.tema_20");
        assert("trend.tema_20"@.len() == 13);
        reveal_strlit("trend.mcginley_14");
        assert("trend.mcginley_14"@.len() == 17);
        reveal_strlit("trend.kama_10");
        assert("trend.kama_10"@.len() == 13);
        reveal_strlit("trend.alma_20");
        assert("trend.alma_20"@.len() == 13);
        reveal_strlit("trend.vidya_14");
        assert("trend.vidya_14"@.len() == 14);
        reveal_strlit("trend.lr_slope_20");
        assert("trend.lr_slope_20"@.len() == 17);
    }
    assert(snapshot_warmup_bars("trend.hist_vol_logrets_20"@, cfg) == Some(21u32)) by {
        reveal_strlit("trend.hist_vol_logrets_20");
        reveal_strlit("momentum.");
        assert("momentum."@.len() == 9);
        assert("trend.hist_vol_logrets_20"@.subrange(0, 9)[0] != "momentum."@[0]);
        reveal_strlit("trend.");
        assert("trend.hist_vol_logrets_20"@.subrange(0, 6) =~= "trend."@);
        assert("trend.hist_vol_logrets_20"@.len() == 25);
        reveal_strlit("trend.sma_20");
        assert("trend.sma_20"@.len() == 12);
        reveal_strlit("trend.sma_50");
        assert("trend.sma_50"@.len() == 12);
        reveal_strlit("trend.sma_200");
        assert("trend.sma_200"@.len() == 13);
        reveal_strlit("trend.ema_20");
        assert("trend.ema_20"@.len() == 12);
        reveal_strlit("trend.wma_20");
        assert("trend.wma_20"@.len() == 12);
        reveal_strlit("trend.hull_9");
        assert("trend.hull_9"@.len() == 12);
        reveal_strlit("trend.dema_20");
        assert("trend.dema_20"@.len() == 13);
        reveal_strlit("trend.tema_20");
        assert("trend.tema_20"@.len() == 13);
        reveal_strlit("trend.mcginley_14");
        assert("trend.mcginley_14"@.len() == 17);
        reveal_strlit("trend.kama_10");
        assert("trend.kama_10"@.len() == 13);
        reveal_strlit("trend.alma_20");
        assert("trend.alma_20"@.len() == 13);
        reveal_strlit("trend.vidya_14");
        assert("trend.vidya_14"@.len() == 14);
        reveal_strlit("trend.lr_slope_20");
        assert("trend.lr_slope_20"@.len() == 17);
        reveal_strlit("trend.price_zscore_20");
        assert("trend.price_zscore_20"@.len() == 21);
    }
    assert(snapshot_warmup_bars("trend.vwap_session"@, cfg) == match cfg.vwap_anchor_mode {
                VwapAnchorMode::RollingBars => Some(
                    (match cfg.vwap_rolling_bars {
                        Some(n) => n,
                        None => 96usize,
                    }) as u32,
                ),
                VwapAnchorMode::UtcDay => Some(96u32),
                VwapAnchorMode::Disabled => Some(1u32),
            }) by {
        reveal_strlit("trend.vwap_session");
        reveal_strlit("momentum.");
        assert("momentum."@.len() == 9);
        assert("trend.vwap_session"@.subrange(0, 9)[0] != "momentum."@[0]);
        reveal_strlit("trend.");
        assert("trend.vwap_session"@.subrange(0, 6) =~= "trend."@);
        assert("trend.vwap_session"@.len() == 18);
        reveal_strlit("trend.sma_20");
        assert("trend.sma_20"@.len() == 12);
        reveal_strlit("trend.sma_50");
        assert("trend.sma_50"@.len() == 12);
        reveal_strlit("trend.sma_200");
        assert("trend.sma_200"@.len() == 13);
        reveal_strlit("trend.ema_20");
        assert("trend.ema_20"@.len() == 12);
        reveal_strlit("trend.wma_20");
        assert("trend.wma_20"@.len() == 12);
        reveal_strlit("trend.hull_9");
        assert("trend.hull_9"@.len() == 12);
        reveal_strlit("trend.dema_20");
        assert("trend.dema_20"@.len() == 13);
        reveal_strlit("trend.tema_20");
        assert("trend.tema_20"@.len() == 13);
        reveal_strlit("trend.mcginley_14");
        assert("trend.mcginley_14"@.len() == 17);
        reveal_strlit("trend.kama_10");
        assert("trend.kama_10"@.len() == 13);
        reveal_strlit("trend.alma_20");
        assert("trend.alma_20"@.len() == 13);
        reveal_strlit("trend.vidya_14");
        assert("trend.vidya_14"@.len() == 14);
        reveal_strlit("trend.lr_slope_20");
        assert("trend.lr_slope_20"@.len() == 17);
        reveal_strlit("trend.price_zscore_20");
        assert("trend.price_zscore_20"@.len() == 21);
        reveal_strlit("trend.hist_vol_logrets_20");
        assert("trend.hist_vol_logrets_20"@.len() == 25);
    }
    assert(snapshot_warmup_bars("trend.vwap_upper_1sd"@, cfg) == match cfg.vwap_anchor_mode {
                VwapAnchorMode::RollingBars => Some(
                    (match cfg.vwap_rolling_bars {
                        Some(n) => n,
                        None => 96usize,
                    }) as u32,
                ),
                VwapAnchorMode::UtcDay => Some(96u32),
                VwapAnchorMode::Disabled => Some(1u32),
            }) by {
        reveal_strlit("trend.vwap_upper_1sd");
        reveal_strlit("momentum.");
        assert("momentum."@.len() == 9);
        assert("trend.vwap_upper_1sd"@.subrange(0, 9)[0] != "momentum."@[0]);
        reveal_strlit("trend.");
        assert("trend.vwap_upper_1sd"@.subrange(0, 6) =~= "trend."@);
        assert("trend.vwap_upper_1sd"@.len() == 20);
        reveal_strlit("trend.sma_20");
        assert("trend.sma_20"@.len() == 12);
        reveal_strlit("trend.sma_50");
        assert("trend.sma_50"@.len() == 12);
        reveal_strlit("trend.sma_200");
        assert("trend.sma_200"@.len() == 13);
        reveal_strlit("trend.ema_20");
        assert("trend.ema_20"@.len() == 12);
        reveal_strlit("trend.wma_20");
        assert("trend.wma_20"@.len() == 12);
        reveal_strlit("trend.hull_9");
        assert("trend.hull_9"@.len() == 12);
        reveal_strlit("trend.dema_20");
        assert("trend.dema_20"@.len() == 13);
        reveal_strlit("trend.tema_20");
        assert("trend.tema_20"@.len() == 13);
        reveal_strlit("trend.mcginley_14");
        assert("trend.mcginley_14"@.len() == 17);
        reveal_strlit("trend.kama_10");
        assert("trend.kama_10"@.len() == 13);
        reveal_strlit("trend.alma_20");
        assert("trend.alma_20"@.len() == 13);
        reveal_strlit("trend.vidya_14");
        assert("trend.vidya_14"@.len() == 14);
        reveal_strlit("trend.lr_slope_20");
        assert("trend.lr_slope_20"@.len() == 17);
        reveal_strlit("trend.price_zscore_20");
        assert("trend.price_zscore_20"@.len() == 21);
        reveal_strlit("trend.hist_vol_logrets_20");
        assert("trend.hist_vol_logrets_20"@.len() == 25);
        reveal_strlit("trend.vwap_session");
        assert("trend.vwap_session"@.len() == 18);
    }
    assert(snapshot_warmup_bars("trend.vwap_lower_1sd"@, cfg) == match cfg.vwap_anchor_mode {
                VwapAnchorMode::RollingBars => Some(
                    (match cfg.vwap_rolling_bars {
                        Some(n) => n,
                        None => 96usize,
                    }) as u32,
                ),
                VwapAnchorMode::UtcDay => Some(96u32),
                VwapAnchorMode::Disabled => Some(1u32),
            }) by {
        reveal_strlit("trend.vwap_lower_1sd");
        reveal_strlit("momentum.");
        assert("momentum."@.len() == 9);
        assert("trend.vwap_lower_1sd"@.subrange(0, 9)[0] != "momentum."@[0]);
        reveal_strlit("trend.");
        assert("trend.vwap_lower_1sd"@.subrange(0, 6) =~= "trend."@);
        assert("trend.vwap_lower_1sd"@.len() == 20);
        reveal_strlit("trend.sma_20");
        assert("trend.sma_20"@.len() == 12);
        reveal_strlit("trend.sma_50");
        assert("trend.sma_50"@.len() == 12);
        reveal_strlit("trend.sma_200");
        assert("trend.sma_200"@.len() == 13);
        reveal_strlit("trend.ema_20");
        assert("trend.ema_20"@.len() == 12);
        reveal_strlit("trend.wma_20");
        assert("trend.wma_20"@.len() == 12);
        reveal_strlit("trend.hull_9");
        assert("trend.hull_9"@.len() == 12);
        reveal_strlit("trend.dema_20");
        assert("trend.dema_20"@.len() == 13);
        reveal_strlit("trend.tema_20");
        assert("trend.tema_20"@.len() == 13);
        reveal_strlit("trend.mcginley_14");
        assert("trend.mcginley_14"@.len() == 17);
        reveal_strlit("trend.kama_10");
        assert("trend.kama_10"@.len() == 13);
        reveal_strlit("trend.alma_20");
        assert("trend.alma_20"@.len() == 13);
        reveal_strlit("trend.vidya_14");
        assert("trend.vidya_14"@.len() == 14);
        reveal_strlit("trend.lr_slope_20");
        assert("trend.lr_slope_20"@.len() == 17);
        reveal_strlit("trend.price_zscore_20");
        assert("trend.price_zscore_20"@.len() == 21);
        reveal_strlit("trend.hist_vol_logrets_20");
        assert("trend.hist_vol_logrets_20"@.len() == 25);
        reveal_strlit("trend.vwap_session");
        assert("trend.vwap_session"@.len() == 18);
        reveal_strlit("trend.vwap_upper_1sd");
        assert("trend.vwap_lower_1sd"@[11] != "trend.vwap_upper_1sd"@[11]);
    }
}

/// Warm-up rows of trend leaves (part 4).
proof fn lemma_trend_leaves_4(cfg: WarmupConfig)
    ensures
        snapshot_warmup_bars("trend.vwap_upper_2sd"@, cfg) == match cfg.vwap_anchor_mode {
                VwapAnchorMode::RollingBars => Some(
                    (match cfg.vwap_rolling_bars {
                        Some(n) => n,
                        None => 96usize,
                    }) as u32,
                ),
                VwapAnchorMode::UtcDay => Some(96u32),
                VwapAnchorMode::Disabled => Some(1u32),
            },
        snapshot_warmup_bars("trend.vwap_lower_2sd"@, cfg) == match cfg.vwap_anchor_mode {
                VwapAnchorMode::RollingBars => Some(
                    (match cfg.vwap_rolling_bars {
                        Some(n) => n,
                        None => 96usize,
                    }) as u32,
                ),
                VwapAnchorMode::UtcDay => Some(96u32),
                VwapAnchorMode::Disabled => Some(1u32),
            },
        snapshot_warmup_bars("trend.mama"@, cfg) == Some(50u32),
        snapshot_warmup_bars("trend.fama"@, cfg) == Some(50u32),
{
    assert(snapshot_warmup_bars("trend.vwap_upper_2sd"@, cfg) == match cfg.vwap_anchor_mode {
                VwapAnchorMode::RollingBars => Some(
                    (match cfg.vwap_rolling_bars {
                        Some(n) => n,
                        None => 96usize,
                    }) as u32,
                ),
                VwapAnchorMode::UtcDay => Some(96u32),
                VwapAnchorMode::Disabled => Some(1u32),
            }) by {
        reveal_strlit("trend.vwap_upper_2sd");
        reveal_strlit("momentum.");
        assert("momentum."@.len() == 9);
        assert("trend.vwap_upper_2sd"@.subrange(0, 9)[0] != "momentum."@[0]);
        reveal_strlit("trend.");
        assert("trend.vwap_upper_2sd"@.subrange(0, 6) =~= "trend."@);
        assert("trend.vwap_upper_2sd"@.len() == 20);
        reveal_strlit("trend.sma_20");
        assert("trend.sma_20"@.len() == 12);
        reveal_strlit("trend.sma_50");
        assert("trend.sma_50"@.len() == 12);
        reveal_strlit("trend.sma_200");
        assert("trend.sma_200"@.len() == 13);
        reveal_strlit("trend.ema_20");
        assert("trend.ema_20"@.len() == 12);
        reveal_strlit("trend.wma_20");
        assert("trend.wma_20"@.len() == 12);
        reveal_strlit("trend.hull_9");
        assert("trend.hull_9"@.len() == 12);
        reveal_strlit("trend.dema_20");
        assert("trend.dema_20"@.len() == 13);
        reveal_strlit("trend.tema_20");
        assert("trend.tema_20"@.len() == 13);
        reveal_strlit("trend.mcginley_14");
        assert("trend.mcginley_14"@.len() == 17);
        reveal_strlit("trend.kama_10");
        assert("trend.kama_10"@.len() == 13);
        reveal_strlit("trend.alma_20");
        assert("trend.alma_20"@.len() == 13);
        reveal_strlit("trend.vidya_14");
        assert("trend.vidya_14"@.len() == 14);
        reveal_strlit("trend.lr_slope_20");
        assert("trend.lr_slope_20"@.len() == 17);
        reveal_strlit("trend.price_zscore_20");
        assert("trend.price_zscore_20"@.len() == 21);
        reveal_strlit("trend.hist_vol_logrets_20");
        assert("trend.hist_vol_logrets_20"@.len() == 25);
        reveal_strlit("trend.vwap_session");
        assert("trend.vwap_session"@.len() == 18);
        reveal_strlit("trend.vwap_upper_1sd");
        assert("trend.vwap_upper_2sd"@[17] != "trend.vwap_upper_1sd"@[17]);
        reveal_strlit("trend.vwap_lower_1sd");
        assert("trend.vwap_upper_2sd"@[11] != "trend.vwap_lower_1sd"@[11]);
    }
    assert(snapshot_warmup_bars("trend.vwap_lower_2sd"@, cfg) == match cfg.vwap_anchor_mode {
                VwapAnchorMode::RollingBars => Some(
                    (match cfg.vwap_rolling_bars {
                        Some(n) => n,
                        None => 96usize,
                    }) as u32,
                ),
                VwapAnchorMode::UtcDay => Some(96u32),
                VwapAnchorMode::Disabled => Some(1u32),
            }) by {
        reveal_strlit("trend.vwap_lower_2sd");
        reveal_strlit("momentum.");
        assert("momentum."@.len() == 9);
        assert("trend.vwap_lower_2sd"@.subrange(0, 9)[0] != "momentum."@[0]);
        reveal_strlit("trend.");
        assert("trend.vwap_lower_2sd"@.subrange(0, 6) =~= "trend."@);
        assert("trend.vwap_lower_2sd"@.len() == 20);
        reveal_strlit("trend.sma_20");
        assert("trend.sma_20"@.len() == 12);
        reveal_strlit("trend.sma_50");
        assert("trend.sma_50"@.len() == 12);
        reveal_strlit("trend.sma_200");
        assert("trend.sma_200"@.len() == 13);
        reveal_strlit("trend.ema_20");
        assert("trend.ema_20"@.len() == 12);
        reveal_strlit("trend.wma_20");
        assert("trend.wma_20"@.len() == 12);
        reveal_strlit("trend.hull_9");
        assert("trend.hull_9"@.len() == 12);
        reveal_strlit("trend.dema_20");
        assert("trend.dema_20"@.len() == 13);
        reveal_strlit("trend.tema_20");
        assert("trend.tema_20"@.len() == 13);
        reveal_strlit("trend.mcginley_14");
        assert("trend.mcginley_14"@.len() == 17);
        reveal_strlit("trend.kama_10");
        assert("trend.kama_10"@.len() == 13);
        reveal_strlit("trend.alma_20");
        assert("trend.alma_20"@.len() == 13);
        reveal_strlit("trend.vidya_14");
        assert("trend.vidya_14"@.len() == 14);
        reveal_strlit("trend.lr_slope_20");
        assert("trend.lr_slope_20"@.len() == 17);
        reveal_strlit("trend.price_zscore_20");
        assert("trend.price_zscore_20"@.len() == 21);
        reveal_strlit("trend.hist_vol_logrets_20");
        assert("trend.hist_vol_logrets_20"@.len() == 25);
        reveal_strlit("trend.vwap_session");
        assert("trend.vwap_session"@.len() == 18);
        reveal_strlit("trend.vwap_upper_1sd");
        assert("trend.vwap_lower_2sd"@[11] != "trend.vwap_upper_1sd"@[11]);
        reveal_strlit("trend.vwap_lower_1sd");
        assert("trend.vwap_lower_2sd"@[17] != "trend.vwap_lower_1sd"@[17]);
        reveal_strlit("trend.vwap_upper_2sd");
        assert("trend.vwap_lower_2sd"@[11] != "trend.vwap_upper_2sd"@[11]);
    }
    assert(snapshot_warmup_bars("trend.mama"@, cfg) == Some(50u32)) by {
        reveal_strlit("trend.mama");
        reveal_strlit("momentum.");
        assert("momentum."@.len() == 9);
        assert("trend.mama"@.subrange(0, 9)[0] != "momentum."@[0]);
        reveal_strlit("trend.");
        assert("trend.mama"@.subrange(0, 6) =~= "trend."@);
        assert("trend.mama"@.len() == 10);
        reveal_strlit("trend.sma_20");
        assert("trend.sma_20"@.len() == 12);
        reveal_strlit("trend.sma_50");
        assert("trend.sma_50"@.len() == 12);
        reveal_strlit("trend.sma_200");
        assert("trend.sma_200"@.len() == 13);
        reveal_strlit("trend.ema_20");
        assert("trend.ema_20"@.len() == 12);
        reveal_strlit("trend.wma_20");
        assert("trend.wma_20"@.len() == 12);
        reveal_strlit("trend.hull_9");
        assert("trend.hull_9"@.len() == 12);
        reveal_strlit("trend.dema_20");
        assert("trend.dema_20"@.len() == 13);
        reveal_strlit("trend.tema_20");
        assert("trend.tema_20"@.len() == 13);
        reveal_strlit("trend.mcginley_14");
        assert("trend.mcginley_14"@.len() == 17);
        reveal_strlit("trend.kama_10");
        assert("trend.kama_10"@.len() == 13);
        reveal_strlit("trend.alma_20");
        assert("trend.alma_20"@.len() == 13);
        reveal_strlit("trend.vidya_14");
        assert("trend.vidya_14"@.len() == 14);
        reveal_strlit("trend.lr_slope_20");
        assert("trend.lr_slope_20"@.len() == 17);
        reveal_strlit("trend.price_zscore_20");
        assert("trend.price_zscore_20"@.len() == 21);
        reveal_strlit("trend.hist_vol_logrets_20");
        assert("trend.hist_vol_logrets_20"@.len() == 25);
        reveal_strlit("trend.vwap_session");
        assert("trend.vwap_session"@.len() == 18);
        reveal_strlit("trend.vwap_upper_1sd");
        assert("trend.vwap_upper_1sd"@.len() == 20);
        reveal_strlit("trend.vwap_lower_1sd");
        assert("trend.vwap_lower_1sd"@.len() == 20);
        reveal_strlit("trend.vwap_upper_2sd");
        assert("trend.vwap_upper_2sd"@.len() == 20);
        reveal_strlit("trend.vwap_lower_2sd");
        assert("trend.vwap_lower_2sd"@.len() == 20);
    }
    assert(snapshot_warmup_bars("trend.fama"@, cfg) == Some(50u32)) by {
        reveal_strlit("trend.fama");
        reveal_strlit("momentum.");
        assert("momentum."@.len() == 9);
        assert("trend.fama"@.subrange(0, 9)[0] != "momentum."@[0]);
        reveal_strlit("trend.");
        assert("trend.fama"@.subrange(0, 6) =~= "trend."@);
        assert("trend.fama"@.len() == 10);
        reveal_strlit("trend.sma_20");
        assert("trend.sma_20"@.len() == 12);
        reveal_strlit("trend.sma_50");
        assert("trend.sma_50"@.len() == 12);
        reveal_strlit("trend.sma_200");
        assert("trend.sma_200"@.len() == 13);
        reveal_strlit("trend.ema_20");
        assert("trend.ema_20"@.len() == 12);
        reveal_strlit("trend.wma_20");
        assert("trend.wma_20"@.len() == 12);
        reveal_strlit("trend.hull_9");
        assert("trend.hull_9"@.len() == 12);
        reveal_strlit("trend.dema_20");
        assert("trend.dema_20"@.len() == 13);
        reveal_strlit("trend.tema_20");
        assert("trend.tema_20"@.len() == 13);
        reveal_strlit("trend.mcginley_14");
        assert("trend.mcginley_14"@.len() == 17);
        reveal_strlit("trend.kama_10");
        assert("trend.kama_10"@.len() == 13);
        reveal_strlit("trend.alma_20");
        assert("trend.alma_20"@.len() == 13);
        reveal_strlit("trend.vidya_14");
        assert("trend.vidya_14"@.len() == 14);
        reveal_strlit("trend.lr_slope_20");
        assert("trend.lr_slope_20"@.len() == 17);
        reveal_strlit("trend.price_zscore_20");
        assert("trend.price_zscore_20"@.len() == 21);
        reveal_strlit("trend.hist_vol_logrets_20");
        assert("trend.hist_vol_logrets_20"@.len() == 25);
        reveal_strlit("trend.vwap_session");
        assert("trend.vwap_session"@.len() == 18);
        reveal_strlit("trend.vwap_upper_1sd");
        assert("trend.vwap_upper_1sd"@.len() == 20);
        reveal_strlit("trend.vwap_lower_1sd");
        assert("trend.vwap_lower_1sd"@.len() == 20);
        reveal_strlit("trend.vwap_upper_2sd");
        assert("trend.vwap_upper_2sd"@.len() == 20);
        reveal_strlit("trend.vwap_lower_2sd");
        assert("trend.vwap_lower_2sd"@.len() == 20);
        reveal_strlit("trend.mama");
        assert("trend.fama"@[6] != "trend.mama"@[6]);
    }
}

/// The trend leaves of the indicator snapshot and their warm-up rows.
pub proof fn lemma_trend_leaf_table(cfg: WarmupConfig)
    ensures
        snapshot_warmup_bars("trend.sma_20"@, cfg) == Some(20u32),
        snapshot_warmup_bars("trend.sma_50"@, cfg) == Some(50u32),
        snapshot_warmup_bars("trend.sma_200"@, cfg) == Some(200u32),
        snapshot_warmup_bars("trend.ema_20"@, cfg) == Some(20u32),
        snapshot_warmup_bars("trend.wma_20"@, cfg) == Some(20u32),
        snapshot_warmup_bars("trend.hull_9"@, cfg) == Some(12u32),
        snapshot_warmup_bars("trend.dema_20"@, cfg) == Some(40u32),
        snapshot_warmup_bars("trend.tema_20"@, cfg) == Some(40u32),
        snapshot_warmup_bars("trend.mcginley_14"@, cfg) == Some(15u32),
        snapshot_warmup_bars("trend.kama_10"@, cfg) == Some(12u32),
        snapshot_warmup_bars("trend.alma_20"@, cfg) == Some(20u32),
        snapshot_warmup_bars("trend.vidya_14"@, cfg) == Some(20u32),
        snapshot_warmup_bars("trend.lr_slope_20"@, cfg) == Some(21u32),
        snapshot_warmup_bars("trend.price_zscore_20"@, cfg) == Some(21u32),
        snapshot_warmup_bars("trend.hist_vol_logrets_20"@, cfg) == Some(21u32),
        snapshot_warmup_bars("trend.vwap_session"@, cfg) == match cfg.vwap_anchor_mode {
                VwapAnchorMode::RollingBars => Some(
                    (match cfg.vwap_rolling_bars {
                        Some(n) => n,
                        None => 96usize,
                    }) as u32,
                ),
                VwapAnchorMode::UtcDay => Some(96u32),
                VwapAnchorMode::Disabled => Some(1u32),
            },
        snapshot_warmup_bars("trend.vwap_upper_1sd"@, cfg) == match cfg.vwap_anchor_mode {
                VwapAnchorMode::RollingBars => Some(
                    (match cfg.vwap_rolling_bars {
                        Some(n) => n,
                        None => 96usize,
                    }) as u32,
                ),
                VwapAnchorMode::UtcDay => Some(96u32),
                VwapAnchorMode::Disabled => Some(1u32),
            },
        snapshot_warmup_bars("trend.vwap_lower_1sd"@, cfg) == match cfg.vwap_anchor_mode {
                VwapAnchorMode::RollingBars => Some(
                    (match cfg.vwap_rolling_bars {
                        Some(n) => n,
                        None => 96usize,
                    }) as u32,
                ),
                VwapAnchorMode::UtcDay => Some(96u32),
                VwapAnchorMode::Disabled => Some(1u32),
            },
        snapshot_warmup_bars("trend.vwap_upper_2sd"@, cfg) == match cfg.vwap_anchor_mode {
                VwapAnchorMode::RollingBars => Some(
                    (match cfg.vwap_rolling_bars {
                        Some(n) => n,
                        None => 96usize,
                    }) as u32,
                ),
                VwapAnchorMode::UtcDay => Some(96u32),
                VwapAnchorMode::Disabled => Some(1u32),
            },
        snapshot_warmup_bars("trend.vwap_lower_2sd"@, cfg) == match cfg.vwap_anchor_mode {
                VwapAnchorMode::RollingBars => Some(
                    (match cfg.vwap_rolling_bars {
                        Some(n) => n,
                        None => 96usize,
                    }) as u32,
                ),
                VwapAnchorMode::UtcDay => Some(96u32),
                VwapAnchorMode::Disabled => Some(1u32),
            },
        snapshot_warmup_bars("trend.mama"@, cfg) == Some(50u32),
        snapshot_warmup_bars("trend.fama"@, cfg) == Some(50u32),
{
    lemma_trend_leaves_1(cfg);
    lemma_trend_leaves_2(cfg);
    lemma_trend_leaves_3(cfg);
    lemma_trend_leaves_4(cfg);
}

/// Every named trend leaf has a warm-up.
proof fn lemma_trend_leaves_have_warmup(rest: Seq<char>, cfg: WarmupConfig)
    ensures
        is_trend_leaf(rest) ==> snapshot_warmup_bars(rest, cfg) is Some,
{
    lemma_trend_leaf_table(cfg);
}

/// Warm-up rows of volatility leaves (part 1).
proof fn lemma_volatility_leaves_1(cfg: WarmupConfig)
    ensures
        snapshot_warmup_bars("volatility.bb_middle_20"@, cfg) == Some(20u32),
        snapshot_warmup_bars("volatility.bb_upper_20"@, cfg) == Some(20u32),
        snapshot_warmup_bars("volatility.bb_lower_20"@, cfg) == Some(20u32),
        snapshot_warmup_bars("volatility.bb_pct_b_20"@, cfg) == Some(20u32),
        snapshot_warmup_bars("volatility.bb_bandwidth_20"@, cfg) == Some(20u32),
        snapshot_warmup_bars("volatility.keltner_middle_20"@, cfg) == Some(21u32),
{
    assert(snapshot_warmup_bars("volatility.bb_middle_20"@, cfg) == Some(20u32)) by {
        reveal_strlit("volatility.bb_middle_20");
        reveal_strlit("momentum.");
        assert("momentum."@.len() == 9);
        assert("volatility.bb_middle_20"@.subrange(0, 9)[0] != "momentum."@[0]);
        reveal_strlit("trend.");
        assert("trend."@.len() == 6);
        assert("volatility.bb_middle_20"@.subrange(0, 6)[0] != "trend."@[0]);
        reveal_strlit("ichimoku.");
        assert("ichimoku."@.len() == 9);
        assert("volatility.bb_middle_20"@.subrange(0, 9)[0] != "ichimoku."@[0]);
        reveal_strlit("volatility.");
        assert("volatility.bb_middle_20"@.subrange(0, 11) =~= "volatility."@);
        reveal_strlit("volatility.pivot_classic.");
        assert("volatility.pivot_classic."@.len() == 25);
        reveal_strlit("volatility.pivot_fib.");
        assert("volatility.pivot_fib."@.len() == 21);
        assert("volatility.bb_middle_20"@.subrange(0, 21)[11] != "volatility.pivot_fib."@[11]);
        assert("volatility.bb_middle_20"@.len() == 23);
    }
    assert(snapshot_warmup_bars("volatility.bb_upper_20"@, cfg) == Some(20u32)) by {
        reveal_strlit("volatility.bb_upper_20");
        reveal_strlit("momentum.");
        assert("momentum."@.len() == 9);
        assert("volatility.bb_upper_20"@.subrange(0, 9)[0] != "momentum."@[0]);
        reveal_strlit("trend.");
        assert("trend."@.len() == 6);
        assert("volatility.bb_upper_20"@.subrange(0, 6)[0] != "trend."@[0]);
        reveal_strlit("ichimoku.");
        assert("ichimoku."@.len() == 9);
        assert("volatility.bb_upper_20"@.subrange(0, 9)[0] != "ichimoku."@[0]);
        reveal_strlit("volatility.");
        assert("volatility.bb_upper_20"@.subrange(0, 11) =~= "volatility."@);
        reveal_strlit("volatility.pivot_classic.");
        assert("volatility.pivot_classic."@.len() == 25);
        reveal_strlit("volatility.pivot_fib.");
        assert("volatility.pivot_fib."@.len() == 21);
        assert("volatility.bb_upper_20"@.subrange(0, 21)[11] != "volatility.pivot_fib."@[11]);
        assert("volatility.bb_upper_20"@.len() == 22);
        reveal_strlit("volatility.bb_middle_20");
        assert("volatility.bb_middle_20"@.len() == 23);
    }
    assert(snapshot_warmup_bars("volatility.bb_lower_20"@, cfg) == Some(20u32)) by {
        reveal_strlit("volatility.bb_lower_20");
        reveal_strlit("momentum.");
        assert("momentum."@.len() == 9);
        assert("volatility.bb_lower_20"@.subrange(0, 9)[0] != "momentum."@[0]);
        reveal_strlit("trend.");
        assert("trend."@.len() == 6);
        assert("volatility.bb_lower_20"@.subrange(0, 6)[0] != "trend."@[0]);
        reveal_strlit("ichimoku.");
        assert("ichimoku."@.len() == 9);
        assert("volatility.bb_lower_20"@.subrange(0, 9)[0] != "ichimoku."@[0]);
        reveal_strlit("volatility.");
        assert("volatility.bb_lower_20"@.subrange(0, 11) =~= "volatility."@);
        reveal_strlit("volatility.pivot_classic.");
        assert("volatility.pivot_classic."@.len() == 25);
        reveal_strlit("volatility.pivot_fib.");
        assert("volatility.pivot_fib."@.len() == 21);
        assert("volatility.bb_lower_20"@.subrange(0, 21)[11] != "volatility.pivot_fib."@[11]);
        assert("volatility.bb_lower_20"@.len() == 22);
        reveal_strlit("volatility.bb_middle_20");
        assert("volatility.bb_middle_20"@.len() == 23);
        reveal_strlit("volatility.bb_upper_20");
        assert("volatility.bb_lower_20"@[14] != "volatility.bb_upper_20"@[14]);
    }
    assert(snapshot_warmup_bars("volatility.bb_pct_b_20"@, cfg) == Some(20u32)) by {
        reveal_strlit("volatility.bb_pct_b_20");
        reveal_strlit("momentum.");
        assert("momentum."@.len() == 9);
        assert("volatility.bb_pct_b_20"@.subrange(0, 9)[0] != "momentum."@[0]);
        reveal_strlit("trend.");
        assert("trend."@.len() == 6);
        assert("volatility.bb_pct_b_20"@.subrange(0, 6)[0] != "trend."@[0]);
        reveal_strlit("ichimoku.");
        assert("ichimoku."@.len() == 9);
        assert("volatility.bb_pct_b_20"@.subrange(0, 9)[0] != "ichimoku."@[0]);
        reveal_strlit("volatility.");
        assert("volatility.bb_pct_b_20"@.subrange(0, 11) =~= "volatility."@);
        reveal_strlit("volatility.pivot_classic.");
        assert("volatility.pivot_classic."@.len() == 25);
        reveal_strlit("volatility.pivot_fib.");
        assert("volatility.pivot_fib."@.len() == 21);
        assert("volatility.bb_pct_b_20"@.subrange(0, 21)[11] != "volatility.pivot_fib."@[11]);
        assert("volatility.bb_pct_b_20"@.len() == 22);
        reveal_strlit("volatility.bb_middle_20");
        assert("volatility.bb_middle_20"@.len() == 23);
        reveal_strlit("volatility.bb_upper_20");
        assert("volatility.bb_pct_b_20"@[14] != "volatility.bb_upper_20"@[14]);
        reveal_strlit("volatility.bb_lower_20");
        assert("volatility.bb_pct_b_20"@[14] != "volatility.bb_lower_20"@[14]);
    }
    assert(snapshot_warmup_bars("volatility.bb_bandwidth_20"@, cfg) == Some(20u32)) by {
        reveal_strlit("volatility.bb_bandwidth_20");
        reveal_strlit("momentum.");
        assert("momentum."@.len() == 9);
        assert("volatility.bb_bandwidth_20"@.subrange(0, 9)[0] != "momentum."@[0]);
        reveal_strlit("trend.");
        assert("trend."@.len() == 6);
        assert("volatility.bb_bandwidth_20"@.subrange(0, 6)[0] != "trend."@[0]);
        reveal_strlit("ichimoku.");
        assert("ichimoku."@.len() == 9);
        assert("volatility.bb_bandwidth_20"@.subrange(0, 9)[0] != "ichimoku."@[0]);
        reveal_strlit("volatility.");
        assert("volatility.bb_bandwidth_20"@.subrange(0, 11) =~= "volatility."@);
        reveal_strlit("volatility.pivot_classic.");
        assert("volatility.pivot_classic."@.len() == 25);
        assert("volatility.bb_bandwidth_20"@.subrange(0, 25)[11] != "volatility.pivot_classic."@[11]);
        reveal_strlit("volatility.pivot_fib.");
        assert("volatility.pivot_fib."@.len() == 21);
        assert("volatility.bb_bandwidth_20"@.subrange(0, 21)[11] != "volatility.pivot_fib."@[11]);
        assert("volatility.bb_bandwidth_20"@.len() == 26);
        reveal_strlit("volatility.bb_middle_20");
        assert("volatility.bb_middle_20"@.len() == 23);
        reveal_strlit("volatility.bb_upper_20");
        assert("volatility.bb_upper_20"@.len() == 22);
        reveal_strlit("volatility.bb_lower_20");
        assert("volatility.bb_lower_20"@.len() == 22);
        reveal_strlit("volatility.bb_pct_b_20");
        assert("volatility.bb_pct_b_20"@.len() == 22);
    }
    assert(snapshot_warmup_bars("volatility.keltner_middle_20"@, cfg) == Some(21u32)) by {
        reveal_strlit("volatility.keltner_middle_20");
        reveal_strlit("momentum.");
        assert("momentum."@.len() == 9);
        assert("volatility.keltner_middle_20"@.subrange(0, 9)[0] != "momentum."@[0]);
        reveal_strlit("trend.");
        assert("trend."@.len() == 6);
        assert("volatility.keltner_middle_20"@.subrange(0, 6)[0] != "trend."@[0]);
        reveal_strlit("ichimoku.");
        assert("ichimoku."@.len() == 9);
        assert("volatility.keltner_middle_20"@.subrange(0, 9)[0] != "ichimoku."@[0]);
        reveal_strlit("volatility.");
        assert("volatility.keltner_middle_20"@.subrange(0, 11) =~= "volatility."@);
        reveal_strlit("volatility.pivot_classic.");
        assert("volatility.pivot_classic."@.len() == 25);
        assert("volatility.keltner_middle_20"@.subrange(0, 25)[11] != "volatility.pivot_classic."@[11]);
        reveal_strlit("volatility.pivot_fib.");
        assert("volatility.pivot_fib."@.len() == 21);
        assert("volatility.keltner_middle_20"@.subrange(0, 21)[11] != "volatility.pivot_fib."@[11]);
        assert("volatility.keltner_middle_20"@.len() == 28);
        reveal_strlit("volatility.bb_middle_20");
        assert("volatility.bb_middle_20"@.len() == 23);
        reveal_strlit("volatility.bb_upper_20");
        assert("volatility.bb_upper_20"@.len() == 22);
        reveal_strlit("volatility.bb_lower_20");
        assert("volatility.bb_lower_20"@.len() == 22);
        reveal_strlit("volatility.bb_pct_b_20");
        assert("volatility.bb_pct_b_20"@.len() == 22);
        reveal_strlit("volatility.bb_bandwidth_20");
        assert("volatility.bb_bandwidth_20"@.len() == 26);
    }
}

/// Warm-up rows of volatility leaves (part 2).
proof fn lemma_volatility_leaves_2(cfg: WarmupConfig)
    ensures
        snapshot_warmup_bars("volatility.keltner_upper_20"@, cfg) == Some(21u32),
        snapshot_warmup_bars("volatility.keltner_lower_20"@, cfg) == Some(21u32),
        snapshot_warmup_bars("volatility.donchian_upper_20"@, cfg) == Some(20u32),
        snapshot_warmup_bars("volatility.donchian_lower_20"@, cfg) == Some(20u32),
        snapshot_warmup_bars("volatility.donchian_mid_20"@, cfg) == Some(20u32),
        snapshot_warmup_bars("volatility.supertrend_10_3"@, cfg) == Some(12u32),
{
    assert(snapshot_warmup_bars("volatility.keltner_upper_20"@, cfg) == Some(21u32)) by {
        reveal_strlit("volatility.keltner_upper_20");
        reveal_strlit("momentum.");
        assert("momentum."@.len() == 9);
        assert("volatility.keltner_upper_20"@.subrange(0, 9)[0] != "momentum."@[0]);
        reveal_strlit("trend.");
        assert("trend."@.len() == 6);
        assert("volatility.keltner_upper_20"@.subrange(0, 6)[0] != "trend."@[0]);
        reveal_strlit("ichimoku.");
        assert("ichimoku."@.len() == 9);
        assert("volatility.keltner_upper_20"@.subrange(0, 9)[0] != "ichimoku."@[0]);
        reveal_strlit("volatility.");
        assert("volatility.keltner_upper_20"@.subrange(0, 11) =~= "volatility."@);
        reveal_strlit("volatility.pivot_classic.");
        assert("volatility.pivot_classic."@.len() == 25);
        assert("volatility.keltner_upper_20"@.subrange(0, 25)[11] != "volatility.pivot_classic."@[11]);
        reveal_strlit("volatility.pivot_fib.");
        assert("volatility.pivot_fib."@.len() == 21);
        assert("volatility.keltner_upper_20"@.subrange(0, 21)[11] != "volatility.pivot_fib."@[11]);
        assert("volatility.keltner_upper_20"@.len() == 27);
        reveal_strlit("volatility.bb_middle_20");
        assert("volatility.bb_middle_20"@.len() == 23);
        reveal_strlit("volatility.bb_upper_20");
        assert("volatility.bb_upper_20"@.len() == 22);
        reveal_strlit("volatility.bb_lower_20");
        assert("volatility.bb_lower_20"@.len() == 22);
        reveal_strlit("volatility.bb_pct_b_20");
        assert("volatility.bb_pct_b_20"@.len() == 22);
        reveal_strlit("volatility.bb_bandwidth_20");
        assert("volatility.bb_bandwidth_20"@.len() == 26);
        reveal_strlit("volatility.keltner_middle_20");
        assert("volatility.keltner_middle_20"@.len() == 28);
    }
    assert(snapshot_warmup_bars("volatility.keltner_lower_20"@, cfg) == Some(21u32)) by {
        reveal_strlit("volatility.keltner_lower_20");
        reveal_strlit("momentum.");
        assert("momentum."@.len() == 9);
        assert("volatility.keltner_lower_20"@.subrange(0, 9)[0] != "momentum."@[0]);
        reveal_strlit("trend.");
        assert("trend."@.len() == 6);
        assert("volatility.keltner_lower_20"@.subrange(0, 6)[0] != "trend."@[0]);
        reveal_strlit("ichimoku.");
        assert("ichimoku."@.len() == 9);
        assert("volatility.keltner_lower_20"@.subrange(0, 9)[0] != "ichimoku."@[0]);
        reveal_strlit("volatility.");
        assert("volatility.keltner_lower_20"@.subrange(0, 11) =~= "volatility."@);
        reveal_strlit("volatility.pivot_classic.");
        assert("volatility.pivot_classic."@.len() == 25);
        assert("volatility.keltner_lower_20"@.subrange(0, 25)[11] != "volatility.pivot_classic."@[11]);
        reveal_strlit("volatility.pivot_fib.");
        assert("volatility.pivot_fib."@.len() == 21);
        assert("volatility.keltner_lower_20"@.subrange(0, 21)[11] != "volatility.pivot_fib."@[11]);
        assert("volatility.keltner_lower_20"@.len() == 27);
        reveal_strlit("volatility.bb_middle_20");
        assert("volatility.bb_middle_20"@.len() == 23);
        reveal_strlit("volatility.bb_upper_20");
        assert("volatility.bb_upper_20"@.len() == 22);
        reveal_strlit("volatility.bb_lower_20");
        assert("volatility.bb_lower_20"@.len() == 22);
        reveal_strlit("volatility.bb_pct_b_20");
        assert("volatility.bb_pct_b_20"@.len() == 22);
        reveal_strlit("volatility.bb_bandwidth_20");
        assert("volatility.bb_bandwidth_20"@.len() == 26);
        reveal_strlit("volatility.keltner_middle_20");
        assert("volatility.keltner_middle_20"@.len() == 28);
        reveal_strlit("volatility.keltner_upper_20");
        assert("volatility.keltner_lower_20"@[19] != "volatility.keltner_upper_20"@[19]);
    }
    assert(snapshot_warmup_bars("volatility.donchian_upper_20"@, cfg) == Some(20u32)) by {
        reveal_strlit("volatility.donchian_upper_20");
        reveal_strlit("momentum.");
        assert("momentum."@.len() == 9);
        assert("volatility.donchian_upper_20"@.subrange(0, 9)[0] != "momentum."@[0]);
        reveal_strlit("trend.");
        assert("trend."@.len() == 6);
        assert("volatility.donchian_upper_20"@.subrange(0, 6)[0] != "trend."@[0]);
        reveal_strlit("ichimoku.");
        assert("ichimoku."@.len() == 9);
        assert("volatility.donchian_upper_20"@.subrange(0, 9)[0] != "ichimoku."@[0]);
        reveal_strlit("volatility.");
        assert("volatility.donchian_upper_20"@.subrange(0, 11) =~= "volatility."@);
        reveal_strlit("volatility.pivot_classic.");
        assert("volatility.pivot_classic."@.len() == 25);
        assert("volatility.donchian_upper_20"@.subrange(0, 25)[11] != "volatility.pivot_classic."@[11]);
        reveal_strlit("volatility.pivot_fib.");
        assert("volatility.pivot_fib."@.len() == 21);
        assert("volatility.donchian_upper_20"@.subrange(0, 21)[11] != "volatility.pivot_fib."@[11]);
        assert("volatility.donchian_upper_20"@.len() == 28);
        reveal_strlit("volatility.bb_middle_20");
        assert("volatility.bb_middle_20"@.len() == 23);
        reveal_strlit("volatility.bb_upper_20");
        assert("volatility.bb_upper_20"@.len() == 22);
        reveal_strlit("volatility.bb_lower_20");
        assert("volatility.bb_lower_20"@.len() == 22);
        reveal_strlit("volatility.bb_pct_b_20");
        assert("volatility.bb_pct_b_20"@.len() == 22);
        reveal_strlit("volatility.bb_bandwidth_20");
        assert("volatility.bb_bandwidth_20"@.len() == 26);
        reveal_strlit("volatility.keltner_middle_20");
        assert("volatility.donchian_upper_20"@[11] != "volatility.keltner_middle_20"@[11]);
        reveal_strlit("volatility.keltner_upper_20");
        assert("volatility.keltner_upper_20"@.len() == 27);
        reveal_strlit("volatility.keltner_lower_20");
        assert("volatility.keltner_lower_20"@.len() == 27);
    }
    assert(snapshot_warmup_bars("volatility.donchian_lower_20"@, cfg) == Some(20u32)) by {
        reveal_strlit("volatility.donchian_lower_20");
        reveal_strlit("momentum.");
        assert("momentum."@.len() == 9);
        assert("volatility.donchian_lower_20"@.subrange(0, 9)[0] != "momentum."@[0]);
        reveal_strlit("trend.");
        assert("trend."@.len() == 6);
        assert("volatility.donchian_lower_20"@.subrange(0, 6)[0] != "trend."@[0]);
        reveal_strlit("ichimoku.");
        assert("ichimoku."@.len() == 9);
        assert("volatility.donchian_lower_20"@.subrange(0, 9)[0] != "ichimoku."@[0]);
        reveal_strlit("volatility.");
        assert("volatility.donchian_lower_20"@.subrange(0, 11) =~= "volatility."@);
        reveal_strlit("volatility.pivot_classic.");
        assert("volatility.pivot_classic."@.len() == 25);
        assert("volatility.donchian_lower_20"@.subrange(0, 25)[11] != "volatility.pivot_classic."@[11]);
        reveal_strlit("volatility.pivot_fib.");
        assert("volatility.pivot_fib."@.len() == 21);
        assert("volatility.donchian_lower_20"@.subrange(0, 21)[11] != "volatility.pivot_fib."@[11]);
        assert("volatility.donchian_lower_20"@.len() == 28);
        reveal_strlit("volatility.bb_middle_20");
        assert("volatility.bb_middle_20"@.len() == 23);
        reveal_strlit("volatility.bb_upper_20");
        assert("volatility.bb_upper_20"@.len() == 22);
        reveal_strlit("volatility.bb_lower_20");
        assert("volatility.bb_lower_20"@.len() == 22);
        reveal_strlit("volatility.bb_pct_b_20");
        assert("volatility.bb_pct_b_20"@.len() == 22);
        reveal_strlit("volatility.bb_bandwidth_20");
        assert("volatility.bb_bandwidth_20"@.len() == 26);
        reveal_strlit("volatility.keltner_middle_20");
        assert("volatility.donchian_lower_20"@[11] != "volatility.keltner_middle_20"@[11]);
        reveal_strlit("volatility.keltner_upper_20");
        assert("volatility.keltner_upper_20"@.len() == 27);
        reveal_strlit("volatility.keltner_lower_20");
        assert("volatility.keltner_lower_20"@.len() == 27);
        reveal_strlit("volatility.donchian_upper_20");
        assert("volatility.donchian_lower_20"@[20] != "volatility.donchian_upper_20"@[20]);
    }
    assert(snapshot_warmup_bars("volatility.donchian_mid_20"@, cfg) == Some(20u32)) by {
        reveal_strlit("volatility.donchian_mid_20");
        reveal_strlit("momentum.");
        assert("momentum."@.len() == 9);
        assert("volatility.donchian_mid_20"@.subrange(0, 9)[0] != "momentum."@[0]);
        reveal_strlit("trend.");
        assert("trend."@.len() == 6);
        assert("volatility.donchian_mid_20"@.subrange(0, 6)[0] != "trend."@[0]);
        reveal_strlit("ichimoku.");
        assert("ichimoku."@.len() == 9);
        assert("volatility.donchian_mid_20"@.subrange(0, 9)[0] != "ichimoku."@[0]);
        reveal_strlit("volatility.");
        assert("volatility.donchian_mid_20"@.subrange(0, 11) =~= "volatility."@);
        reveal_strlit("volatility.pivot_classic.");
        assert("volatility.pivot_classic."@.len() == 25);
        assert("volatility.donchian_mid_20"@.subrange(0, 25)[11] != "volatility.pivot_classic."@[11]);
        reveal_strlit("volatility.pivot_fib.");
        assert("volatility.pivot_fib."@.len() == 21);
        assert("volatility.donchian_mid_20"@.subrange(0, 21)[11] != "volatility.pivot_fib."@[11]);
        assert("volatility.donchian_mid_20"@.len() == 26);
        reveal_strlit("volatility.bb_middle_20");
        assert("volatility.bb_middle_20"@.len() == 23);
        reveal_strlit("volatility.bb_upper_20");
        assert("volatility.bb_upper_20"@.len() == 22);
        reveal_strlit("volatility.bb_lower_20");
        assert("volatility.bb_lower_20"@.len() == 22);
        reveal_strlit("volatility.bb_pct_b_20");
        assert("volatility.bb_pct_b_20"@.len() == 22);
        reveal_strlit("volatility.bb_bandwidth_20");
        assert("volatility.donchian_mid_20"@[11] != "volatility.bb_bandwidth_20"@[11]);
        reveal_strlit("volatility.keltner_middle_20");
        assert("volatility.keltner_middle_20"@.len() == 28);
        reveal_strlit("volatility.keltner_upper_20");
        assert("volatility.keltner_upper_20"@.len() == 27);
        reveal_strlit("volatility.keltner_lower_20");
        assert("volatility.keltner_lower_20"@.len() == 27);
        reveal_strlit("volatility.donchian_upper_20");
        assert("volatility.donchian_upper_20"@.len() == 28);
        reveal_strlit("volatility.donchian_lower_20");
        assert("volatility.donchian_lower_20"@.len() == 28);
    }
    assert(snapshot_warmup_bars("volatility.supertrend_10_3"@, cfg) == Some(12u32)) by {
        reveal_strlit("volatility.supertrend_10_3");
        reveal_strlit("momentum.");
        assert("momentum."@.len() == 9);
        assert("volatility.supertrend_10_3"@.subrange(0, 9)[0] != "momentum."@[0]);
        reveal_strlit("trend.");
        assert("trend."@.len() == 6);
        assert("volatility.supertrend_10_3"@.subrange(0, 6)[0] != "trend."@[0]);
        reveal_strlit("ichimoku.");
        assert("ichimoku."@.len() == 9);
        assert("volatility.supertrend_10_3"@.subrange(0, 9)[0] != "ichimoku."@[0]);
        reveal_strlit("volatility.");
        assert("volatility.supertrend_10_3"@.subrange(0, 11) =~= "volatility."@);
        reveal_strlit("volatility.pivot_classic.");
        assert("volatility.pivot_classic."@.len() == 25);
        assert("volatility.supertrend_10_3"@.subrange(0, 25)[11] != "volatility.pivot_classic."@[11]);
        reveal_strlit("volatility.pivot_fib.");
        assert("volatility.pivot_fib."@.len() == 21);
        assert("volatility.supertrend_10_3"@.subrange(0, 21)[11] != "volatility.pivot_fib."@[11]);
        assert("volatility.supertrend_10_3"@.len() == 26);
        reveal_strlit("volatility.bb_middle_20");
        assert("volatility.bb_middle_20"@.len() == 23);
        reveal_strlit("volatility.bb_upper_20");
        assert("volatility.bb_upper_20"@.len() == 22);
        reveal_strlit("volatility.bb_lower_20");
        assert("volatility.bb_lower_20"@.len() == 22);
        reveal_strlit("volatility.bb_pct_b_20");
        assert("volatility.bb_pct_b_20"@.len() == 22);
        reveal_strlit("volatility.bb_bandwidth_20");
        assert("volatility.supertrend_10_3"@[11] != "volatility.bb_bandwidth_20"@[11]);
        reveal_strlit("volatility.keltner_middle_20");
        assert("volatility.keltner_middle_20"@.len() == 28);
        reveal_strlit("volatility.keltner_upper_20");
        assert("volatility.keltner_upper_20"@.len() == 27);
        reveal_strlit("volatility.keltner_lower_20");
        assert("volatility.keltner_lower_20"@.len() == 27);
        reveal_strlit("volatility.donchian_upper_20");
        assert("volatility.donchian_upper_20"@.len() == 28);
        reveal_strlit("volatility.donchian_lower_20");
        assert("volatility.donchian_lower_20"@.len() == 28);
        reveal_strlit("volatility.donchian_mid_20");
        assert("volatility.supertrend_10_3"@[11] != "volatility.donchian_mid_20"@[11]);
    }
}

/// Warm-up rows of volatility leaves (part 3).
proof fn lemma_volatility_leaves_3(cfg: WarmupConfig)
    ensures
        snapshot_warmup_bars("volatility.supertrend_long"@, cfg) == Some(12u32),
        snapshot_warmup_bars("volatility.mass_index_25"@, cfg) == Some(26u32),
        snapshot_warmup_bars("volatility.ttm_squeeze_on"@, cfg) == Some(20u32),
        snapshot_warmup_bars("volatility.ttm_squeeze_momentum"@, cfg) == Some(20u32),
{
    assert(snapshot_warmup_bars("volatility.supertrend_long"@, cfg) == Some(12u32)) by {
        reveal_strlit("volatility.supertrend_long");
        reveal_strlit("momentum.");
        assert("momentum."@.len() == 9);
        assert("volatility.supertrend_long"@.subrange(0, 9)[0] != "momentum."@[0]);
        reveal_strlit("trend.");
        assert("trend."@.len() == 6);
        assert("volatility.supertrend_long"@.subrange(0, 6)[0] != "trend."@[0]);
        reveal_strlit("ichimoku.");
        assert("ichimoku."@.len() == 9);
        assert("volatility.supertrend_long"@.subrange(0, 9)[0] != "ichimoku."@[0]);
        reveal_strlit("volatility.");
        assert("volatility.supertrend_long"@.subrange(0, 11) =~= "volatility."@);
        reveal_strlit("volatility.pivot_classic.");
        assert("volatility.pivot_classic."@.len() == 25);
        assert("volatility.supertrend_long"@.subrange(0, 25)[11] != "volatility.pivot_classic."@[11]);
        reveal_strlit("volatility.pivot_fib.");
        assert("volatility.pivot_fib."@.len() == 21);
        assert("volatility.supertrend_long"@.subrange(0, 21)[11] != "volatility.pivot_fib."@[11]);
        assert("volatility.supertrend_long"@.len() == 26);
        reveal_strlit("volatility.bb_middle_20");
        assert("volatility.bb_middle_20"@.len() == 23);
        reveal_strlit("volatility.bb_upper_20");
        assert("volatility.bb_upper_20"@.len() == 22);
        reveal_strlit("volatility.bb_lower_20");
        assert("volatility.bb_lower_20"@.len() == 22);
        reveal_strlit("volatility.bb_pct_b_20");
        assert("volatility.bb_pct_b_20"@.len() == 22);
        reveal_strlit("volatility.bb_bandwidth_20");
        assert("volatility.supertrend_long"@[11] != "volatility.bb_bandwidth_20"@[11]);
        reveal_strlit("volatility.keltner_middle_20");
        assert("volatility.keltner_middle_20"@.len() == 28);
        reveal_strlit("volatility.keltner_upper_20");
        assert("volatility.keltner_upper_20"@.len() == 27);
        reveal_strlit("volatility.keltner_lower_20");
        assert("volatility.keltner_lower_20"@.len() == 27);
        reveal_strlit("volatility.donchian_upper_20");
        assert("volatility.donchian_upper_20"@.len() == 28);
        reveal_strlit("volatility.donchian_lower_20");
        assert("volatility.donchian_lower_20"@.len() == 28);
        reveal_strlit("volatility.donchian_mid_20");
        assert("volatility.supertrend_long"@[11] != "volatility.donchian_mid_20"@[11]);
        reveal_strlit("volatility.supertrend_10_3");
        assert("volatility.supertrend_long"@[22] != "volatility.supertrend_10_3"@[22]);
    }
    assert(snapshot_warmup_bars("volatility.mass_index_25"@, cfg) == Some(26u32)) by {
        reveal_strlit("volatility.mass_index_25");
        reveal_strlit("momentum.");
        assert("momentum."@.len() == 9);
        assert("volatility.mass_index_25"@.subrange(0, 9)[0] != "momentum."@[0]);
        reveal_strlit("trend.");
        assert("trend."@.len() == 6);
        assert("volatility.mass_index_25"@.subrange(0, 6)[0] != "trend."@[0]);
        reveal_strlit("ichimoku.");
        assert("ichimoku."@.len() == 9);
        assert("volatility.mass_index_25"@.subrange(0, 9)[0] != "ichimoku."@[0]);
        reveal_strlit("volatility.");
        assert("volatility.mass_index_25"@.subrange(0, 11) =~= "volatility."@);
        reveal_strlit("volatility.pivot_classic.");
        assert("volatility.pivot_classic."@.len() == 25);
        reveal_strlit("volatility.pivot_fib.");
        assert("volatility.pivot_fib."@.len() == 21);
        assert("volatility.mass_index_25"@.subrange(0, 21)[11] != "volatility.pivot_fib."@[11]);
        assert("volatility.mass_index_25"@.len() == 24);
        reveal_strlit("volatility.bb_middle_20");
        assert("volatility.bb_middle_20"@.len() == 23);
        reveal_strlit("volatility.bb_upper_20");
        assert("volatility.bb_upper_20"@.len() == 22);
        reveal_strlit("volatility.bb_lower_20");
        assert("volatility.bb_lower_20"@.len() == 22);
        reveal_strlit("volatility.bb_pct_b_20");
        assert("volatility.bb_pct_b_20"@.len() == 22);
        reveal_strlit("volatility.bb_bandwidth_20");
        assert("volatility.bb_bandwidth_20"@.len() == 26);
        reveal_strlit("volatility.keltner_middle_20");
        assert("volatility.keltner_middle_20"@.len() == 28);
        reveal_strlit("volatility.keltner_upper_20");
        assert("volatility.keltner_upper_20"@.len() == 27);
        reveal_strlit("volatility.keltner_lower_20");
        assert("volatility.keltner_lower_20"@.len() == 27);
        reveal_strlit("volatility.donchian_upper_20");
        assert("volatility.donchian_upper_20"@.len() == 28);
        reveal_strlit("volatility.donchian_lower_20");
        assert("volatility.donchian_lower_20"@.len() == 28);
        reveal_strlit("volatility.donchian_mid_20");
        assert("volatility.donchian_mid_20"@.len() == 26);
        reveal_strlit("volatility.supertrend_10_3");
        assert("volatility.supertrend_10_3"@.len() == 26);
        reveal_strlit("volatility.supertrend_long");
        assert("volatility.supertrend_long"@.len() == 26);
    }
    assert(snapshot_warmup_bars("volatility.ttm_squeeze_on"@, cfg) == Some(20u32)) by {
        reveal_strlit("volatility.ttm_squeeze_on");
        reveal_strlit("momentum.");
        assert("momentum."@.len() == 9);
        assert("volatility.ttm_squeeze_on"@.subrange(0, 9)[0] != "momentum."@[0]);
        reveal_strlit("trend.");
        assert("trend."@.len() == 6);
        assert("volatility.ttm_squeeze_on"@.subrange(0, 6)[0] != "trend."@[0]);
        reveal_strlit("ichimoku.");
        assert("ichimoku."@.len() == 9);
        assert("volatility.ttm_squeeze_on"@.subrange(0, 9)[0] != "ichimoku."@[0]);
        reveal_strlit("volatility.");
        assert("volatility.ttm_squeeze_on"@.subrange(0, 11) =~= "volatility."@);
        reveal_strlit("volatility.pivot_classic.");
        assert("volatility.pivot_classic."@.len() == 25);
        assert("volatility.ttm_squeeze_on"@.subrange(0, 25)[11] != "volatility.pivot_classic."@[11]);
        reveal_strlit("volatility.pivot_fib.");
        assert("volatility.pivot_fib."@.len() == 21);
        assert("volatility.ttm_squeeze_on"@.subrange(0, 21)[11] != "volatility.pivot_fib."@[11]);
        assert("volatility.ttm_squeeze_on"@.len() == 25);
        reveal_strlit("volatility.bb_middle_20");
        assert("volatility.bb_middle_20"@.len() == 23);
        reveal_strlit("volatility.bb_upper_20");
        assert("volatility.bb_upper_20"@.len() == 22);
        reveal_strlit("volatility.bb_lower_20");
        assert("volatility.bb_lower_20"@.len() == 22);
        reveal_strlit("volatility.bb_pct_b_20");
        assert("volatility.bb_pct_b_20"@.len() == 22);
        reveal_strlit("volatility.bb_bandwidth_20");
        assert("volatility.bb_bandwidth_20"@.len() == 26);
        reveal_strlit("volatility.keltner_middle_20");
        assert("volatility.keltner_middle_20"@.len() == 28);
        reveal_strlit("volatility.keltner_upper_20");
        assert("volatility.keltner_upper_20"@.len() == 27);
        reveal_strlit("volatility.keltner_lower_20");
        assert("volatility.keltner_lower_20"@.len() == 27);
        reveal_strlit("volatility.donchian_upper_20");
        assert("volatility.donchian_upper_20"@.len() == 28);
        reveal_strlit("volatility.donchian_lower_20");
        assert("volatility.donchian_lower_20"@.len() == 28);
        reveal_strlit("volatility.donchian_mid_20");
        assert("volatility.donchian_mid_20"@.len() == 26);
        reveal_strlit("volatility.supertrend_10_3");
        assert("volatility.supertrend_10_3"@.len() == 26);
        reveal_strlit("volatility.supertrend_long");
        assert("volatility.supertrend_long"@.len() == 26);
        reveal_strlit("volatility.mass_index_25");
        assert("volatility.mass_index_25"@.len() == 24);
    }
    assert(snapshot_warmup_bars("volatility.ttm_squeeze_momentum"@, cfg) == Some(20u32)) by {
        reveal_strlit("volatility.ttm_squeeze_momentum");
        reveal_strlit("momentum.");
        assert("momentum."@.len() == 9);
        assert("volatility.ttm_squeeze_momentum"@.subrange(0, 9)[0] != "momentum."@[0]);
        reveal_strlit("trend.");
        assert("trend."@.len() == 6);
        assert("volatility.ttm_squeeze_momentum"@.subrange(0, 6)[0] != "trend."@[0]);
        reveal_strlit("ichimoku.");
        assert("ichimoku."@.len() == 9);
        assert("volatility.ttm_squeeze_momentum"@.subrange(0, 9)[0] != "ichimoku."@[0]);
        reveal_strlit("volatility.");
        assert("volatility.ttm_squeeze_momentum"@.subrange(0, 11) =~= "volatility."@);
        reveal_strlit("volatility.pivot_classic.");
        assert("volatility.pivot_classic."@.len() == 25);
        assert("volatility.ttm_squeeze_momentum"@.subrange(0, 25)[11] != "volatility.pivot_classic."@[11]);
        reveal_strlit("volatility.pivot_fib.");
        assert("volatility.pivot_fib."@.len() == 21);
        assert("volatility.ttm_squeeze_momentum"@.subrange(0, 21)[11] != "volatility.pivot_fib."@[11]);
        assert("volatility.ttm_squeeze_momentum"@.len() == 31);
        reveal_strlit("volatility.bb_middle_20");
        assert("volatility.bb_middle_20"@.len() == 23);
        reveal_strlit("volatility.bb_upper_20");
        assert("volatility.bb_upper_20"@.len() == 22);
        reveal_strlit("volatility.bb_lower_20");
        assert("volatility.bb_lower_20"@.len() == 22);
        reveal_strlit("volatility.bb_pct_b_20");
        assert("volatility.bb_pct_b_20"@.len() == 22);
        reveal_strlit("volatility.bb_bandwidth_20");
        assert("volatility.bb_bandwidth_20"@.len() == 26);
        reveal_strlit("volatility.keltner_middle_20");
        assert("volatility.keltner_middle_20"@.len() == 28);
        reveal_strlit("volatility.keltner_upper_20");
        assert("volatility.keltner_upper_20"@.len() == 27);
        reveal_strlit("volatility.keltner_lower_20");
        assert("volatility.keltner_lower_20"@.len() == 27);
        reveal_strlit("volatility.donchian_upper_20");
        assert("volatility.donchian_upper_20"@.len() == 28);
        reveal_strlit("volatility.donchian_lower_20");
        assert("volatility.donchian_lower_20"@.len() == 28);
        reveal_strlit("volatility.donchian_mid_20");
        assert("volatility.donchian_mid_20"@.len() == 26);
        reveal_strlit("volatility.supertrend_10_3");
        assert("volatility.supertrend_10_3"@.len() == 26);
        reveal_strlit("volatility.supertrend_long");
        assert("volatility.supertrend_long"@.len() == 26);
        reveal_strlit("volatility.mass_index_25");
        assert("volatility.mass_index_25"@.len() == 24);
        reveal_strlit("volatility.ttm_squeeze_on");
        assert("volatility.ttm_squeeze_on"@.len() == 25);
    }
}

/// The volatility leaves of the indicator snapshot and their warm-up rows.
pub proof fn lemma_volatility_leaf_table(cfg: WarmupConfig)
    ensures
        snapshot_warmup_bars("volatility.bb_middle_20"@, cfg) == Some(20u32),
        snapshot_warmup_bars("volatility.bb_upper_20"@, cfg) == Some(20u32),
        snapshot_warmup_bars("volatility.bb_lower_20"@, cfg) == Some(20u32),
        snapshot_warmup_bars("volatility.bb_pct_b_20"@, cfg) == Some(20u32),
        snapshot_warmup_bars("volatility.bb_bandwidth_20"@, cfg) == Some(20u32),
        snapshot_warmup_bars("volatility.keltner_middle_20"@, cfg) == Some(21u32),
        snapshot_warmup_bars("volatility.keltner_upper_20"@, cfg) == Some(21u32),
        snapshot_warmup_bars("volatility.keltner_lower_20"@, cfg) == Some(21u32),
        snapshot_warmup_bars("volatility.donchian_upper_20"@, cfg) == Some(20u32),
        snapshot_warmup_bars("volatility.donchian_lower_20"@, cfg) == Some(20u32),
        snapshot_warmup_bars("volatility.donchian_mid_20"@, cfg) == Some(20u32),
        snapshot_warmup_bars("volatility.supertrend_10_3"@, cfg) == Some(12u32),
        snapshot_warmup_bars("volatility.supertrend_long"@, cfg) == Some(12u32),
        snapshot_warmup_bars("volatility.mass_index_25"@, cfg) == Some(26u32),
        snapshot_warmup_bars("volatility.ttm_squeeze_on"@, cfg) == Some(20u32),
        snapshot_warmup_bars("volatility.ttm_squeeze_momentum"@, cfg) == Some(20u32),
{
    lemma_volatility_leaves_1(cfg);
    lemma_volatility_leaves_2(cfg);
    lemma_volatility_leaves_3(cfg);
}

/// Every named volatility leaf has a warm-up.
proof fn lemma_volatility_leaves_have_warmup(rest: Seq<char>, cfg: WarmupConfig)
    ensures
        is_volatility_leaf(rest) ==> snapshot_warmup_bars(rest, cfg) is Some,
{
    lemma_volatility_leaf_table(cfg);
}

/// Warm-up rows of directional leaves (part 1).
proof fn lemma_directional_leaves_1(cfg: WarmupConfig)
    ensures
        snapshot_warmup_bars("directional.adx_14"@, cfg) == Some(15u32),
        snapshot_warmup_bars("directional.di_plus"@, cfg) == Some(15u32),
        snapshot_warmup_bars("directional.di_minus"@, cfg) == Some(15u32),
        snapshot_warmup_bars("directional.aroon_up_25"@, cfg) == Some(25u32),
        snapshot_warmup_bars("directional.aroon_down_25"@, cfg) == Some(25u32),
        snapshot_warmup_bars("directional.psar"@, cfg) == Some(10u32),
{
    assert(snapshot_warmup_bars("directional.adx_14"@, cfg) == Some(15u32)) by {
        reveal_strlit("directional.adx_14");
        reveal_strlit("momentum.");
        assert("momentum."@.len() == 9);
        assert("directional.adx_14"@.subrange(0, 9)[0] != "momentum."@[0]);
        reveal_strlit("trend.");
        assert("trend."@.len() == 6);
        assert("directional.adx_14"@.subrange(0, 6)[0] != "trend."@[0]);
        reveal_strlit("ichimoku.");
        assert("ichimoku."@.len() == 9);
        assert("directional.adx_14"@.subrange(0, 9)[0] != "ichimoku."@[0]);
        reveal_strlit("volatility.");
        assert("volatility."@.len() == 11);
        assert("directional.adx_14"@.subrange(0, 11)[0] != "volatility."@[0]);
        reveal_strlit("directional.");
        assert("directional.adx_14"@.subrange(0, 12) =~= "directional."@);
        assert("directional.adx_14"@.len() == 18);
    }
    assert(snapshot_warmup_bars("directional.di_plus"@, cfg) == Some(15u32)) by {
        reveal_strlit("directional.di_plus");
        reveal_strlit("momentum.");
        assert("momentum."@.len() == 9);
        assert("directional.di_plus"@.subrange(0, 9)[0] != "momentum."@[0]);
        reveal_strlit("trend.");
        assert("trend."@.len() == 6);
        assert("directional.di_plus"@.subrange(0, 6)[0] != "trend."@[0]);
        reveal_strlit("ichimoku.");
        assert("ichimoku."@.len() == 9);
        assert("directional.di_plus"@.subrange(0, 9)[0] != "ichimoku."@[0]);
        reveal_strlit("volatility.");
        assert("volatility."@.len() == 11);
        assert("directional.di_plus"@.subrange(0, 11)[0] != "volatility."@[0]);
        reveal_strlit("directional.");
        assert("directional.di_plus"@.subrange(0, 12) =~= "directional."@);
        assert("directional.di_plus"@.len() == 19);
        reveal_strlit("directional.adx_14");
        assert("directional.adx_14"@.len() == 18);
    }
    assert(snapshot_warmup_bars("directional.di_minus"@, cfg) == Some(15u32)) by {
        reveal_strlit("directional.di_minus");
        reveal_strlit("momentum.");
        assert("momentum."@.len() == 9);
        assert("directional.di_minus"@.subrange(0, 9)[0] != "momentum."@[0]);
        reveal_strlit("trend.");
        assert("trend."@.len() == 6);
        assert("directional.di_minus"@.subrange(0, 6)[0] != "trend."@[0]);
        reveal_strlit("ichimoku.");
        assert("ichimoku."@.len() == 9);
        assert("directional.di_minus"@.subrange(0, 9)[0] != "ichimoku."@[0]);
        reveal_strlit("volatility.");
        assert("volatility."@.len() == 11);
        assert("directional.di_minus"@.subrange(0, 11)[0] != "volatility."@[0]);
        reveal_strlit("directional.");
        assert("directional.di_minus"@.subrange(0, 12) =~= "directional."@);
        assert("directional.di_minus"@.len() == 20);
        reveal_strlit("directional.adx_14");
        assert("directional.adx_14"@.len() == 18);
        reveal_strlit("directional.di_plus");
        assert("directional.di_plus"@.len() == 19);
    }
    assert(snapshot_warmup_bars("directional.aroon_up_25"@, cfg) == Some(25u32)) by {
        reveal_strlit("directional.aroon_up_25");
        reveal_strlit("momentum.");
        assert("momentum."@.len() == 9);
        assert("directional.aroon_up_25"@.subrange(0, 9)[0] != "momentum."@[0]);
        reveal_strlit("trend.");
        assert("trend."@.len() == 6);
        assert("directional.aroon_up_25"@.subrange(0, 6)[0] != "trend."@[0]);
        reveal_strlit("ichimoku.");
        assert("ichimoku."@.len() == 9);
        assert("directional.aroon_up_25"@.subrange(0, 9)[0] != "ichimoku."@[0]);
        reveal_strlit("volatility.");
        assert("volatility."@.len() == 11);
        assert("directional.aroon_up_25"@.subrange(0, 11)[0] != "volatility."@[0]);
        reveal_strlit("directional.");
        assert("directional.aroon_up_25"@.subrange(0, 12) =~= "directional."@);
        assert("directional.aroon_up_25"@.len() == 23);
        reveal_strlit("directional.adx_14");
        assert("directional.adx_14"@.len() == 18);
        reveal_strlit("directional.di_plus");
        assert("directional.di_plus"@.len() == 19);
        reveal_strlit("directional.di_minus");
        assert("directional.di_minus"@.len() == 20);
    }
    assert(snapshot_warmup_bars("directional.aroon_down_25"@, cfg) == Some(25u32)) by {
        reveal_strlit("directional.aroon_down_25");
        reveal_strlit("momentum.");
        assert("momentum."@.len() == 9);
        assert("directional.aroon_down_25"@.subrange(0, 9)[0] != "momentum."@[0]);
        reveal_strlit("trend.");
        assert("trend."@.len() == 6);
        assert("directional.aroon_down_25"@.subrange(0, 6)[0] != "trend."@[0]);
        reveal_strlit("ichimoku.");
        assert("ichimoku."@.len() == 9);
        assert("directional.aroon_down_25"@.subrange(0, 9)[0] != "ichimoku."@[0]);
        reveal_strlit("volatility.");
        assert("volatility."@.len() == 11);
        assert("directional.aroon_down_25"@.subrange(0, 11)[0] != "volatility."@[0]);
        reveal_strlit("directional.");
        assert("directional.aroon_down_25"@.subrange(0, 12) =~= "directional."@);
        assert("directional.aroon_down_25"@.len() == 25);
        reveal_strlit("directional.adx_14");
        assert("directional.adx_14"@.len() == 18);
        reveal_strlit("directional.di_plus");
        assert("directional.di_plus"@.len() == 19);
        reveal_strlit("directional.di_minus");
        assert("directional.di_minus"@.len() == 20);
        reveal_strlit("directional.aroon_up_25");
        assert("directional.aroon_up_25"@.len() == 23);
    }
    assert(snapshot_warmup_bars("directional.psar"@, cfg) == Some(10u32)) by {
        reveal_strlit("directional.psar");
        reveal_strlit("momentum.");
        assert("momentum."@.len() == 9);
        assert("directional.psar"@.subrange(0, 9)[0] != "momentum."@[0]);
        reveal_strlit("trend.");
        assert("trend."@.len() == 6);
        assert("directional.psar"@.subrange(0, 6)[0] != "trend."@[0]);
        reveal_strlit("ichimoku.");
        assert("ichimoku."@.len() == 9);
        assert("directional.psar"@.subrange(0, 9)[0] != "ichimoku."@[0]);
        reveal_strlit("volatility.");
        assert("volatility."@.len() == 11);
        assert("directional.psar"@.subrange(0, 11)[0] != "volatility."@[0]);
        reveal_strlit("directional.");
        assert("directional.psar"@.subrange(0, 12) =~= "directional."@);
        assert("directional.psar"@.len() == 16);
        reveal_strlit("directional.adx_14");
        assert("directional.adx_14"@.len() == 18);
        reveal_strlit("directional.di_plus");
        assert("directional.di_plus"@.len() == 19);
        reveal_strlit("directional.di_minus");
        assert("directional.di_minus"@.len() == 20);
        reveal_strlit("directional.aroon_up_25");
        assert("directional.aroon_up_25"@.len() == 23);
        reveal_strlit("directional.aroon_down_25");
        assert("directional.aroon_down_25"@.len() == 25);
    }
}

/// Warm-up rows of directional leaves (part 2).
proof fn lemma_directional_leaves_2(cfg: WarmupConfig)
    ensures
        snapshot_warmup_bars("directional.psar_trend_long"@, cfg) == Some(10u32),
        snapshot_warmup_bars("directional.vortex_vi_plus_14"@, cfg) == Some(15u32),
        snapshot_warmup_bars("directional.vortex_vi_minus_14"@, cfg) == Some(15u32),
{
    assert(snapshot_warmup_bars("directional.psar_trend_long"@, cfg) == Some(10u32)) by {
        reveal_strlit("directional.psar_trend_long");
        reveal_strlit("momentum.");
        assert("momentum."@.len() == 9);
        assert("directional.psar_trend_long"@.subrange(0, 9)[0] != "momentum."@[0]);
        reveal_strlit("trend.");
        assert("trend."@.len() == 6);
        assert("directional.psar_trend_long"@.subrange(0, 6)[0] != "trend."@[0]);
        reveal_strlit("ichimoku.");
        assert("ichimoku."@.len() == 9);
        assert("directional.psar_trend_long"@.subrange(0, 9)[0] != "ichimoku."@[0]);
        reveal_strlit("volatility.");
        assert("volatility."@.len() == 11);
        assert("directional.psar_trend_long"@.subrange(0, 11)[0] != "volatility."@[0]);
        reveal_strlit("directional.");
        assert("directional.psar_trend_long"@.subrange(0, 12) =~= "directional."@);
        assert("directional.psar_trend_long"@.len() == 27);
        reveal_strlit("directional.adx_14");
        assert("directional.adx_14"@.len() == 18);
        reveal_strlit("directional.di_plus");
        assert("directional.di_plus"@.len() == 19);
        reveal_strlit("directional.di_minus");
        assert("directional.di_minus"@.len() == 20);
        reveal_strlit("directional.aroon_up_25");
        assert("directional.aroon_up_25"@.len() == 23);
        reveal_strlit("directional.aroon_down_25");
        assert("directional.aroon_down_25"@.len() == 25);
        reveal_strlit("directional.psar");
        assert("directional.psar"@.len() == 16);
    }
    assert(snapshot_warmup_bars("directional.vortex_vi_plus_14"@, cfg) == Some(15u32)) by {
        reveal_strlit("directional.vortex_vi_plus_14");
        reveal_strlit("momentum.");
        assert("momentum."@.len() == 9);
        assert("directional.vortex_vi_plus_14"@.subrange(0, 9)[0] != "momentum."@[0]);
        reveal_strlit("trend.");
        assert("trend."@.len() == 6);
        assert("directional.vortex_vi_plus_14"@.subrange(0, 6)[0] != "trend."@[0]);
        reveal_strlit("ichimoku.");
        assert("ichimoku."@.len() == 9);
        assert("directional.vortex_vi_plus_14"@.subrange(0, 9)[0] != "ichimoku."@[0]);
        reveal_strlit("volatility.");
        assert("volatility."@.len() == 11);
        assert("directional.vortex_vi_plus_14"@.subrange(0, 11)[0] != "volatility."@[0]);
        reveal_strlit("directional.");
        assert("directional.vortex_vi_plus_14"@.subrange(0, 12) =~= "directional."@);
        assert("directional.vortex_vi_plus_14"@.len() == 29);
        reveal_strlit("directional.adx_14");
        assert("directional.adx_14"@.len() == 18);
        reveal_strlit("directional.di_plus");
        assert("directional.di_plus"@.len() == 19);
        reveal_strlit("directional.di_minus");
        assert("directional.di_minus"@.len() == 20);
        reveal_strlit("directional.aroon_up_25");
        assert("directional.aroon_up_25"@.len() == 23);
        reveal_strlit("directional.aroon_down_25");
        assert("directional.aroon_down_25"@.len() == 25);
        reveal_strlit("directional.psar");
        assert("directional.psar"@.len() == 16);
        reveal_strlit("directional.psar_trend_long");
        assert("directional.psar_trend_long"@.len() == 27);
    }
    assert(snapshot_warmup_bars("directional.vortex_vi_minus_14"@, cfg) == Some(15u32)) by {
        reveal_strlit("directional.vortex_vi_minus_14");
        reveal_strlit("momentum.");
        assert("momentum."@.len() == 9);
        assert("directional.vortex_vi_minus_14"@.subrange(0, 9)[0] != "momentum."@[0]);
        reveal_strlit("trend.");
        assert("trend."@.len() == 6);
        assert("directional.vortex_vi_minus_14"@.subrange(0, 6)[0] != "trend."@[0]);
        reveal_strlit("ichimoku.");
        assert("ichimoku."@.len() == 9);
        assert("directional.vortex_vi_minus_14"@.subrange(0, 9)[0] != "ichimoku."@[0]);
        reveal_strlit("volatility.");
        assert("volatility."@.len() == 11);
        assert("directional.vortex_vi_minus_14"@.subrange(0, 11)[0] != "volatility."@[0]);
        reveal_strlit("directional.");
        assert("directional.vortex_vi_minus_14"@.subrange(0, 12) =~= "directional."@);
        assert("directional.vortex_vi_minus_14"@.len() == 30);
        reveal_strlit("directional.adx_14");
        assert("directional.adx_14"@.len() == 18);
        reveal_strlit("directional.di_plus");
        assert("directional.di_plus"@.len() == 19);
        reveal_strlit("directional.di_minus");
        assert("directional.di_minus"@.len() == 20);
        reveal_strlit("directional.aroon_up_25");
        assert("directional.aroon_up_25"@.len() == 23);
        reveal_strlit("directional.aroon_down_25");
        assert("directional.aroon_down_25"@.len() == 25);
        reveal_strlit("directional.psar");
        assert("directional.psar"@.len() == 16);
        reveal_strlit("directional.psar_trend_long");
        assert("directional.psar_trend_long"@.len() == 27);
        reveal_strlit("directional.vortex_vi_plus_14");
        assert("directional.vortex_vi_plus_14"@.len() == 29);
    }
}

/// The directional leaves of the indicator snapshot and their warm-up rows.
pub proof fn lemma_directional_leaf_table(cfg: WarmupConfig)
    ensures
        snapshot_warmup_bars("directional.adx_14"@, cfg) == Some(15u32),
        snapshot_warmup_bars("directional.di_plus"@, cfg) == Some(15u32),
        snapshot_warmup_bars("directional.di_minus"@, cfg) == Some(15u32),
        snapshot_warmup_bars("directional.aroon_up_25"@, cfg) == Some(25u32),
        snapshot_warmup_bars("directional.aroon_down_25"@, cfg) == Some(25u32),
        snapshot_warmup_bars("directional.psar"@, cfg) == Some(10u32),
        snapshot_warmup_bars("directional.psar_trend_long"@, cfg) == Some(10u32),
        snapshot_warmup_bars("directional.vortex_vi_plus_14"@, cfg) == Some(15u32),
        snapshot_warmup_bars("directional.vortex_vi_minus_14"@, cfg) == Some(15u32),
{
    lemma_directional_leaves_1(cfg);
    lemma_directional_leaves_2(cfg);
}

/// Every named directional leaf has a warm-up.
proof fn lemma_directional_leaves_have_warmup(rest: Seq<char>, cfg: WarmupConfig)
    ensures
        is_directional_leaf(rest) ==> snapshot_warmup_bars(rest, cfg) is Some,
{
    lemma_directional_leaf_table(cfg);
}

/// Warm-up rows of volume leaves (part 1).
proof fn lemma_volume_leaves_1(cfg: WarmupConfig)
    ensures
        snapshot_warmup_bars("volume.obv"@, cfg) == Some(2u32),
        snapshot_warmup_bars("volume.ad_line"@, cfg) == Some(2u32),
        snapshot_warmup_bars("volume.cmf_20"@, cfg) == Some(21u32),
        snapshot_warmup_bars("volume.volume_sma_20"@, cfg) == Some(20u32),
        snapshot_warmup_bars("volume.volume_ema_20"@, cfg) == Some(20u32),
        snapshot_warmup_bars("volume.nvi"@, cfg) == Some(2u32),
{
    assert(snapshot_warmup_bars("volume.obv"@, cfg) == Some(2u32)) by {
        reveal_strlit("volume.obv");
        reveal_strlit("momentum.");
        assert("momentum."@.len() == 9);
        assert("volume.obv"@.subrange(0, 9)[0] != "momentum."@[0]);
        reveal_strlit("trend.");
        assert("trend."@.len() == 6);
        assert("volume.obv"@.subrange(0, 6)[0] != "trend."@[0]);
        reveal_strlit("ichimoku.");
        assert("ichimoku."@.len() == 9);
        assert("volume.obv"@.subrange(0, 9)[0] != "ichimoku."@[0]);
        reveal_strlit("volatility.");
        assert("volatility."@.len() == 11);
        reveal_strlit("directional.");
        assert("directional."@.len() == 12);
        reveal_strlit("volume.");
        assert("volume.obv"@.subrange(0, 7) =~= "volume."@);
        assert("volume.obv"@.len() == 10);
    }
    assert(snapshot_warmup_bars("volume.ad_line"@, cfg) == Some(2u32)) by {
        reveal_strlit("volume.ad_line");
        reveal_strlit("momentum.");
        assert("momentum."@.len() == 9);
        assert("volume.ad_line"@.subrange(0, 9)[0] != "momentum."@[0]);
        reveal_strlit("trend.");
        assert("trend."@.len() == 6);
        assert("volume.ad_line"@.subrange(0, 6)[0] != "trend."@[0]);
        reveal_strlit("ichimoku.");
        assert("ichimoku."@.len() == 9);
        assert("volume.ad_line"@.subrange(0, 9)[0] != "ichimoku."@[0]);
        reveal_strlit("volatility.");
        assert("volatility."@.len() == 11);
        assert("volume.ad_line"@.subrange(0, 11)[3] != "volatility."@[3]);
        reveal_strlit("directional.");
        assert("directional."@.len() == 12);
        assert("volume.ad_line"@.subrange(0, 12)[0] != "directional."@[0]);
        reveal_strlit("volume.");
        assert("volume.ad_line"@.subrange(0, 7) =~= "volume."@);
        assert("volume.ad_line"@.len() == 14);
        reveal_strlit("volume.obv");
        assert("volume.obv"@.len() == 10);
    }
    assert(snapshot_warmup_bars("volume.cmf_20"@, cfg) == Some(21u32)) by {
        reveal_strlit("volume.cmf_20");
        reveal_strlit("momentum.");
        assert("momentum."@.len() == 9);
        assert("volume.cmf_20"@.subrange(0, 9)[0] != "momentum."@[0]);
        reveal_strlit("trend.");
        assert("trend."@.len() == 6);
        assert("volume.cmf_20"@.subrange(0, 6)[0] != "trend."@[0]);
        reveal_strlit("ichimoku.");
        assert("ichimoku."@.len() == 9);
        assert("volume.cmf_20"@.subrange(0, 9)[0] != "ichimoku."@[0]);
        reveal_strlit("volatility.");
        assert("volatility."@.len() == 11);
        assert("volume.cmf_20"@.subrange(0, 11)[3] != "volatility."@[3]);
        reveal_strlit("directional.");
        assert("directional."@.len() == 12);
        assert("volume.cmf_20"@.subrange(0, 12)[0] != "directional."@[0]);
        reveal_strlit("volume.");
        assert("volume.cmf_20"@.subrange(0, 7) =~= "volume."@);
        assert("volume.cmf_20"@.len() == 13);
        reveal_strlit("volume.obv");
        assert("volume.obv"@.len() == 10);
        reveal_strlit("volume.ad_line");
        assert("volume.ad_line"@.len() == 14);
    }
    assert(snapshot_warmup_bars("volume.volume_sma_20"@, cfg) == Some(20u32)) by {
        reveal_strlit("volume.volume_sma_20");
        reveal_strlit("momentum.");
        assert("momentum."@.len() == 9);
        assert("volume.volume_sma_20"@.subrange(0, 9)[0] != "momentum."@[0]);
        reveal_strlit("trend.");
        assert("trend."@.len() == 6);
        assert("volume.volume_sma_20"@.subrange(0, 6)[0] != "trend."@[0]);
        reveal_strlit("ichimoku.");
        assert("ichimoku."@.len() == 9);
        assert("volume.volume_sma_20"@.subrange(0, 9)[0] != "ichimoku."@[0]);
        reveal_strlit("volatility.");
        assert("volatility."@.len() == 11);
        assert("volume.volume_sma_20"@.subrange(0, 11)[3] != "volatility."@[3]);
        reveal_strlit("directional.");
        assert("directional."@.len() == 12);
        assert("volume.volume_sma_20"@.subrange(0, 12)[0] != "directional."@[0]);
        reveal_strlit("volume.");
        assert("volume.volume_sma_20"@.subrange(0, 7) =~= "volume."@);
        assert("volume.volume_sma_20"@.len() == 20);
        reveal_strlit("volume.obv");
        assert("volume.obv"@.len() == 10);
        reveal_strlit("volume.ad_line");
        assert("volume.ad_line"@.len() == 14);
        reveal_strlit("volume.cmf_20");
        assert("volume.cmf_20"@.len() == 13);
    }
    assert(snapshot_warmup_bars("volume.volume_ema_20"@, cfg) == Some(20u32)) by {
        reveal_strlit("volume.volume_ema_20");
        reveal_strlit("momentum.");
        assert("momentum."@.len() == 9);
        assert("volume.volume_ema_20"@.subrange(0, 9)[0] != "momentum."@[0]);
        reveal_strlit("trend.");
        assert("trend."@.len() == 6);
        assert("volume.volume_ema_20"@.subrange(0, 6)[0] != "trend."@[0]);
        reveal_strlit("ichimoku.");
        assert("ichimoku."@.len() == 9);
        assert("volume.volume_ema_20"@.subrange(0, 9)[0] != "ichimoku."@[0]);
        reveal_strlit("volatility.");
        assert("volatility."@.len() == 11);
        assert("volume.volume_ema_20"@.subrange(0, 11)[3] != "volatility."@[3]);
        reveal_strlit("directional.");
        assert("directional."@.len() == 12);
        assert("volume.volume_ema_20"@.subrange(0, 12)[0] != "directional."@[0]);
        reveal_strlit("volume.");
        assert("volume.volume_ema_20"@.subrange(0, 7) =~= "volume."@);
        assert("volume.volume_ema_20"@.len() == 20);
        reveal_strlit("volume.obv");
        assert("volume.obv"@.len() == 10);
        reveal_strlit("volume.ad_line");
        assert("volume.ad_line"@.len() == 14);
        reveal_strlit("volume.cmf_20");
        assert("volume.cmf_20"@.len() == 13);
        reveal_strlit("volume.volume_sma_20");
        assert("volume.volume_ema_20"@[14] != "volume.volume_sma_20"@[14]);
    }
    assert(snapshot_warmup_bars("volume.nvi"@, cfg) == Some(2u32)) by {
        reveal_strlit("volume.nvi");
        reveal_strlit("momentum.");
        assert("momentum."@.len() == 9);
        assert("volume.nvi"@.subrange(0, 9)[0] != "momentum."@[0]);
        reveal_strlit("trend.");
        assert("trend."@.len() == 6);
        assert("volume.nvi"@.subrange(0, 6)[0] != "trend."@[0]);
        reveal_strlit("ichimoku.");
        assert("ichimoku."@.len() == 9);
        assert("volume.nvi"@.subrange(0, 9)[0] != "ichimoku."@[0]);
        reveal_strlit("volatility.");
        assert("volatility."@.len() == 11);
        reveal_strlit("directional.");
        assert("directional."@.len() == 12);
        reveal_strlit("volume.");
        assert("volume.nvi"@.subrange(0, 7) =~= "volume."@);
        assert("volume.nvi"@.len() == 10);
        reveal_strlit("volume.obv");
        assert("volume.nvi"@[7] != "volume.obv"@[7]);
        reveal_strlit("volume.ad_line");
        assert("volume.ad_line"@.len() == 14);
        reveal_strlit("volume.cmf_20");
        assert("volume.cmf_20"@.len() == 13);
        reveal_strlit("volume.volume_sma_20");
        assert("volume.volume_sma_20"@.len() == 20);
        reveal_strlit("volume.volume_ema_20");
        assert("volume.volume_ema_20"@.len() == 20);
    }
}

/// Warm-up rows of volume leaves (part 2).
proof fn lemma_volume_leaves_2(cfg: WarmupConfig)
    ensures
        snapshot_warmup_bars("volume.pvi"@, cfg) == Some(2u32),
{
    assert(snapshot_warmup_bars("volume.pvi"@, cfg) == Some(2u32)) by {
        reveal_strlit("volume.pvi");
        reveal_strlit("momentum.");
        assert("momentum."@.len() == 9);
        assert("volume.pvi"@.subrange(0, 9)[0] != "momentum."@[0]);
        reveal_strlit("trend.");
        assert("trend."@.len() == 6);
        assert("volume.pvi"@.subrange(0, 6)[0] != "trend."@[0]);
        reveal_strlit("ichimoku.");
        assert("ichimoku."@.len() == 9);
        assert("volume.pvi"@.subrange(0, 9)[0] != "ichimoku."@[0]);
        reveal_strlit("volatility.");
        assert("volatility."@.len() == 11);
        reveal_strlit("directional.");
        assert("directional."@.len() == 12);
        reveal_strlit("volume.");
        assert("volume.pvi"@.subrange(0, 7) =~= "volume."@);
        assert("volume.pvi"@.len() == 10);
        reveal_strlit("volume.obv");
        assert("volume.pvi"@[7] != "volume.obv"@[7]);
        reveal_strlit("volume.ad_line");
        assert("volume.ad_line"@.len() == 14);
        reveal_strlit("volume.cmf_20");
        assert("volume.cmf_20"@.len() == 13);
        reveal_strlit("volume.volume_sma_20");
        assert("volume.volume_sma_20"@.len() == 20);
        reveal_strlit("volume.volume_ema_20");
        assert("volume.volume_ema_20"@.len() == 20);
        reveal_strlit("volume.nvi");
        assert("volume.pvi"@[7] != "volume.nvi"@[7]);
    }
}

/// The volume leaves of the indicator snapshot and their warm-up rows.
pub proof fn lemma_volume_leaf_table(cfg: WarmupConfig)
    ensures
        snapshot_warmup_bars("volume.obv"@, cfg) == Some(2u32),
        snapshot_warmup_bars("volume.ad_line"@, cfg) == Some(2u32),
        snapshot_warmup_bars("volume.cmf_20"@, cfg) == Some(21u32),
        snapshot_warmup_bars("volume.volume_sma_20"@, cfg) == Some(20u32),
        snapshot_warmup_bars("volume.volume_ema_20"@, cfg) == Some(20u32),
        snapshot_warmup_bars("volume.nvi"@, cfg) == Some(2u32),
        snapshot_warmup_bars("volume.pvi"@, cfg) == Some(2u32),
{
    lemma_volume_leaves_1(cfg);
    lemma_volume_leaves_2(cfg);
}

/// Every named volume leaf has a warm-up.
proof fn lemma_volume_leaves_have_warmup(rest: Seq<char>, cfg: WarmupConfig)
    ensures
        is_volume_leaf(rest) ==> snapshot_warmup_bars(rest, cfg) is Some,
{
    lemma_volume_leaf_table(cfg);
}

/// The higher-timeframe EMA paths need `h * f + f` rows, with `h` the longer
/// EMA period and `f` the roll-up factor (at least one), capped at `u32::MAX`.
pub proof fn lemma_higher_tf_rows(cfg: WarmupConfig)
    ensures
        ({
            let h: int = if cfg.ema_slow_period >= cfg.ema_fast_period { cfg.ema_slow_period as int } else { cfg.ema_fast_period as int };
            let f: int = if cfg.higher_tf_factor >= 1 { cfg.higher_tf_factor as int } else { 1 };
            (h <= u32::MAX && f <= u32::MAX) ==> higher_tf_warmup_bars(cfg) == (if h * f + f <= u32::MAX {
                h * f + f
            } else {
                u32::MAX as int
            })
        }),
{
    let h: int = if cfg.ema_slow_period >= cfg.ema_fast_period { cfg.ema_slow_period as int } else { cfg.ema_fast_period as int };
    let f: int = if cfg.higher_tf_factor >= 1 { cfg.higher_tf_factor as int } else { 1 };
    if h <= u32::MAX && f <= u32::MAX {
        assert(0 <= h * f) by (nonlinear_arith)
            requires
                0 <= h,
                1 <= f,
        ;
    }
}

/// The higher-timeframe EMA paths carry the roll-up note; short paths such as
/// `atr` and `vwma`, which cannot mention `_higher`, carry none.
pub proof fn lemma_higher_tf_notes()
    ensures
        path_note_spec("ema_fast_higher"@) == Some(NOTE_HIGHER_TF_FIELDS),
        path_note_spec("ema_slow_higher"@) == Some(NOTE_HIGHER_TF_FIELDS),
        path_note_spec("atr"@) is None,
        path_note_spec("vwma"@) is None,
{
    reveal_strlit("_higher");
    reveal_strlit("ema_fast_higher");
    reveal_strlit("ema_slow_higher");
    reveal_strlit("atr");
    reveal_strlit("vwma");
    assert(occurs_at("_higher"@, "ema_fast_higher"@, 8)) by {
        assert("ema_fast_higher"@.subrange(8, 15) =~= "_higher"@);
    }
    assert(occurs_at("_higher"@, "ema_slow_higher"@, 8)) by {
        assert("ema_slow_higher"@.subrange(8, 15) =~= "_higher"@);
    }
    assert(!occurs_in("_higher"@, "atr"@)) by {
        assert("atr"@.len() == 3);
        assert("_higher"@.len() == 7);
    }
    assert(!occurs_in("_higher"@, "vwma"@)) by {
        assert("vwma"@.len() == 4);
        assert("_higher"@.len() == 7);
    }
}

/// Every catalogued path has a warm-up: each top-level path and each snapshot
/// leaf under `indicator_snapshot.` is given some number of rows; the three
/// volume-profile paths need the profile's lookback when it is enabled and one
/// row otherwise; the three MACD leaves need 35 rows.
pub proof fn lemma_catalogued_paths_have_warmup(path: Seq<char>, cfg: WarmupConfig)
    ensures
        is_catalogued_path(path) ==> warmup_bars(path, cfg) is Some,
        (path == "vp_val"@ || path == "vp_poc"@ || path == "vp_vah"@) ==> warmup_bars(path, cfg) == (if cfg.vp_enabled {
            Some(cfg.vp_lookback_bars as u32)
        } else {
            Some(1u32)
        }),
        (path == "indicator_snapshot.momentum.macd_line"@ || path == "indicator_snapshot.momentum.macd_signal"@
            || path == "indicator_snapshot.momentum.macd_hist"@) ==> warmup_bars(path, cfg) == Some(35u32),
{
    lemma_top_level_table(cfg);
    reveal_strlit("indicator_snapshot.");
    if is_prefix_of("indicator_snapshot."@, path) {
        let rest = path.subrange(19, path.len() as int);
        assert(path =~= "indicator_snapshot."@ + rest);
        lemma_snapshot_path(rest, cfg);
        lemma_prefix_family_leaves(rest, cfg);
        lemma_momentum_leaves_have_warmup(rest, cfg);
        lemma_trend_leaves_have_warmup(rest, cfg);
        lemma_volatility_leaves_have_warmup(rest, cfg);
        lemma_directional_leaves_have_warmup(rest, cfg);
        lemma_volume_leaves_have_warmup(rest, cfg);
    }
    lemma_macd_paths(path, cfg);
}

/// The three full MACD paths need 35 rows.
proof fn lemma_macd_paths(path: Seq<char>, cfg: WarmupConfig)
    ensures
        (path == "indicator_snapshot.momentum.macd_line"@ || path == "indicator_snapshot.momentum.macd_signal"@
            || path == "indicator_snapshot.momentum.macd_hist"@) ==> warmup_bars(path, cfg) == Some(35u32),
{
    lemma_momentum_leaf_table(cfg);
    reveal_strlit("indicator_snapshot.");
    reveal_strlit("indicator_snapshot.momentum.macd_line");
    reveal_strlit("indicator_snapshot.momentum.macd_signal");
    reveal_strlit("indicator_snapshot.momentum.macd_hist");
    reveal_strlit("momentum.macd_line");
    reveal_strlit("momentum.macd_signal");
    reveal_strlit("momentum.macd_hist");
    if path == "indicator_snapshot.momentum.macd_line"@ {
        assert("indicator_snapshot.momentum.macd_line"@ =~= "indicator_snapshot."@ + "momentum.macd_line"@);
        lemma_snapshot_path("momentum.macd_line"@, cfg);
    }
    if path == "indicator_snapshot.momentum.macd_signal"@ {
        assert("indicator_snapshot.momentum.macd_signal"@ =~= "indicator_snapshot."@ + "momentum.macd_signal"@);
        lemma_snapshot_path("momentum.macd_signal"@, cfg);
    }
    if path == "indicator_snapshot.momentum.macd_hist"@ {
        assert("indicator_snapshot.momentum.macd_hist"@ =~= "indicator_snapshot."@ + "momentum.macd_hist"@);
        lemma_snapshot_path("momentum.macd_hist"@, cfg);
    }
}

} // verus!
