//! Closed-bar warm-up hints for flattened indicator paths.
//!
//! Counts are in rows of the series the caller sends. The prepare pipeline
//! groups every `higher_tf_factor` consecutive rows into one higher-timeframe
//! bar for the `ema_fast_higher` / `ema_slow_higher` fields.

use vstd::prelude::*;

use crate::warmup_table::{is_catalogued_path, lemma_catalogued_paths_have_warmup};

use crate::text::{chars_of, has_literal_infix, has_literal_prefix, is_literal, is_prefix_of, occurs_in};

verus! {

/// Caveat attached to every path that goes through the higher-timeframe rollup.
pub const NOTE_HIGHER_TF_FIELDS: &'static str = "Uses the internal higher-TF rollup (every `higher_tf_factor` consecutive rows = one bucket). Warmup count is approximate and depends on your configured factor.";

/// How the session VWAP is anchored.
#[derive(Copy, Clone, Debug, PartialEq, Eq, Structural)]
pub enum VwapAnchorMode {
    RollingBars,
    UtcDay,
    Disabled,
}

/// The strategy-configuration fields that the warm-up table reads.
#[derive(Copy, Clone, Debug, PartialEq, Eq, Structural)]
pub struct WarmupConfig {
    pub ema_fast_period: usize,
    pub ema_slow_period: usize,
    pub vwma_lookback: usize,
    pub atr_period: usize,
    pub vol_baseline_lookback_bars: usize,
    pub vp_enabled: bool,
    pub vp_lookback_bars: usize,
    pub higher_tf_factor: usize,
    pub vwap_anchor_mode: VwapAnchorMode,
    pub vwap_rolling_bars: Option<usize>,
}

/// The extra note shown for a path, if any: paths that mention `_higher`
/// carry the rollup caveat.
pub open spec fn path_note_spec(path: Seq<char>) -> Option<&'static str> {
    if occurs_in("_higher"@, path) {
        Some(NOTE_HIGHER_TF_FIELDS)
    } else {
        None
    }
}

/// Extra context for paths that need the higher-timeframe rollup caveat.
pub fn path_note(path: &str) -> (r: Option<&'static str>)
    ensures
        r == path_note_spec(path@),
{
    let p = chars_of(path);
    if has_literal_infix(p.as_slice(), "_higher") {
        return Some(NOTE_HIGHER_TF_FIELDS);
    }
    None
}

/// Larger of two sizes.
pub open spec fn max_usize(a: usize, b: usize) -> usize {
    if a >= b { a } else { b }
}

/// `a * b` in `u32`, clamped at `u32::MAX`.
pub open spec fn saturating_mul_u32(a: u32, b: u32) -> u32 {
    if a * b > u32::MAX { u32::MAX } else { (a * b) as u32 }
}

/// `a + b` in `u32`, clamped at `u32::MAX`.
pub open spec fn saturating_add_u32(a: u32, b: u32) -> u32 {
    if a + b > u32::MAX { u32::MAX } else { (a + b) as u32 }
}

/// Base-row lower bound before the higher-timeframe EMAs can seed:
/// `max(slow, fast) * f + f` with `f = max(higher_tf_factor, 1)`, both steps
/// saturating in `u32`.
pub open spec fn higher_tf_warmup_bars(cfg: WarmupConfig) -> u32 {
    let h = max_usize(cfg.ema_slow_period, cfg.ema_fast_period) as u32;
    let factor = max_usize(cfg.higher_tf_factor, 1) as u32;
    saturating_add_u32(saturating_mul_u32(h, factor), factor)
}

/// Warm-up rows for the session-VWAP leaves, by anchor mode.
pub open spec fn vwap_warmup_bars(cfg: WarmupConfig) -> Option<u32> {
    match cfg.vwap_anchor_mode {
        VwapAnchorMode::RollingBars => Some(
            (match cfg.vwap_rolling_bars {
                Some(n) => n,
                None => 96,
            }) as u32,
        ),
        VwapAnchorMode::UtcDay => Some(96),
        VwapAnchorMode::Disabled => Some(1),
    }
}

/// The configuration keeps every path's warm-up arithmetic in range.
pub open spec fn warmup_cfg_fits(cfg: WarmupConfig) -> bool {
    &&& (cfg.atr_period as u32) < u32::MAX
    &&& cfg.atr_period < usize::MAX
}

/// Warm-up rows for the momentum leaves of the indicator snapshot.
pub open spec fn momentum_warmup_bars(rest: Seq<char>, cfg: WarmupConfig) -> Option<u32> {
    if rest == "momentum.rsi_14"@ {
        Some(15)
    } else if rest == "momentum.macd_line"@ || rest == "momentum.macd_signal"@ || rest == "momentum.macd_hist"@ {
        Some(35)
    } else if rest == "momentum.stoch_k"@ || rest == "momentum.stoch_d"@ {
        Some(20)
    } else if rest == "momentum.stoch_rsi_k"@ || rest == "momentum.stoch_rsi_d"@ {
        Some(40)
    } else if rest == "momentum.cci_20"@ {
        Some(21)
    } else if rest == "momentum.williams_r_14"@ {
        Some(15)
    } else if rest == "momentum.roc_10"@ {
        Some(11)
    } else if rest == "momentum.mfi_14"@ {
        Some(15)
    } else if rest == "momentum.ultosc_7_14_28"@ {
        Some(29)
    } else if rest == "momentum.tsi_25_13"@ {
        Some(26)
    } else if rest == "momentum.awesome_oscillator_5_34"@ {
        Some(35)
    } else if rest == "momentum.ppo_line"@ || rest == "momentum.ppo_signal"@ || rest == "momentum.ppo_hist"@ {
        Some(35)
    } else if rest == "momentum.kst"@ {
        Some(50)
    } else if rest == "momentum.elder_bull"@ || rest == "momentum.elder_bear"@ {
        Some(14)
    } else if rest == "momentum.cmo_14"@ {
        Some(15)
    } else if rest == "momentum.trix_15"@ || rest == "momentum.trix_signal_9"@ {
        Some(24)
    } else if rest == "momentum.kvo_34_55"@ || rest == "momentum.kvo_signal_13"@ {
        Some(60)
    } else if rest == "momentum.chaikin_oscillator_3_10"@ {
        Some(12)
    } else if rest == "momentum.pvo_line"@ || rest == "momentum.pvo_signal"@ || rest == "momentum.pvo_hist"@ {
        Some(27)
    } else if rest == "momentum.force_index_13"@ {
        Some(14)
    } else {
        None
    }
}

/// Warm-up rows for the trend leaves of the indicator snapshot.
pub open spec fn trend_warmup_bars(rest: Seq<char>, cfg: WarmupConfig) -> Option<u32> {
    if rest == "trend.sma_20"@ {
        Some(20)
    } else if rest == "trend.sma_50"@ {
        Some(50)
    } else if rest == "trend.sma_200"@ {
        Some(200)
    } else if rest == "trend.ema_20"@ {
        Some(20)
    } else if rest == "trend.wma_20"@ {
        Some(20)
    } else if rest == "trend.hull_9"@ {
        Some(12)
    } else if rest == "trend.dema_20"@ || rest == "trend.tema_20"@ {
        Some(40)
    } else if rest == "trend.mcginley_14"@ {
        Some(15)
    } else if rest == "trend.kama_10"@ {
        Some(12)
    } else if rest == "trend.alma_20"@ {
        Some(20)
    } else if rest == "trend.vidya_14"@ {
        Some(20)
    } else if rest == "trend.lr_slope_20"@ || rest == "trend.price_zscore_20"@ || rest == "trend.hist_vol_logrets_20"@ {
        Some(21)
    } else if rest == "trend.vwap_session"@ || rest == "trend.vwap_upper_1sd"@ || rest == "trend.vwap_lower_1sd"@ || rest == "trend.vwap_upper_2sd"@ || rest == "trend.vwap_lower_2sd"@ {
        vwap_warmup_bars(cfg)
    } else if rest == "trend.mama"@ || rest == "trend.fama"@ {
        Some(50)
    } else {
        None
    }
}

/// Warm-up rows for the band-style volatility leaves of the indicator snapshot.
pub open spec fn volatility_band_warmup_bars(rest: Seq<char>, cfg: WarmupConfig) -> Option<u32> {
    if rest == "volatility.bb_middle_20"@ || rest == "volatility.bb_upper_20"@ || rest == "volatility.bb_lower_20"@ || rest == "volatility.bb_pct_b_20"@ || rest == "volatility.bb_bandwidth_20"@ {
        Some(20)
    } else if rest == "volatility.keltner_middle_20"@ || rest == "volatility.keltner_upper_20"@ || rest == "volatility.keltner_lower_20"@ {
        Some(21)
    } else if rest == "volatility.donchian_upper_20"@ || rest == "volatility.donchian_lower_20"@ || rest == "volatility.donchian_mid_20"@ {
        Some(20)
    } else if rest == "volatility.supertrend_10_3"@ || rest == "volatility.supertrend_long"@ {
        Some(12)
    } else if rest == "volatility.mass_index_25"@ {
        Some(26)
    } else if rest == "volatility.ttm_squeeze_on"@ || rest == "volatility.ttm_squeeze_momentum"@ {
        Some(20)
    } else if rest == "volatility.chandelier_long_stop_22_3"@ || rest == "volatility.chandelier_short_stop_22_3"@ {
        Some(23)
    } else {
        None
    }
}

/// Warm-up rows for the directional leaves of the indicator snapshot.
pub open spec fn directional_warmup_bars(rest: Seq<char>, cfg: WarmupConfig) -> Option<u32> {
    if rest == "directional.adx_14"@ || rest == "directional.di_plus"@ || rest == "directional.di_minus"@ {
        Some(15)
    } else if rest == "directional.aroon_up_25"@ || rest == "directional.aroon_down_25"@ {
        Some(25)
    } else if rest == "directional.psar"@ || rest == "directional.psar_trend_long"@ {
        Some(10)
    } else if rest == "directional.vortex_vi_plus_14"@ || rest == "directional.vortex_vi_minus_14"@ {
        Some(15)
    } else {
        None
    }
}

/// Warm-up rows for the volume leaves of the indicator snapshot.
pub open spec fn volume_warmup_bars(rest: Seq<char>, cfg: WarmupConfig) -> Option<u32> {
    if rest == "volume.obv"@ {
        Some(2)
    } else if rest == "volume.ad_line"@ {
        Some(2)
    } else if rest == "volume.cmf_20"@ {
        Some(21)
    } else if rest == "volume.volume_sma_20"@ || rest == "volume.volume_ema_20"@ {
        Some(20)
    } else if rest == "volume.nvi"@ || rest == "volume.pvi"@ {
        Some(2)
    } else {
        None
    }
}

/// Warm-up rows for a leaf of the indicator snapshot, given the path with the
/// `indicator_snapshot.` prefix removed.
pub open spec fn snapshot_warmup_bars(rest: Seq<char>, cfg: WarmupConfig) -> Option<u32> {
    if is_prefix_of("momentum."@, rest) {
        momentum_warmup_bars(rest, cfg)
    } else if is_prefix_of("trend."@, rest) {
        trend_warmup_bars(rest, cfg)
    } else if is_prefix_of("ichimoku."@, rest) {
        Some(52)
    } else if is_prefix_of("volatility."@, rest) {
        if is_prefix_of("volatility.pivot_classic."@, rest) || is_prefix_of("volatility.pivot_fib."@, rest) {
            Some(2)
        } else {
            volatility_band_warmup_bars(rest, cfg)
        }
    } else if is_prefix_of("directional."@, rest) {
        directional_warmup_bars(rest, cfg)
    } else if is_prefix_of("volume."@, rest) {
        volume_warmup_bars(rest, cfg)
    } else if is_prefix_of("patterns."@, rest) {
        Some(3)
    } else {
        None
    }
}

/// Minimum number of same-series rows typically needed before the value at the
/// last bar is defined for `path`; `None` when the path is not catalogued.
pub open spec fn warmup_bars(path: Seq<char>, cfg: WarmupConfig) -> Option<u32> {
    if path == "candle.open"@ || path == "candle.high"@ || path == "candle.low"@ || path == "candle.close"@ || path == "candle.volume"@ || path == "candle.buy_volume"@ || path == "candle.sell_volume"@ || path == "candle.delta"@ || path == "candle.close_time"@ {
        Some(1)
    } else if path == "ema_fast"@ {
        Some(cfg.ema_fast_period as u32)
    } else if path == "ema_slow"@ {
        Some(cfg.ema_slow_period as u32)
    } else if path == "vwma"@ {
        Some(cfg.vwma_lookback as u32)
    } else if path == "atr"@ || path == "atr_pct"@ {
        Some(((cfg.atr_period as u32) + 1) as u32)
    } else if path == "atr_pct_baseline"@ {
        Some(cfg.vol_baseline_lookback_bars as u32)
    } else if path == "vol_ratio"@ {
        Some(max_usize(max_usize(cfg.vol_baseline_lookback_bars, (cfg.atr_period + 1) as usize), 2) as u32)
    } else if path == "cvd_ema3"@ {
        Some(8)
    } else if path == "cvd_ema3_slope"@ {
        Some(12)
    } else if path == "vp_val"@ || path == "vp_poc"@ || path == "vp_vah"@ {
        if cfg.vp_enabled { Some(cfg.vp_lookback_bars as u32) } else { Some(1) }
    } else if path == "ema_fast_higher"@ || path == "ema_slow_higher"@ {
        Some(higher_tf_warmup_bars(cfg))
    } else if is_prefix_of("indicator_snapshot."@, path) {
        snapshot_warmup_bars(path.subrange("indicator_snapshot."@.len() as int, path.len() as int), cfg)
    } else {
        None
    }
}

/// The catalogued top-level paths: the nine candle fields and the frame's own
/// series.
pub open spec fn is_top_level_path(path: Seq<char>) -> bool {
    ||| path == "candle.open"@ || path == "candle.high"@ || path == "candle.low"@ || path == "candle.close"@
    ||| path == "candle.volume"@ || path == "candle.buy_volume"@ || path == "candle.sell_volume"@
    ||| path == "candle.delta"@ || path == "candle.close_time"@
    ||| path == "ema_fast"@ || path == "ema_slow"@ || path == "vwma"@ || path == "atr"@ || path == "atr_pct"@
    ||| path == "atr_pct_baseline"@ || path == "vol_ratio"@ || path == "cvd_ema3"@ || path == "cvd_ema3_slope"@
    ||| path == "vp_val"@ || path == "vp_poc"@ || path == "vp_vah"@
    ||| path == "ema_fast_higher"@ || path == "ema_slow_higher"@
}

/// How a path is looked up: a path under `indicator_snapshot.` gets the
/// warm-up of its snapshot leaf; any other path that is not a catalogued
/// top-level name has none.
pub proof fn lemma_warmup_path_kinds(path: Seq<char>, cfg: WarmupConfig)
    ensures
        is_prefix_of("indicator_snapshot."@, path) ==> warmup_bars(path, cfg) == snapshot_warmup_bars(
            path.subrange(19, path.len() as int),
            cfg,
        ),
        (!is_prefix_of("indicator_snapshot."@, path) && !is_top_level_path(path)) ==> warmup_bars(path, cfg) is None,
{
    reveal_strlit("indicator_snapshot.");
    reveal_strlit("candle.open");
    reveal_strlit("candle.high");
    reveal_strlit("candle.low");
    reveal_strlit("candle.close");
    reveal_strlit("candle.volume");
    reveal_strlit("candle.buy_volume");
    reveal_strlit("candle.sell_volume");
    reveal_strlit("candle.delta");
    reveal_strlit("candle.close_time");
    reveal_strlit("ema_fast");
    reveal_strlit("ema_slow");
    reveal_strlit("vwma");
    reveal_strlit("atr");
    reveal_strlit("atr_pct");
    reveal_strlit("atr_pct_baseline");
    reveal_strlit("vol_ratio");
    reveal_strlit("cvd_ema3");
    reveal_strlit("cvd_ema3_slope");
    reveal_strlit("vp_val");
    reveal_strlit("vp_poc");
    reveal_strlit("vp_vah");
    reveal_strlit("ema_fast_higher");
    reveal_strlit("ema_slow_higher");
}

/// The arithmetic that `warmup_bars` performs on `cfg` for `path` stays in
/// range: `atr_period + 1` fits in `u32` for the ATR paths and in `usize`
/// for `vol_ratio`.
pub open spec fn warmup_arith_fits(path: Seq<char>, cfg: WarmupConfig) -> bool {
    &&& (path == "atr"@ || path == "atr_pct"@) ==> (cfg.atr_period as u32) < u32::MAX
    &&& path == "vol_ratio"@ ==> cfg.atr_period < usize::MAX
}

/// Warm-up rows for the momentum leaves of the indicator snapshot.
fn momentum_min_bars(rest: &[char], cfg: &WarmupConfig) -> (r: Option<u32>)
    ensures
        r == momentum_warmup_bars(rest@, *cfg),
{
    if is_literal(rest, "momentum.rsi_14") {
        Some(15)
    } else if is_literal(rest, "momentum.macd_line") || is_literal(rest, "momentum.macd_signal") || is_literal(rest, "momentum.macd_hist") {
        Some(35)
    } else if is_literal(rest, "momentum.stoch_k") || is_literal(rest, "momentum.stoch_d") {
        Some(20)
    } else if is_literal(rest, "momentum.stoch_rsi_k") || is_literal(rest, "momentum.stoch_rsi_d") {
        Some(40)
    } else if is_literal(rest, "momentum.cci_20") {
        Some(21)
    } else if is_literal(rest, "momentum.williams_r_14") {
        Some(15)
    } else if is_literal(rest, "momentum.roc_10") {
        Some(11)
    } else if is_literal(rest, "momentum.mfi_14") {
        Some(15)
    } else if is_literal(rest, "momentum.ultosc_7_14_28") {
        Some(29)
    } else if is_literal(rest, "momentum.tsi_25_13") {
        Some(26)
    } else if is_literal(rest, "momentum.awesome_oscillator_5_34") {
        Some(35)
    } else if is_literal(rest, "momentum.ppo_line") || is_literal(rest, "momentum.ppo_signal") || is_literal(rest, "momentum.ppo_hist") {
        Some(35)
    } else if is_literal(rest, "momentum.kst") {
        Some(50)
    } else if is_literal(rest, "momentum.elder_bull") || is_literal(rest, "momentum.elder_bear") {
        Some(14)
    } else if is_literal(rest, "momentum.cmo_14") {
        Some(15)
    } else if is_literal(rest, "momentum.trix_15") || is_literal(rest, "momentum.trix_signal_9") {
        Some(24)
    } else if is_literal(rest, "momentum.kvo_34_55") || is_literal(rest, "momentum.kvo_signal_13") {
        Some(60)
    } else if is_literal(rest, "momentum.chaikin_oscillator_3_10") {
        Some(12)
    } else if is_literal(rest, "momentum.pvo_line") || is_literal(rest, "momentum.pvo_signal") || is_literal(rest, "momentum.pvo_hist") {
        Some(27)
    } else if is_literal(rest, "momentum.force_index_13") {
        Some(14)
    } else {
        None
    }
}

/// Warm-up rows for the trend leaves of the indicator snapshot.
fn trend_min_bars(rest: &[char], cfg: &WarmupConfig) -> (r: Option<u32>)
    ensures
        r == trend_warmup_bars(rest@, *cfg),
{
    if is_literal(rest, "trend.sma_20") {
        Some(20)
    } else if is_literal(rest, "trend.sma_50") {
        Some(50)
    } else if is_literal(rest, "trend.sma_200") {
        Some(200)
    } else if is_literal(rest, "trend.ema_20") {
        Some(20)
    } else if is_literal(rest, "trend.wma_20") {
        Some(20)
    } else if is_literal(rest, "trend.hull_9") {
        Some(12)
    } else if is_literal(rest, "trend.dema_20") || is_literal(rest, "trend.tema_20") {
        Some(40)
    } else if is_literal(rest, "trend.mcginley_14") {
        Some(15)
    } else if is_literal(rest, "trend.kama_10") {
        Some(12)
    } else if is_literal(rest, "trend.alma_20") {
        Some(20)
    } else if is_literal(rest, "trend.vidya_14") {
        Some(20)
    } else if is_literal(rest, "trend.lr_slope_20") || is_literal(rest, "trend.price_zscore_20") || is_literal(rest, "trend.hist_vol_logrets_20") {
        Some(21)
    } else if is_literal(rest, "trend.vwap_session") || is_literal(rest, "trend.vwap_upper_1sd") || is_literal(rest, "trend.vwap_lower_1sd") || is_literal(rest, "trend.vwap_upper_2sd") || is_literal(rest, "trend.vwap_lower_2sd") {
        vwap_warmup_bars_exec(cfg)
    } else if is_literal(rest, "trend.mama") || is_literal(rest, "trend.fama") {
        Some(50)
    } else {
        None
    }
}

/// Warm-up rows for the band-style volatility leaves of the indicator snapshot.
fn volatility_band_min_bars(rest: &[char], cfg: &WarmupConfig) -> (r: Option<u32>)
    ensures
        r == volatility_band_warmup_bars(rest@, *cfg),
{
    if is_literal(rest, "volatility.bb_middle_20") || is_literal(rest, "volatility.bb_upper_20") || is_literal(rest, "volatility.bb_lower_20") || is_literal(rest, "volatility.bb_pct_b_20") || is_literal(rest, "volatility.bb_bandwidth_20") {
        Some(20)
    } else if is_literal(rest, "volatility.keltner_middle_20") || is_literal(rest, "volatility.keltner_upper_20") || is_literal(rest, "volatility.keltner_lower_20") {
        Some(21)
    } else if is_literal(rest, "volatility.donchian_upper_20") || is_literal(rest, "volatility.donchian_lower_20") || is_literal(rest, "volatility.donchian_mid_20") {
        Some(20)
    } else if is_literal(rest, "volatility.supertrend_10_3") || is_literal(rest, "volatility.supertrend_long") {
        Some(12)
    } else if is_literal(rest, "volatility.mass_index_25") {
        Some(26)
    } else if is_literal(rest, "volatility.ttm_squeeze_on") || is_literal(rest, "volatility.ttm_squeeze_momentum") {
        Some(20)
    } else if is_literal(rest, "volatility.chandelier_long_stop_22_3") || is_literal(rest, "volatility.chandelier_short_stop_22_3") {
        Some(23)
    } else {
        None
    }
}

/// Warm-up rows for the directional leaves of the indicator snapshot.
fn directional_min_bars(rest: &[char], cfg: &WarmupConfig) -> (r: Option<u32>)
    ensures
        r == directional_warmup_bars(rest@, *cfg),
{
    if is_literal(rest, "directional.adx_14") || is_literal(rest, "directional.di_plus") || is_literal(rest, "directional.di_minus") {
        Some(15)
    } else if is_literal(rest, "directional.aroon_up_25") || is_literal(rest, "directional.aroon_down_25") {
        Some(25)
    } else if is_literal(rest, "directional.psar") || is_literal(rest, "directional.psar_trend_long") {
        Some(10)
    } else if is_literal(rest, "directional.vortex_vi_plus_14") || is_literal(rest, "directional.vortex_vi_minus_14") {
        Some(15)
    } else {
        None
    }
}

/// Warm-up rows for the volume leaves of the indicator snapshot.
fn volume_min_bars(rest: &[char], cfg: &WarmupConfig) -> (r: Option<u32>)
    ensures
        r == volume_warmup_bars(rest@, *cfg),
{
    if is_literal(rest, "volume.obv") {
        Some(2)
    } else if is_literal(rest, "volume.ad_line") {
        Some(2)
    } else if is_literal(rest, "volume.cmf_20") {
        Some(21)
    } else if is_literal(rest, "volume.volume_sma_20") || is_literal(rest, "volume.volume_ema_20") {
        Some(20)
    } else if is_literal(rest, "volume.nvi") || is_literal(rest, "volume.pvi") {
        Some(2)
    } else {
        None
    }
}

/// Copies `s[from..]`.
fn chars_from(s: &[char], from: usize) -> (v: Vec<char>)
    requires
        from <= s@.len(),
    ensures
        v@ == s@.subrange(from as int, s@.len() as int),
{
    let mut v: Vec<char> = Vec::new();
    let mut i = from;
    while i < s.len()
        invariant
            from <= i <= s@.len(),
            v@ == s@.subrange(from as int, i as int),
        decreases s.len() - i,
    {
        v.push(s[i]);
        i = i + 1;
    }
    v
}

/// Warm-up rows for the session-VWAP leaves.
fn vwap_warmup_bars_exec(cfg: &WarmupConfig) -> (r: Option<u32>)
    ensures
        r == vwap_warmup_bars(*cfg),
{
    match cfg.vwap_anchor_mode {
        VwapAnchorMode::RollingBars => {
            let n = match cfg.vwap_rolling_bars {
                Some(n) => n,
                None => 96,
            };
            Some(#[verifier::truncate] (n as u32))
        },
        VwapAnchorMode::UtcDay => Some(96),
        VwapAnchorMode::Disabled => Some(1),
    }
}

/// Warm-up rows for a snapshot leaf (path without the `indicator_snapshot.` prefix).
fn min_bars_for_snapshot_path(rest: &[char], cfg: &WarmupConfig) -> (r: Option<u32>)
    ensures
        r == snapshot_warmup_bars(rest@, *cfg),
{
    if has_literal_prefix(rest, "momentum.") {
        return momentum_min_bars(rest, cfg);
    }
    if has_literal_prefix(rest, "trend.") {
        return trend_min_bars(rest, cfg);
    }
    if has_literal_prefix(rest, "ichimoku.") {
        return Some(52);
    }
    if has_literal_prefix(rest, "volatility.") {
        if has_literal_prefix(rest, "volatility.pivot_classic.") || has_literal_prefix(rest, "volatility.pivot_fib.") {
            return Some(2);
        }
        return volatility_band_min_bars(rest, cfg);
    }
    if has_literal_prefix(rest, "directional.") {
        return directional_min_bars(rest, cfg);
    }
    if has_literal_prefix(rest, "volume.") {
        return volume_min_bars(rest, cfg);
    }
    if has_literal_prefix(rest, "patterns.") {
        return Some(3);
    }
    None
}

/// Minimum number of same-series rows typically needed before the value at the
/// last bar is defined for `path`, given `cfg`. `None` means the path is not
/// catalogued.
pub fn min_bars_required_for_path(path: &str, cfg: &WarmupConfig) -> (r: Option<u32>)
    requires
        warmup_arith_fits(path@, *cfg),
    ensures
        r == warmup_bars(path@, *cfg),
        is_prefix_of("indicator_snapshot."@, path@) ==> r == snapshot_warmup_bars(
            path@.subrange(19, path@.len() as int),
            *cfg,
        ),
        (!is_prefix_of("indicator_snapshot."@, path@) && !is_top_level_path(path@)) ==> r is None,
        is_catalogued_path(path@) ==> r is Some,
{
    proof {
        lemma_warmup_path_kinds(path@, *cfg);
        lemma_catalogued_paths_have_warmup(path@, *cfg);
    }
    let p_vec = chars_of(path);
    let p = p_vec.as_slice();
    if is_literal(p, "candle.open") || is_literal(p, "candle.high") || is_literal(p, "candle.low") || is_literal(p, "candle.close") || is_literal(p, "candle.volume") || is_literal(p, "candle.buy_volume") || is_literal(p, "candle.sell_volume") || is_literal(p, "candle.delta") || is_literal(p, "candle.close_time") {
        return Some(1);
    }
    if is_literal(p, "ema_fast") {
        return Some(#[verifier::truncate] (cfg.ema_fast_period as u32));
    }
    if is_literal(p, "ema_slow") {
        return Some(#[verifier::truncate] (cfg.ema_slow_period as u32));
    }
    if is_literal(p, "vwma") {
        return Some(#[verifier::truncate] (cfg.vwma_lookback as u32));
    }
    if is_literal(p, "atr") || is_literal(p, "atr_pct") {
        return Some(cfg.atr_period as u32 + 1);
    }
    if is_literal(p, "atr_pct_baseline") {
        return Some(#[verifier::truncate] (cfg.vol_baseline_lookback_bars as u32));
    }
    if is_literal(p, "vol_ratio") {
        let atr_rows = cfg.atr_period + 1;
        let a = if cfg.vol_baseline_lookback_bars >= atr_rows { cfg.vol_baseline_lookback_bars } else { atr_rows };
        let b = if a >= 2 { a } else { 2 };
        return Some(#[verifier::truncate] (b as u32));
    }
    if is_literal(p, "cvd_ema3") {
        return Some(8);
    }
    if is_literal(p, "cvd_ema3_slope") {
        return Some(12);
    }
    if is_literal(p, "vp_val") || is_literal(p, "vp_poc") || is_literal(p, "vp_vah") {
        if cfg.vp_enabled {
            return Some(#[verifier::truncate] (cfg.vp_lookback_bars as u32));
        }
        return Some(1);
    }
    if is_literal(p, "ema_fast_higher") || is_literal(p, "ema_slow_higher") {
        let slowest = if cfg.ema_slow_period >= cfg.ema_fast_period { cfg.ema_slow_period } else { cfg.ema_fast_period };
        let h = slowest as u32;
        let factor_rows = if cfg.higher_tf_factor >= 1 { cfg.higher_tf_factor } else { 1 };
        let factor = factor_rows as u32;
        assert((h as u64) * (factor as u64) <= 0xffff_ffffu64 * 0xffff_ffffu64) by (nonlinear_arith)
            requires
                h <= 0xffff_ffffu32,
                factor <= 0xffff_ffffu32,
        ;
        let wide = (h as u64) * (factor as u64);
        let product: u32 = if wide > u32::MAX as u64 { u32::MAX } else { wide as u32 };
        let total: u32 = if product as u64 + factor as u64 > u32::MAX as u64 { u32::MAX } else { product + factor };
        return Some(total);
    }
    let prefix = chars_of("indicator_snapshot.");
    if crate::text::starts_with(p, prefix.as_slice()) {
        let rest = chars_from(p, prefix.len());
        return min_bars_for_snapshot_path(rest.as_slice(), cfg);
    }
    None
}

} // verus!
