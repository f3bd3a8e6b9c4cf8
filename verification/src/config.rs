//! Rules on strategy-configuration overrides.

use vstd::prelude::*;

verus! {

/// The smallest volatility-baseline lookback the engine accepts: long enough
/// for the VWMA and runway windows, and at least two bars.
pub open spec fn min_vol_baseline_lookback_spec(vwma_lookback: usize, runway_lookback: usize) -> usize {
    let m: usize = if vwma_lookback >= runway_lookback { vwma_lookback } else { runway_lookback };
    if m >= 2 { m } else { 2 }
}

/// Checks an override of the volatility-baseline lookback: `Ok(requested)`
/// when it is at least the minimum, else `Err(minimum)` and the configured
/// value stays.
pub fn vol_baseline_override(requested: usize, vwma_lookback: usize, runway_lookback: usize) -> (r: Result<usize, usize>)
    ensures
        requested >= min_vol_baseline_lookback_spec(vwma_lookback, runway_lookback) ==> r == Ok::<usize, usize>(requested),
        requested < min_vol_baseline_lookback_spec(vwma_lookback, runway_lookback) ==> r == Err::<usize, usize>(
            min_vol_baseline_lookback_spec(vwma_lookback, runway_lookback),
        ),
{
    let longest = if vwma_lookback >= runway_lookback { vwma_lookback } else { runway_lookback };
    let min = if longest >= 2 { longest } else { 2 };
    if requested >= min {
        Ok(requested)
    } else {
        Err(min)
    }
}

/// The smallest volatility-baseline lookback a paper run may use: the VWMA,
/// runway and (when enabled) volume-profile windows, and at least two bars.
pub open spec fn paper_min_lookback_spec(
    vwma_lookback: usize,
    runway_lookback: usize,
    vp_enabled: bool,
    vp_lookback_bars: usize,
) -> usize {
    let vp: usize = if vp_enabled { vp_lookback_bars } else { 1 };
    let a: usize = if vwma_lookback >= runway_lookback { vwma_lookback } else { runway_lookback };
    let b: usize = if a >= vp { a } else { vp };
    if b >= 2 { b } else { 2 }
}

/// The volatility-baseline lookback a paper run uses: the requested one,
/// raised to the minimum when it is shorter.
pub fn paper_vol_baseline_lookback(
    requested: usize,
    vwma_lookback: usize,
    runway_lookback: usize,
    vp_enabled: bool,
    vp_lookback_bars: usize,
) -> (r: usize)
    ensures
        r == (if requested >= paper_min_lookback_spec(vwma_lookback, runway_lookback, vp_enabled, vp_lookback_bars) {
            requested
        } else {
            paper_min_lookback_spec(vwma_lookback, runway_lookback, vp_enabled, vp_lookback_bars)
        }),
{
    let vp = if vp_enabled { vp_lookback_bars } else { 1 };
    let a = if vwma_lookback >= runway_lookback { vwma_lookback } else { runway_lookback };
    let b = if a >= vp { a } else { vp };
    let min = if b >= 2 { b } else { 2 };
    if requested >= min {
        requested
    } else {
        min
    }
}

/// The minimum lookbacks cover every window they are taken over and are one
/// of those windows (or two bars): the override minimum is at least the VWMA
/// and runway lookbacks and 2; the paper minimum also covers the volume-profile
/// lookback when the profile is enabled.
pub proof fn lemma_min_lookbacks(vwma_lookback: usize, runway_lookback: usize, vp_enabled: bool, vp_lookback_bars: usize)
    ensures
        ({
            let m = min_vol_baseline_lookback_spec(vwma_lookback, runway_lookback);
            &&& m >= vwma_lookback && m >= runway_lookback && m >= 2
            &&& m == vwma_lookback || m == runway_lookback || m == 2
        }),
        ({
            let m = paper_min_lookback_spec(vwma_lookback, runway_lookback, vp_enabled, vp_lookback_bars);
            &&& m >= vwma_lookback && m >= runway_lookback && m >= 2
            &&& vp_enabled ==> m >= vp_lookback_bars
            &&& m == vwma_lookback || m == runway_lookback || m == 2 || (vp_enabled && m == vp_lookback_bars)
        }),
{
}

} // verus!
