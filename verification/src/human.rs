//! Human-like timing, so the bot does not act with frame-perfect, robotic
//! precision: delays and tick counts are drawn at random within a band.
use rand::Rng;
use std::time::Duration;
use vstd::prelude::*;

verus! {

/// A uniformly random integer in `[lo, hi]`, from `rand::thread_rng()` and
/// `Rng::gen_range(lo..=hi)`, whose documentation promises a value in the
/// range and which panics only on an empty range. Which value comes out is
/// chance, so nothing more is stated.
#[verifier::external_body]
fn random_between(lo: u64, hi: u64) -> (r: u64)
    requires
        lo <= hi,
    ensures
        lo <= r <= hi,
{
    rand::thread_rng().gen_range(lo..=hi)
}

/// The `Duration` of `ms` milliseconds, as `Duration::from_millis` builds it.
pub uninterp spec fn duration_of_millis(ms: u64) -> Duration;

/// `Duration::from_millis`. What the opaque `Duration` holds is named, not
/// spelled out: the same count of milliseconds always gives the same value.
#[verifier::external_body]
fn from_millis(ms: u64) -> (r: Duration)
    ensures
        r == duration_of_millis(ms),
{
    Duration::from_millis(ms)
}

/// The larger of two bounds: the band is `[min, max(min, max)]`, so a band
/// given the wrong way round shrinks to its lower bound.
pub open spec fn band_top(lo: nat, hi: nat) -> nat {
    if hi >= lo {
        hi
    } else {
        lo
    }
}

/// A random number of milliseconds in `[min_ms, max(min_ms, max_ms)]`.
pub fn delay_millis(min_ms: u64, max_ms: u64) -> (r: u64)
    ensures
        min_ms <= r <= band_top(min_ms as nat, max_ms as nat),
{
    let hi = if max_ms >= min_ms {
        max_ms
    } else {
        min_ms
    };
    random_between(min_ms, hi)
}

/// A random delay in `[min_ms, max_ms]` for pacing async actions like opening a
/// chest or moving an item: some number of milliseconds in that band.
pub fn delay(min_ms: u64, max_ms: u64) -> (r: Duration)
    ensures
        exists|ms: u64|
            min_ms <= ms <= band_top(min_ms as nat, max_ms as nat) && r == duration_of_millis(ms),
{
    let ms = delay_millis(min_ms, max_ms);
    let r = from_millis(ms);
    assert(min_ms <= ms <= band_top(min_ms as nat, max_ms as nat) && r == duration_of_millis(ms));
    r
}

/// A random number of ticks in `[min, max]`, e.g. a reaction delay added on top
/// of a base cooldown.
pub fn ticks(min: u32, max: u32) -> (r: u32)
    ensures
        min <= r <= band_top(min as nat, max as nat),
{
    let hi = if max >= min {
        max
    } else {
        min
    };
    let r = random_between(min as u64, hi as u64);
    r as u32
}

} // verus!
