//! How long the scheduler waits before a step: the step's delay, moved by a
//! random jitter within a share of the delay.

use rand::Rng;
use vstd::prelude::*;

use crate::models::db::Step;

verus! {

/// The widest jitter, in milliseconds, of a step with this delay and this
/// percentage: the percentage of the delay, rounded down; zero where that is
/// not positive.
pub open spec fn jitter_variance(delay_ms: int, jitter_pct: int) -> int {
    if delay_ms * jitter_pct > 0 {
        delay_ms * jitter_pct / 100
    } else {
        0
    }
}

/// Whether `jitter` is one that may be drawn for this delay and percentage:
/// any from minus the variance to plus the variance, which is zero alone where
/// the variance is zero.
pub open spec fn jitter_allowed(delay_ms: int, jitter_pct: int, jitter: int) -> bool {
    -jitter_variance(delay_ms, jitter_pct) <= jitter <= jitter_variance(delay_ms, jitter_pct)
}

/// The wait in milliseconds for a delay and a jitter: their sum, and zero
/// where the sum is negative.
pub open spec fn delay_with(delay_ms: int, jitter: int) -> int {
    if delay_ms + jitter > 0 {
        delay_ms + jitter
    } else {
        0
    }
}

/// Whether `wait` is a wait that the scheduler may observe before `step`.
pub open spec fn wait_allowed(delay_ms: int, jitter_pct: int, wait: int) -> bool {
    exists|jitter: int| #[trigger]
        jitter_allowed(delay_ms, jitter_pct, jitter) && wait == delay_with(delay_ms, jitter)
}

/// The widest jitter of a step with this delay and this percentage.
pub fn variance_of(delay_ms: i32, jitter_pct: i32) -> (variance: i64)
    ensures
        variance == jitter_variance(delay_ms as int, jitter_pct as int),
        0 <= variance <= 0x4000_0000_0000_0000,
{
    assert(-0x4000_0000_0000_0000 <= (delay_ms as int) * (jitter_pct as int)
        <= 0x4000_0000_0000_0000) by (nonlinear_arith)
        requires
            -0x8000_0000 <= delay_ms <= 0x8000_0000,
            -0x8000_0000 <= jitter_pct <= 0x8000_0000,
    ;
    let product: i64 = (delay_ms as i64) * (jitter_pct as i64);
    if product > 0 {
        product / 100
    } else {
        0
    }
}

/// The wait in milliseconds for a delay and a jitter.
pub fn final_delay(delay_ms: i32, jitter: i64) -> (wait: u64)
    ensures
        wait == delay_with(delay_ms as int, jitter as int),
{
    let sum: i128 = delay_ms as i128 + jitter as i128;
    if sum > 0 {
        sum as u64
    } else {
        0
    }
}

/// `rand::thread_rng` and `Rng::gen_range` over the closed range from `low`
/// to `high`: some number of that range. Believed of rand, not proved. The
/// generator gives up only where the operating system has no randomness to
/// seed it with, whatever the range.
#[verifier::external_body]
fn sample_between(low: i64, high: i64) -> (sample: i64)
    requires
        low <= high,
    ensures
        low <= sample <= high,
{
    rand::thread_rng().gen_range(low..=high)
}

/// Draws the jitter of a step with this delay and this percentage.
pub fn draw_jitter(delay_ms: i32, jitter_pct: i32) -> (jitter: i64)
    ensures
        jitter_allowed(delay_ms as int, jitter_pct as int, jitter as int),
{
    let variance = variance_of(delay_ms, jitter_pct);
    if variance > 0 {
        sample_between(-variance, variance)
    } else {
        0
    }
}

/// Draws the wait before `step`: its delay plus a jitter drawn within the
/// variance, and never below zero.
pub fn step_delay(step: &Step) -> (wait: u64)
    ensures
        wait_allowed(step.delay_ms as int, step.jitter_pct as int, wait as int),
{
    let jitter = draw_jitter(step.delay_ms, step.jitter_pct);
    final_delay(step.delay_ms, jitter)
}

/// A step without jitter waits for its delay exactly, and a step with a
/// delay of zero does not wait at all.
pub proof fn lemma_wait_without_jitter(delay_ms: int, jitter_pct: int, wait: int)
    requires
        wait_allowed(delay_ms, jitter_pct, wait),
        delay_ms == 0 || jitter_pct == 0,
    ensures
        wait == if delay_ms > 0 {
            delay_ms
        } else {
            0
        },
{
    assert(delay_ms * jitter_pct == 0) by (nonlinear_arith)
        requires
            delay_ms == 0 || jitter_pct == 0,
    ;
}

/// The wait before a step with a delay and a percentage in their ranges lies
/// within the percentage of the delay, on either side of it.
pub proof fn lemma_wait_bounds(delay_ms: int, jitter_pct: int, wait: int)
    requires
        wait_allowed(delay_ms, jitter_pct, wait),
        0 <= delay_ms,
        0 <= jitter_pct <= 100,
    ensures
        delay_ms - delay_ms * jitter_pct / 100 <= wait <= delay_ms + delay_ms * jitter_pct / 100,
        0 <= wait <= 2 * delay_ms,
{
    assert(0 <= delay_ms * jitter_pct <= delay_ms * 100) by (nonlinear_arith)
        requires
            0 <= delay_ms,
            0 <= jitter_pct <= 100,
    ;
}

} // verus!
