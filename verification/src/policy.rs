//! Numeric policy of the decision engine.
//!
//! The engine steers its compress-or-skip decision with a single signed bias
//! value and two scaled moving averages. This module states that policy as
//! specification functions, implements the individual transitions as total
//! executable functions proved against them, and proves the laws the policy
//! obeys: every reachable bias value stays within fixed bounds, and a pure
//! streak of poor or good results stops exactly at the nominal bound.

use vstd::prelude::*;

verus! {

/// Weight added to the bias value when a block compressed well
/// (compressed size at most 90% of the original size).
pub const COMPRESSIBLE_BLOCK_WEIGHT: i32 = -10;

/// Weight added to the bias value when a block compressed poorly
/// (compressed size above 90% of the original size).
pub const NON_COMPRESSIBLE_BLOCK_WEIGHT: i32 = 4;

/// Weight added to the bias value each time a block is skipped,
/// so that a long run of skips re-enters the always-compress region.
pub const SKIP_COMPRESSION_BLOCK_WEIGHT: i32 = -1;

/// Bias value of a fresh engine: firmly in the always-compress region.
pub const INITIAL_COMPRESSION_VALUE: i32 = -80;

/// Nominal upper bound of the bias value. An upward step is refused once the
/// value has reached it, so the engine never becomes permanently skip-heavy.
pub const MAX_COMPRESSION_VALUE: i32 = 200;

/// Nominal lower bound of the bias value. A downward step is refused once the
/// value has reached it, so the engine never becomes permanently
/// compression-heavy.
pub const MIN_COMPRESSION_VALUE: i32 = -300;

/// Every value the bias can ever hold.
///
/// The bound checks test the current value against the nominal bounds before
/// adding a whole weight, so a step taken just inside a bound may overshoot
/// it by up to one weight less one: the reachable range is
/// `[MIN_COMPRESSION_VALUE - 9, MAX_COMPRESSION_VALUE + 3]`.
pub open spec fn compression_value_in_bounds(v: int) -> bool {
    MIN_COMPRESSION_VALUE + COMPRESSIBLE_BLOCK_WEIGHT + 1 <= v
        <= MAX_COMPRESSION_VALUE + NON_COMPRESSIBLE_BLOCK_WEIGHT - 1
}

/// Whether a compression outcome counts as poor: the ratio of compressed to
/// uncompressed size exceeds 9/10 under real-number division. Stated over
/// integers to stay exact: `c / u > 9 / 10` iff `10 * c > 9 * u` for `u > 0`.
/// For the degenerate input `u == 0` this treats a non-empty compressed size
/// as poor and an empty one as good.
pub open spec fn poor_compression(compressed: int, uncompressed: int) -> bool {
    10 * compressed > 9 * uncompressed
}

/// The smoothing rule of both moving averages: seven eighths of the stored
/// value plus one eighth of the new sample. Both terms are scaled down before
/// combining, so the stored average sits an eighth below the quantity it
/// follows; the skip threshold is calibrated against that same scale.
pub open spec fn smoothed_average(prev: int, sample: int) -> int {
    (prev / 8) * 7 + sample / 8
}

/// Largest block size the engine is willing to skip: 125% of the stored
/// (scaled) uncompressed-size average.
pub open spec fn skip_threshold(estimate: int) -> int {
    estimate + estimate / 4
}

/// The bias transition taken after a compression result: one weight up for a
/// poor outcome unless the value has reached the nominal maximum, one weight
/// down for a good outcome unless it has reached the nominal minimum.
pub open spec fn next_compression_value(v: int, poor: bool) -> int {
    if poor {
        if v < MAX_COMPRESSION_VALUE {
            v + NON_COMPRESSIBLE_BLOCK_WEIGHT
        } else {
            v
        }
    } else {
        if v > MIN_COMPRESSION_VALUE {
            v + COMPRESSIBLE_BLOCK_WEIGHT
        } else {
            v
        }
    }
}

/// Classifies a compression result. Total: the widened arithmetic cannot
/// overflow, and a zero uncompressed size takes the branch
/// [`poor_compression`] gives it.
pub fn is_poor_compression(compressed: usize, uncompressed: usize) -> (poor: bool)
    ensures
        poor == poor_compression(compressed as int, uncompressed as int),
{
    (compressed as u128) * 10 > (uncompressed as u128) * 9
}

/// Decides whether a block of `datasize` bytes falls under the engine's
/// threshold for the given stored average.
pub fn skip_eligible(datasize: usize, estimate: usize) -> (eligible: bool)
    ensures
        eligible == (datasize as int <= skip_threshold(estimate as int)),
{
    (datasize as u128) <= (estimate as u128) + (estimate as u128) / 4
}

/// Applies the smoothing rule once. Total: the result of the rule never
/// exceeds its largest operand's type range.
pub fn next_average(prev: usize, sample: usize) -> (next: usize)
    ensures
        next == smoothed_average(prev as int, sample as int),
{
    proof {
        assert((prev / 8) * 7 + sample / 8 <= usize::MAX) by (nonlinear_arith)
            requires
                prev <= usize::MAX,
                sample <= usize::MAX,
        ;
    }
    (prev / 8) * 7 + sample / 8
}

/// Applies the bias transition for one compression result.
pub fn step_compression_value(current: i32, poor: bool) -> (next: i32)
    ensures
        next == next_compression_value(current as int, poor),
{
    if poor {
        if current < MAX_COMPRESSION_VALUE {
            current + NON_COMPRESSIBLE_BLOCK_WEIGHT
        } else {
            current
        }
    } else {
        if current > MIN_COMPRESSION_VALUE {
            current + COMPRESSIBLE_BLOCK_WEIGHT
        } else {
            current
        }
    }
}

/// Applies the bias transition for one skipped block.
pub fn step_compression_value_on_skip(current: i32) -> (next: i32)
    requires
        current > i32::MIN,
    ensures
        next == current + SKIP_COMPRESSION_BLOCK_WEIGHT,
{
    current + SKIP_COMPRESSION_BLOCK_WEIGHT
}

/// One call made against the engine, reduced to its effect on the bias
/// value: a reported compression result classified as poor or good, or a
/// consultation of the skip decision on a block that is or is not under the size
/// threshold.
pub enum EngineEvent {
    Record { poor: bool },
    Gate { eligible: bool },
}

/// The bias value after one engine call in a state holding `v`.
pub open spec fn next_value_for_event(v: int, event: EngineEvent) -> int {
    match event {
        EngineEvent::Record { poor } => next_compression_value(v, poor),
        EngineEvent::Gate { eligible } => if v > 0 && eligible {
            v + SKIP_COMPRESSION_BLOCK_WEIGHT
        } else {
            v
        },
    }
}

/// The bias value after a whole sequence of engine calls, applied in order
/// to a state holding `init`.
pub open spec fn value_after_events(init: int, events: Seq<EngineEvent>) -> int
    decreases events.len(),
{
    if events.len() == 0 {
        init
    } else {
        next_value_for_event(value_after_events(init, events.drop_last()), events.last())
    }
}

/// Law: however many gate consultations and compression results an engine
/// takes, and in whatever order, a bias value that starts inside the
/// reachable range stays inside it.
pub proof fn lemma_value_after_events_in_bounds(init: int, events: Seq<EngineEvent>)
    requires
        compression_value_in_bounds(init),
    ensures
        compression_value_in_bounds(value_after_events(init, events)),
    decreases events.len(),
{
    if events.len() > 0 {
        lemma_value_after_events_in_bounds(init, events.drop_last());
    }
}

/// The bias value after `n` compression results of one kind, all poor or
/// all good, applied to a state holding `init`.
pub open spec fn value_after_records(init: int, poor: bool, n: nat) -> int
    decreases n,
{
    if n == 0 {
        init
    } else {
        next_compression_value(value_after_records(init, poor, (n - 1) as nat), poor)
    }
}

/// Law: driving a fresh engine with poor results alone walks the bias value
/// up in whole weights until it lands exactly on the nominal maximum, and
/// never past it.
pub proof fn lemma_poor_streak_stops_at_max(n: nat)
    ensures
        value_after_records(INITIAL_COMPRESSION_VALUE as int, true, n) == if INITIAL_COMPRESSION_VALUE
            + NON_COMPRESSIBLE_BLOCK_WEIGHT * n <= MAX_COMPRESSION_VALUE {
            INITIAL_COMPRESSION_VALUE + NON_COMPRESSIBLE_BLOCK_WEIGHT * n
        } else {
            MAX_COMPRESSION_VALUE as int
        },
        MIN_COMPRESSION_VALUE <= value_after_records(INITIAL_COMPRESSION_VALUE as int, true, n)
            <= MAX_COMPRESSION_VALUE,
    decreases n,
{
    if n > 0 {
        lemma_poor_streak_stops_at_max((n - 1) as nat);
    }
}

/// Law: driving a fresh engine with good results alone walks the bias value
/// down in whole weights until it lands exactly on the nominal minimum, and
/// never past it.
pub proof fn lemma_good_streak_stops_at_min(n: nat)
    ensures
        value_after_records(INITIAL_COMPRESSION_VALUE as int, false, n) == if MIN_COMPRESSION_VALUE
            <= INITIAL_COMPRESSION_VALUE + COMPRESSIBLE_BLOCK_WEIGHT * n {
            INITIAL_COMPRESSION_VALUE + COMPRESSIBLE_BLOCK_WEIGHT * n
        } else {
            MIN_COMPRESSION_VALUE as int
        },
        MIN_COMPRESSION_VALUE <= value_after_records(INITIAL_COMPRESSION_VALUE as int, false, n)
            <= MAX_COMPRESSION_VALUE,
    decreases n,
{
    if n > 0 {
        lemma_good_streak_stops_at_min((n - 1) as nat);
    }
}

} // verus!
