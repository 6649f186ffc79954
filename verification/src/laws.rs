//! Guarantees that hold across arbitrary call sequences, stated over the
//! transition functions of [`crate::counter`] and proved once and for all.

use vstd::prelude::*;
use vstd::math::{max, min};
use crate::counter::Counter;
use crate::counter::default_counter;
use crate::counter::spec_increment;
use crate::counter::spec_decrement;
use crate::counter::spec_reset;
use crate::counter::spec_update_top_threshold;
use crate::counter::spec_update_low_threshold;

verus! {

/// One call of the dispatcher's mutating surface.
pub enum CounterOp {
    Increment,
    Decrement,
    Reset,
    UpdateTopThreshold(i8),
    UpdateLowThreshold(i8),
}

/// The state after one operation.
pub open spec fn spec_step(c: Counter, op: CounterOp) -> Counter {
    match op {
        CounterOp::Increment => spec_increment(c),
        CounterOp::Decrement => spec_decrement(c),
        CounterOp::Reset => spec_reset(c),
        CounterOp::UpdateTopThreshold(x) => spec_update_top_threshold(c, x),
        CounterOp::UpdateLowThreshold(x) => spec_update_low_threshold(c, x),
    }
}

/// The value lies in the unsigned range `[0, u16::MAX]`.
pub open spec fn value_in_range(c: Counter) -> bool {
    0 <= c.val as int <= 0xFFFF
}

/// A nonnegative upper threshold is respected: the value does not exceed it.
pub open spec fn within_top_threshold(c: Counter) -> bool {
    c.top_threshold >= 0 ==> c.val as int <= c.top_threshold as int
}

/// The lower threshold is respected: the value does not lie below it.
pub open spec fn within_low_threshold(c: Counter) -> bool {
    c.low_threshold as int <= c.val as int
}

/// Every representable state keeps the value in the unsigned range: the
/// counter is never negative and never above the platform maximum.
pub proof fn lemma_value_in_range(c: Counter)
    ensures
        value_in_range(c),
{
}

/// The all-defaults state respects both thresholds.
pub proof fn lemma_default_within_thresholds()
    ensures
        value_in_range(default_counter()),
        within_top_threshold(default_counter()),
        within_low_threshold(default_counter()),
{
}

/// Starting from the defaults, every call sequence keeps the value at or
/// below a nonnegative upper threshold and at or above the lower threshold:
/// each single operation preserves both, under the three provisos without
/// which a threshold cannot stay respected at all — lowering the upper
/// threshold below the current value abandons the former, and a reset under
/// a positive lower threshold, or raising the lower threshold above the
/// current value, leaves the latter unreachable.
pub proof fn lemma_step_preserves_thresholds(c: Counter, op: CounterOp)
    requires
        within_top_threshold(c),
        within_low_threshold(c),
        op matches CounterOp::UpdateTopThreshold(x) ==> (x >= 0 ==> c.val as int <= x as int),
        op matches CounterOp::Reset ==> c.low_threshold <= 0,
        op matches CounterOp::UpdateLowThreshold(x) ==> x as int <= c.val as int,
    ensures
        value_in_range(spec_step(c, op)),
        within_top_threshold(spec_step(c, op)),
        within_low_threshold(spec_step(c, op)),
{
}

/// Unconditionally, increment never raises the value above the upper
/// threshold: the new value stays at or below the larger of the old value
/// and the threshold.
pub proof fn lemma_increment_never_exceeds_threshold(c: Counter)
    ensures
        spec_increment(c).val as int <= max(c.val as int, c.top_threshold as int),
{
}

/// Unconditionally, decrement never lowers the value below the larger of
/// the lower threshold and zero: underflow of the unsigned value is
/// impossible even under a negative threshold.
pub proof fn lemma_decrement_never_underflows(c: Counter)
    ensures
        spec_decrement(c).val as int >= min(c.val as int, max(c.low_threshold as int, 0)),
        spec_decrement(c).val as int >= 0,
{
}

/// A reset followed by a read always yields zero, whatever the prior state
/// and threshold configuration.
pub proof fn lemma_reset_then_read_is_zero(c: Counter)
    ensures
        spec_reset(c).val == 0,
{
}

/// Idempotence at the ceiling: once the value has reached or passed the
/// upper threshold, increment leaves the state unchanged, on this and on
/// every subsequent call.
pub proof fn lemma_increment_idempotent_at_ceiling(c: Counter)
    requires
        c.val as int >= c.top_threshold as int,
    ensures
        spec_increment(c) == c,
        spec_increment(spec_increment(c)) == spec_increment(c),
{
}

/// Idempotence at the floor: once the value has reached or passed the lower
/// threshold, or sits at the implicit floor of zero, decrement leaves the
/// state unchanged, on this and on every subsequent call.
pub proof fn lemma_decrement_idempotent_at_floor(c: Counter)
    requires
        c.val as int <= c.low_threshold as int || c.val == 0,
    ensures
        spec_decrement(c) == c,
        spec_decrement(spec_decrement(c)) == spec_decrement(c),
{
}

/// Threshold updates are independent: setting one threshold changes neither
/// the other threshold nor the value.
pub proof fn lemma_threshold_updates_independent(c: Counter, x: i8, y: i8)
    ensures
        spec_update_top_threshold(c, x).low_threshold == c.low_threshold,
        spec_update_top_threshold(c, x).val == c.val,
        spec_update_top_threshold(c, x).top_threshold == x,
        spec_update_low_threshold(c, y).top_threshold == c.top_threshold,
        spec_update_low_threshold(c, y).val == c.val,
        spec_update_low_threshold(c, y).low_threshold == y,
{
}

} // verus!
