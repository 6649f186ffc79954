//! The counter state machine: the stored fields, the bound-checked
//! transition of each operation, and the invariants that hold across
//! arbitrary call sequences.

use vstd::prelude::*;

verus! {

/// A value-bounded register: an unsigned counter value plus two signed,
/// independently configurable thresholds. The thresholds are not required
/// to satisfy `low_threshold <= top_threshold`; an inverted configuration
/// is representable and simply leaves the counter saturated in both
/// directions.
#[derive(Clone, Copy, PartialEq, Eq, Structural)]
pub struct Counter {
    pub val: u16,
    pub top_threshold: i8,
    pub low_threshold: i8,
}

/// The state of a fresh storage slot: all fields zero.
pub open spec fn default_counter() -> Counter {
    Counter { val: 0, top_threshold: 0, low_threshold: 0 }
}

impl Default for Counter {
    fn default() -> (c: Counter)
        ensures
            c == default_counter(),
    {
        Counter { val: 0, top_threshold: 0, low_threshold: 0 }
    }
}

/// Increment moves the value only while it is strictly below the upper
/// threshold, compared in the common signed domain.
pub open spec fn can_increment(c: Counter) -> bool {
    (c.val as int) < (c.top_threshold as int)
}

pub open spec fn spec_increment(c: Counter) -> Counter {
    if can_increment(c) {
        Counter { val: (c.val + 1) as u16, top_threshold: c.top_threshold, low_threshold: c.low_threshold }
    } else {
        c
    }
}

/// Decrement moves the value only while it is strictly above the lower
/// threshold and strictly above zero: zero is an implicit floor, since the
/// value is unsigned and a negative threshold can never be reached.
pub open spec fn can_decrement(c: Counter) -> bool {
    c.val > 0 && (c.val as int) > (c.low_threshold as int)
}

pub open spec fn spec_decrement(c: Counter) -> Counter {
    if can_decrement(c) {
        Counter { val: (c.val - 1) as u16, top_threshold: c.top_threshold, low_threshold: c.low_threshold }
    } else {
        c
    }
}

pub open spec fn spec_reset(c: Counter) -> Counter {
    Counter { val: 0, top_threshold: c.top_threshold, low_threshold: c.low_threshold }
}

pub open spec fn spec_update_top_threshold(c: Counter, value: i8) -> Counter {
    Counter { val: c.val, top_threshold: value, low_threshold: c.low_threshold }
}

pub open spec fn spec_update_low_threshold(c: Counter, value: i8) -> Counter {
    Counter { val: c.val, top_threshold: c.top_threshold, low_threshold: value }
}

impl Counter {
    /// Returns the counter value. No mutation; never fails.
    pub fn get_num(&self) -> (r: u16)
        ensures
            r == self.val,
    {
        self.val
    }

    /// Increment the counter: one step up when strictly below the upper
    /// threshold, otherwise a silent no-op (a saturating clamp, not an
    /// error). The comparison widens both operands to a common signed
    /// domain, so the addition can never overflow.
    pub fn increment(&mut self)
        ensures
            *final(self) == spec_increment(*old(self)),
    {
        if (self.val as i32) < (self.top_threshold as i32) {
            self.val = self.val + 1;
        }
    }

    /// Decrement the counter: one step down when strictly above both the
    /// lower threshold and zero, otherwise a silent no-op. The widened
    /// comparison plus the explicit floor at zero make underflow of the
    /// unsigned value structurally impossible, even under a negative
    /// lower threshold.
    pub fn decrement(&mut self)
        ensures
            *final(self) == spec_decrement(*old(self)),
    {
        if self.val > 0 && (self.val as i32) > (self.low_threshold as i32) {
            self.val = self.val - 1;
        }
    }

    /// Reset the value to zero, unconditionally, whatever the thresholds.
    pub fn reset(&mut self)
        ensures
            *final(self) == spec_reset(*old(self)),
    {
        self.val = 0;
    }

    /// Replace the upper threshold. Accepts any signed value: there is no
    /// cross-validation against the lower threshold or the current value.
    pub fn update_top_threshold(&mut self, value: i8)
        ensures
            *final(self) == spec_update_top_threshold(*old(self), value),
    {
        self.top_threshold = value;
    }

    /// Replace the lower threshold. Accepts any signed value: there is no
    /// cross-validation against the upper threshold or the current value.
    pub fn update_low_threshold(&mut self, value: i8)
        ensures
            *final(self) == spec_update_low_threshold(*old(self), value),
    {
        self.low_threshold = value;
    }
}

} // verus!
