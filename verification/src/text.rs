//! The log lines that the mutating operations emit, rendered exactly as a
//! collaborator that captures them must match them: a fixed template with
//! the post-operation field value written in decimal.

use vstd::prelude::*;
use vstd::string::StringExecFns;
use crate::counter::Counter;

verus! {

/// The decimal digit character for `d < 10`.
pub open spec fn digit_char(d: nat) -> char {
    if d == 0 {
        '0'
    } else if d == 1 {
        '1'
    } else if d == 2 {
        '2'
    } else if d == 3 {
        '3'
    } else if d == 4 {
        '4'
    } else if d == 5 {
        '5'
    } else if d == 6 {
        '6'
    } else if d == 7 {
        '7'
    } else if d == 8 {
        '8'
    } else {
        '9'
    }
}

/// The decimal rendering of an unsigned value: most significant digit
/// first, no leading zeros except for the value zero itself.
pub open spec fn spec_unsigned_decimal(n: nat) -> Seq<char>
    decreases n,
{
    if n < 10 {
        seq![digit_char(n)]
    } else {
        spec_unsigned_decimal(n / 10) + seq![digit_char(n % 10)]
    }
}

/// The decimal rendering of a signed value: a minus sign before the
/// rendering of the magnitude when the value is negative.
pub open spec fn spec_signed_decimal(i: int) -> Seq<char> {
    if i < 0 {
        seq!['-'] + spec_unsigned_decimal((-i) as nat)
    } else {
        spec_unsigned_decimal(i as nat)
    }
}

fn push_digit(s: &mut String, d: u8)
    requires
        d < 10,
    ensures
        final(s)@ == old(s)@ + seq![digit_char(d as nat)],
{
    if d == 0 {
        proof {
            reveal_strlit("0");
        }
        s.append("0");
        assert(s@ =~= old(s)@ + seq![digit_char(d as nat)]);
    } else if d == 1 {
        proof {
            reveal_strlit("1");
        }
        s.append("1");
        assert(s@ =~= old(s)@ + seq![digit_char(d as nat)]);
    } else if d == 2 {
        proof {
            reveal_strlit("2");
        }
        s.append("2");
        assert(s@ =~= old(s)@ + seq![digit_char(d as nat)]);
    } else if d == 3 {
        proof {
            reveal_strlit("3");
        }
        s.append("3");
        assert(s@ =~= old(s)@ + seq![digit_char(d as nat)]);
    } else if d == 4 {
        proof {
            reveal_strlit("4");
        }
        s.append("4");
        assert(s@ =~= old(s)@ + seq![digit_char(d as nat)]);
    } else if d == 5 {
        proof {
            reveal_strlit("5");
        }
        s.append("5");
        assert(s@ =~= old(s)@ + seq![digit_char(d as nat)]);
    } else if d == 6 {
        proof {
            reveal_strlit("6");
        }
        s.append("6");
        assert(s@ =~= old(s)@ + seq![digit_char(d as nat)]);
    } else if d == 7 {
        proof {
            reveal_strlit("7");
        }
        s.append("7");
        assert(s@ =~= old(s)@ + seq![digit_char(d as nat)]);
    } else if d == 8 {
        proof {
            reveal_strlit("8");
        }
        s.append("8");
        assert(s@ =~= old(s)@ + seq![digit_char(d as nat)]);
    } else {
        proof {
            reveal_strlit("9");
        }
        s.append("9");
        assert(s@ =~= old(s)@ + seq![digit_char(d as nat)]);
    }
}

fn push_unsigned_decimal(s: &mut String, n: u16)
    ensures
        final(s)@ == old(s)@ + spec_unsigned_decimal(n as nat),
    decreases n,
{
    if n < 10 {
        push_digit(s, n as u8);
    } else {
        push_unsigned_decimal(s, n / 10);
        push_digit(s, (n % 10) as u8);
        assert(s@ =~= old(s)@ + spec_unsigned_decimal(n as nat));
    }
}

fn push_signed_decimal(s: &mut String, i: i8)
    ensures
        final(s)@ == old(s)@ + spec_signed_decimal(i as int),
{
    if i < 0 {
        proof {
            reveal_strlit("-");
        }
        s.append("-");
        let magnitude: u16 = (-(i as i32)) as u16;
        push_unsigned_decimal(s, magnitude);
        assert(s@ =~= old(s)@ + spec_signed_decimal(i as int));
    } else {
        push_unsigned_decimal(s, i as u16);
    }
}

/// The log line of a completed increment, over the post-operation value.
pub open spec fn spec_increment_message(c: Counter) -> Seq<char> {
    "Increased number to "@ + spec_unsigned_decimal(c.val as nat)
}

/// The log line of a completed decrement, over the post-operation value.
pub open spec fn spec_decrement_message(c: Counter) -> Seq<char> {
    "Decreased number to "@ + spec_unsigned_decimal(c.val as nat)
}

/// The log line of a reset.
pub open spec fn spec_reset_message() -> Seq<char> {
    "Reset counter to zero"@
}

/// The log line of an upper-threshold update, over the new threshold.
pub open spec fn spec_top_threshold_message(c: Counter) -> Seq<char> {
    "Update top threshold to "@ + spec_signed_decimal(c.top_threshold as int)
}

/// The log line of a lower-threshold update, over the new threshold.
pub open spec fn spec_low_threshold_message(c: Counter) -> Seq<char> {
    "Update low threshold to "@ + spec_signed_decimal(c.low_threshold as int)
}

impl Counter {
    /// The line to emit after `increment`, whether or not it moved the value.
    pub fn increment_message(&self) -> (r: String)
        ensures
            r@ == spec_increment_message(*self),
    {
        let mut s = String::from_str("Increased number to ");
        push_unsigned_decimal(&mut s, self.val);
        s
    }

    /// The line to emit after `decrement`, whether or not it moved the value.
    pub fn decrement_message(&self) -> (r: String)
        ensures
            r@ == spec_decrement_message(*self),
    {
        let mut s = String::from_str("Decreased number to ");
        push_unsigned_decimal(&mut s, self.val);
        s
    }

    /// The line to emit after `reset`.
    pub fn reset_message(&self) -> (r: String)
        ensures
            r@ == spec_reset_message(),
    {
        String::from_str("Reset counter to zero")
    }

    /// The line to emit after `update_top_threshold`.
    pub fn top_threshold_message(&self) -> (r: String)
        ensures
            r@ == spec_top_threshold_message(*self),
    {
        let mut s = String::from_str("Update top threshold to ");
        push_signed_decimal(&mut s, self.top_threshold);
        s
    }

    /// The line to emit after `update_low_threshold`.
    pub fn low_threshold_message(&self) -> (r: String)
        ensures
            r@ == spec_low_threshold_message(*self),
    {
        let mut s = String::from_str("Update low threshold to ");
        push_signed_decimal(&mut s, self.low_threshold);
        s
    }
}

} // verus!
