//! A persisted counter with configurable saturation bounds.
//!
//! The counter holds an unsigned value together with a signed upper and lower
//! threshold. Increment and decrement saturate at the thresholds instead of
//! failing: at a bound they are silent no-ops, so callers may always call
//! them blindly. All bound checks are performed in a common signed domain
//! wide enough for both the unsigned value and the signed thresholds, so a
//! negative threshold can never make the unsigned value wrap.
//!
//! Each mutating operation has a human-readable log line; the [`text`]
//! module renders those lines so a host runtime only has to emit them.

pub mod counter;
pub mod laws;
pub mod text;
