//! Instants and spans of time as plain integers.
use vstd::prelude::*;

verus! {

/// Nanoseconds in a second.
pub const NANOS_PER_SEC: i128 = 1_000_000_000;

/// A bound on the magnitude of instants, in nanoseconds since the Unix epoch:
/// wider than the whole calendar that chrono's `NaiveDateTime` covers (years
/// -262143 to 262142), so every instant read from the database or the clock
/// lies within it.
pub const INSTANT_BOUND: i128 = 10_000_000_000_000_000_000_000;

/// Instants are counted in nanoseconds since 1970-01-01 00:00:00 UTC; `t` is one
/// that the calendar can hold.
pub open spec fn valid_instant(t: int) -> bool {
    -INSTANT_BOUND <= t && t <= INSTANT_BOUND
}

/// The instant `secs` seconds after `t` (before it, for a negative `secs`).
pub open spec fn shift_spec(t: int, secs: int) -> int {
    t + secs * NANOS_PER_SEC
}

/// The instant `secs` seconds after `t`, as `DateTime + TimeDelta` computes it.
pub fn shift(t: i128, secs: i64) -> (r: i128)
    requires
        valid_instant(t as int),
    ensures
        r == shift_spec(t as int, secs as int),
        r == t + secs * 1_000_000_000,
{
    t + (secs as i128) * NANOS_PER_SEC
}

/// Shifting an instant by `secs` seconds moves it by exactly `secs` times a
/// billion nanoseconds, whatever the sign or size of `secs`; so shifts add up,
/// and a shift by zero leaves the instant where it was.
pub proof fn lemma_shift_is_exact(t: int, secs: int, more: int)
    ensures
        shift_spec(t, secs) == t + secs * 1_000_000_000,
        shift_spec(shift_spec(t, secs), more) == shift_spec(t, secs + more),
        shift_spec(t, 0) == t,
        shift_spec(t, secs) - t == shift_spec(t, secs + 1) - t - 1_000_000_000,
{
    assert((secs + more) * 1_000_000_000 == secs * 1_000_000_000 + more * 1_000_000_000) by (nonlinear_arith);
    assert((secs + 1) * 1_000_000_000 == secs * 1_000_000_000 + 1_000_000_000) by (nonlinear_arith);
}

} // verus!
