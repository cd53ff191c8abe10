//! The system history: counters of openings and errors, and the brute-force
//! lockout. Each access attempt appends a new row computed from the latest one.
use vstd::prelude::*;
use crate::time::{shift, shift_spec, valid_instant};

verus! {

/// A lock is set once the count of failed attempts goes above this number.
pub const LOCK_AFTER_ATTEMPTS: i64 = 10;

/// How long a lock lasts, in seconds: fifteen minutes.
pub const LOCK_SECS: i64 = 900;

/// The latest row of the system table.
#[derive(PartialEq, Eq, Structural, Debug, Clone, Copy)]
pub struct SystemState {
    /// Times the door was opened.
    pub n_openings: i64,
    /// Failed attempts of any kind.
    pub n_errors: i64,
    /// Failed attempts that count toward the lock since the last opening or correct master password.
    pub n_attempts: i64,
    /// Instant of the last attempt, as stored.
    pub last_attempt: Option<i128>,
    /// The instant until which the door stays locked, if a lock was set.
    pub locked_until: Option<i128>,
}

/// The counters that the service shows.
#[derive(PartialEq, Eq, Structural, Debug, Clone, Copy)]
pub struct SystemCounter {
    pub n_openings: i32,
    pub n_errors: i32,
}

impl SystemState {
    /// A lock is only ever set after more than `LOCK_AFTER_ATTEMPTS` counted
    /// failures, and attempts are never negative.
    pub open spec fn well_formed(&self) -> bool {
        &&& self.n_attempts >= 0
        &&& self.locked_until is Some ==> self.n_attempts > LOCK_AFTER_ATTEMPTS
    }

    /// The door is locked at `now`.
    pub open spec fn locked_at(&self, now: int) -> bool {
        match self.locked_until {
            Some(until) => until > now,
            None => false,
        }
    }
}

/// The row that starts an empty system table.
pub open spec fn default_row() -> SystemState {
    SystemState {
        n_openings: 0,
        n_errors: 0,
        n_attempts: 0,
        last_attempt: None,
        locked_until: None,
    }
}

/// The row after the door was opened: one more opening, attempts reset, lock lifted.
pub open spec fn attempt_ok_spec(s: SystemState) -> SystemState {
    SystemState {
        n_openings: (s.n_openings + 1) as i64,
        n_errors: s.n_errors,
        n_attempts: 0,
        last_attempt: None,
        locked_until: None,
    }
}

/// The row after a correct master password: the counted attempts are reset and
/// the lock lifted; the openings and errors stay as they were.
pub open spec fn authorized_spec(s: SystemState) -> SystemState {
    SystemState {
        n_openings: s.n_openings,
        n_errors: s.n_errors,
        n_attempts: 0,
        last_attempt: None,
        locked_until: None,
    }
}

/// The row after a failed attempt at `now`: one more error; one more counted
/// attempt when `count_attempt`; and, once the counted attempts go above
/// `LOCK_AFTER_ATTEMPTS`, a lock for `LOCK_SECS` from `now`.
pub open spec fn attempt_failed_spec(s: SystemState, now: int, count_attempt: bool) -> SystemState {
    let attempts = if count_attempt {
        s.n_attempts + 1
    } else {
        s.n_attempts as int
    };
    SystemState {
        n_openings: s.n_openings,
        n_errors: (s.n_errors + 1) as i64,
        n_attempts: attempts as i64,
        last_attempt: s.last_attempt,
        locked_until: if attempts > LOCK_AFTER_ATTEMPTS {
            Some(shift_spec(now, LOCK_SECS as int) as i128)
        } else {
            s.locked_until
        },
    }
}

/// The outcome of an access attempt, as the system table records it.
#[derive(PartialEq, Eq, Structural, Debug, Clone, Copy)]
pub enum Attempt {
    /// The door was opened.
    Succeeded,
    /// A correct master password was given.
    Authorized,
    /// A refused attempt; `count_attempt` says whether it counts toward the lock.
    Failed { count_attempt: bool },
}

/// The row that follows `s` once `attempt` is recorded at `now`.
pub open spec fn record_spec(s: SystemState, attempt: Attempt, now: int) -> SystemState {
    match attempt {
        Attempt::Succeeded => attempt_ok_spec(s),
        Attempt::Authorized => authorized_spec(s),
        Attempt::Failed { count_attempt } => attempt_failed_spec(s, now, count_attempt),
    }
}

/// Recording `attempt` on `s` keeps every counter within `i64`.
pub open spec fn can_record(s: SystemState, attempt: Attempt) -> bool {
    match attempt {
        Attempt::Succeeded => s.n_openings < i64::MAX,
        Attempt::Authorized => true,
        Attempt::Failed { count_attempt } => s.n_errors < i64::MAX && (count_attempt
            ==> s.n_attempts < i64::MAX),
    }
}

/// The first row of the system table, written when the table is empty.
pub fn insert_default_row() -> (s: SystemState)
    ensures
        s == default_row(),
        s.well_formed(),
{
    SystemState { n_openings: 0, n_errors: 0, n_attempts: 0, last_attempt: None, locked_until: None }
}

/// The master password given matches the configured one.
pub fn check_master_password(configured: &String, given: &String) -> (ok: bool)
    ensures
        ok == (configured@ == given@),
{
    configured.eq(given)
}

/// The counters of a row, narrowed to `i32` as the service shows them.
pub fn get_system_counters(state: &SystemState) -> (c: SystemCounter)
    ensures
        c.n_openings == #[verifier::truncate] (state.n_openings as i32),
        c.n_errors == #[verifier::truncate] (state.n_errors as i32),
{
    SystemCounter {
        n_openings: #[verifier::truncate] (state.n_openings as i32),
        n_errors: #[verifier::truncate] (state.n_errors as i32),
    }
}

/// The next row after the door was opened.
pub fn handle_attempt_ok(state: &SystemState) -> (next: SystemState)
    requires
        state.n_openings < i64::MAX,
    ensures
        next == attempt_ok_spec(*state),
{
    SystemState {
        n_openings: state.n_openings + 1,
        n_errors: state.n_errors,
        n_attempts: 0,
        last_attempt: None,
        locked_until: None,
    }
}

/// The next row after a correct master password: attempts reset, lock lifted,
/// openings and errors unchanged.
pub fn handle_master_password_ok(state: &SystemState) -> (next: SystemState)
    ensures
        next == authorized_spec(*state),
{
    SystemState {
        n_openings: state.n_openings,
        n_errors: state.n_errors,
        n_attempts: 0,
        last_attempt: None,
        locked_until: None,
    }
}

/// The next row after a failed attempt at `now`; `count_attempt` says whether
/// the failure counts toward the lock.
pub fn handle_attempt_failed(state: &SystemState, now: i128, count_attempt: bool) -> (next: SystemState)
    requires
        state.n_errors < i64::MAX,
        count_attempt ==> state.n_attempts < i64::MAX,
        valid_instant(now as int),
    ensures
        next == attempt_failed_spec(*state, now as int, count_attempt),
{
    let attempts = if count_attempt {
        state.n_attempts + 1
    } else {
        state.n_attempts
    };
    let locked_until = if attempts > LOCK_AFTER_ATTEMPTS {
        Some(shift(now, LOCK_SECS))
    } else {
        state.locked_until
    };
    SystemState {
        n_openings: state.n_openings,
        n_errors: state.n_errors + 1,
        n_attempts: attempts,
        last_attempt: state.last_attempt,
        locked_until,
    }
}

/// The next row once `attempt` is recorded at `now`.
pub fn record_attempt(state: &SystemState, attempt: Attempt, now: i128) -> (next: SystemState)
    requires
        can_record(*state, attempt),
        valid_instant(now as int),
    ensures
        next == record_spec(*state, attempt, now as int),
{
    match attempt {
        Attempt::Succeeded => handle_attempt_ok(state),
        Attempt::Authorized => handle_master_password_ok(state),
        Attempt::Failed { count_attempt } => handle_attempt_failed(state, now, count_attempt),
    }
}

/// The door is locked at `now`: a lock is set and has not run out.
pub fn is_system_locked(state: &SystemState, now: i128) -> (locked: bool)
    ensures
        locked == state.locked_at(now as int),
{
    match state.locked_until {
        Some(until) => until > now,
        None => false,
    }
}

/// The row after counted failed attempts at each of the instants `times`, in order.
pub open spec fn after_failures(s: SystemState, times: Seq<int>) -> SystemState
    decreases times.len(),
{
    if times.len() == 0 {
        s
    } else {
        attempt_failed_spec(after_failures(s, times.drop_last()), times.last(), true)
    }
}

/// The first row is well formed, and every attempt, failed or successful, keeps
/// a row well formed: a lock never stands without more than
/// `LOCK_AFTER_ATTEMPTS` counted failures behind it.
pub proof fn lemma_attempts_keep_well_formed(s: SystemState, now: int, count_attempt: bool)
    requires
        s.well_formed(),
        s.n_attempts < i64::MAX,
        valid_instant(now),
    ensures
        default_row().well_formed(),
        attempt_ok_spec(s).well_formed(),
        authorized_spec(s).well_formed(),
        attempt_failed_spec(s, now, count_attempt).well_formed(),
{
}

/// An opening lifts the lock at every instant and resets the counted
/// attempts; it adds one opening and leaves the errors as they were.
pub proof fn lemma_success_unlocks(s: SystemState, t: int)
    requires
        s.n_openings < i64::MAX,
    ensures
        !attempt_ok_spec(s).locked_at(t),
        attempt_ok_spec(s).n_attempts == 0,
        attempt_ok_spec(s).n_openings == s.n_openings + 1,
        attempt_ok_spec(s).n_errors == s.n_errors,
        attempt_ok_spec(s).last_attempt is None,
        attempt_ok_spec(s).locked_until is None,
{
}

/// A correct master password lifts the lock at every instant and resets the
/// counted attempts; it leaves the openings and the errors as they were.
pub proof fn lemma_master_password_unlocks(s: SystemState, t: int)
    ensures
        !authorized_spec(s).locked_at(t),
        authorized_spec(s).locked_until is None,
        authorized_spec(s).last_attempt is None,
        authorized_spec(s).n_attempts == 0,
        authorized_spec(s).n_openings == s.n_openings,
        authorized_spec(s).n_errors == s.n_errors,
{
}

/// Recording any attempt never lowers the openings or the errors: along the
/// rows of the system table both counters only grow.
pub proof fn lemma_counters_never_decrease(s: SystemState, attempt: Attempt, now: int)
    requires
        can_record(s, attempt),
        valid_instant(now),
    ensures
        record_spec(s, attempt, now).n_openings >= s.n_openings,
        record_spec(s, attempt, now).n_errors >= s.n_errors,
{
}

/// A failed attempt adds one error and leaves the openings as they were; it adds
/// one counted attempt exactly when it counts.
pub proof fn lemma_failure_counts(s: SystemState, now: int, count_attempt: bool)
    requires
        s.n_errors < i64::MAX,
        s.n_attempts < i64::MAX,
    ensures
        attempt_failed_spec(s, now, count_attempt).n_errors == s.n_errors + 1,
        attempt_failed_spec(s, now, count_attempt).n_openings == s.n_openings,
        attempt_failed_spec(s, now, count_attempt).n_attempts == s.n_attempts + (if count_attempt { 1int } else { 0int }),
        attempt_failed_spec(s, now, count_attempt).last_attempt == s.last_attempt,
{
}

/// The lock in numbers: on a row without a lock, the tenth counted failure
/// leaves the door open, and the eleventh locks it for 900 seconds (fifteen
/// minutes) from its instant: locked up to the last nanosecond before, open from
/// then on.
pub proof fn lemma_eleventh_failure_locks_for_fifteen_minutes(s: SystemState, now: int)
    requires
        s.locked_until is None,
        s.n_attempts >= 0,
        valid_instant(now),
    ensures
        s.n_attempts == 9 ==> attempt_failed_spec(s, now, true).locked_until is None,
        s.n_attempts == 10 ==> attempt_failed_spec(s, now, true).locked_until == Some(
            (now + 900_000_000_000) as i128,
        ),
        s.n_attempts == 10 ==> attempt_failed_spec(s, now, true).locked_at(now + 899_999_999_999),
        s.n_attempts == 10 ==> !attempt_failed_spec(s, now, true).locked_at(now + 900_000_000_000),
        s.n_attempts <= 10 ==> attempt_failed_spec(s, now, false).locked_until is None,
{
}

/// What each recorded attempt does to the counters: an opening adds one
/// opening and a correct master password adds nothing, both resetting the
/// counted attempts and lifting the lock; a failure adds one error, and one
/// counted attempt exactly when it counts.
pub proof fn lemma_record_counters(s: SystemState, attempt: Attempt, now: int)
    requires
        can_record(s, attempt),
        s.n_attempts < i64::MAX,
        valid_instant(now),
    ensures
        attempt == Attempt::Succeeded ==> record_spec(s, attempt, now).n_openings == s.n_openings + 1
            && record_spec(s, attempt, now).n_errors == s.n_errors
            && record_spec(s, attempt, now).n_attempts == 0
            && record_spec(s, attempt, now).locked_until is None,
        attempt == Attempt::Authorized ==> record_spec(s, attempt, now).n_openings == s.n_openings
            && record_spec(s, attempt, now).n_errors == s.n_errors
            && record_spec(s, attempt, now).n_attempts == 0
            && record_spec(s, attempt, now).locked_until is None,
        attempt is Failed ==> record_spec(s, attempt, now).n_openings == s.n_openings
            && record_spec(s, attempt, now).n_errors == s.n_errors + 1,
        attempt == (Attempt::Failed { count_attempt: true }) ==> record_spec(s, attempt, now).n_attempts
            == s.n_attempts + 1,
        attempt == (Attempt::Failed { count_attempt: false }) ==> record_spec(s, attempt, now).n_attempts
            == s.n_attempts,
{
}

/// Once the counted attempts go above `LOCK_AFTER_ATTEMPTS`, every further
/// failure locks the door for exactly `LOCK_SECS` from its instant: locked
/// before that deadline, open from it on.
pub proof fn lemma_failure_above_threshold_locks(s: SystemState, now: int, count_attempt: bool, t: int)
    requires
        s.n_attempts < i64::MAX,
        valid_instant(now),
        s.n_attempts + (if count_attempt { 1int } else { 0int }) > LOCK_AFTER_ATTEMPTS,
    ensures
        attempt_failed_spec(s, now, count_attempt).locked_until == Some(shift_spec(now, LOCK_SECS as int) as i128),
        attempt_failed_spec(s, now, count_attempt).locked_at(t) <==> t < shift_spec(now, LOCK_SECS as int),
        now <= t < shift_spec(now, LOCK_SECS as int) ==> attempt_failed_spec(s, now, count_attempt).locked_at(t),
{
}

/// While no more than `LOCK_AFTER_ATTEMPTS` counted failures stand, a failure
/// sets no lock on a well-formed row: the door stays open.
pub proof fn lemma_failure_below_threshold_stays_open(s: SystemState, now: int, count_attempt: bool, t: int)
    requires
        s.well_formed(),
        s.n_attempts + (if count_attempt { 1int } else { 0int }) <= LOCK_AFTER_ATTEMPTS,
    ensures
        attempt_failed_spec(s, now, count_attempt).locked_until is None,
        !attempt_failed_spec(s, now, count_attempt).locked_at(t),
{
}

/// From a row with no counted attempts (the first row, or any row after a
/// opening or correct master password), a run of `k` counted failures leaves `k` counted attempts and `k`
/// more errors, and the door is locked after the last of them exactly when
/// `k > LOCK_AFTER_ATTEMPTS`, then for `LOCK_SECS` from that last failure.
pub proof fn lemma_failure_run(s: SystemState, times: Seq<int>)
    requires
        s.well_formed(),
        s.n_attempts == 0,
        s.n_errors + times.len() <= i64::MAX,
        times.len() <= i64::MAX,
        forall|i: int| 0 <= i < times.len() ==> valid_instant(#[trigger] times[i]),
    ensures
        after_failures(s, times).well_formed(),
        after_failures(s, times).n_attempts == times.len(),
        after_failures(s, times).n_errors == s.n_errors + times.len(),
        after_failures(s, times).n_openings == s.n_openings,
        times.len() <= LOCK_AFTER_ATTEMPTS ==> after_failures(s, times).locked_until is None,
        times.len() > LOCK_AFTER_ATTEMPTS ==> after_failures(s, times).locked_until
            == Some(shift_spec(times.last(), LOCK_SECS as int) as i128),
        times.len() > 0 ==> (after_failures(s, times).locked_at(times.last())
            <==> times.len() > LOCK_AFTER_ATTEMPTS),
        times.len() > LOCK_AFTER_ATTEMPTS ==> forall|t: int|
            #[trigger] after_failures(s, times).locked_at(t) <==> t < shift_spec(
                times.last(),
                LOCK_SECS as int,
            ),
    decreases times.len(),
{
    if times.len() > 0 {
        let rest = times.drop_last();
        assert forall|i: int| 0 <= i < rest.len() implies valid_instant(#[trigger] rest[i]) by {
            assert(rest[i] == times[i]);
        }
        lemma_failure_run(s, rest);
        assert(valid_instant(times[times.len() - 1]));
    }
}

} // verus!
