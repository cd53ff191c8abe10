//! The decision on a request guarded by the master password.
use vstd::prelude::*;
use crate::custom_error_mapper::APIError;
use crate::db_access::table_system::{check_master_password, Attempt};

verus! {

/// What a request does: the attempt to record in the system table, if any,
/// and either the work to carry out or the error to answer with.
#[derive(Debug)]
pub struct Plan<T> {
    pub record: Option<Attempt>,
    pub outcome: Result<T, APIError>,
}

/// The attempt that a master-password check records: an authorization (which
/// resets the counted attempts and lifts the lock) for the right password; for a wrong one a counted failure when `record_failure`, else nothing.
pub open spec fn gate_record(configured: Seq<char>, given: Seq<char>, record_failure: bool) -> Option<Attempt> {
    if configured == given {
        Some(Attempt::Authorized)
    } else if record_failure {
        Some(Attempt::Failed { count_attempt: true })
    } else {
        None
    }
}

/// Checks the master password and says what to record: `(granted, record)`.
pub fn master_password_gate(configured: &String, given: &String, record_failure: bool) -> (r: (bool, Option<Attempt>))
    ensures
        r.0 == (configured@ == given@),
        r.1 == gate_record(configured@, given@, record_failure),
        configured@ == given@ ==> r.1 == Some(Attempt::Authorized),
        configured@ != given@ && record_failure ==> r.1 == Some(Attempt::Failed { count_attempt: true }),
        configured@ != given@ && !record_failure ==> r.1 is None,
{
    if check_master_password(configured, given) {
        (true, Some(Attempt::Authorized))
    } else if record_failure {
        (false, Some(Attempt::Failed { count_attempt: true }))
    } else {
        (false, None)
    }
}

/// The right master password always records an authorization; a wrong one,
/// whatever its text, is never granted and, where failures are recorded,
/// always records a failure that counts toward the lock (else nothing).
pub proof fn lemma_gate_counts_every_wrong_password(configured: Seq<char>, given: Seq<char>, record_failure: bool)
    ensures
        configured == given ==> gate_record(configured, given, record_failure) == Some(Attempt::Authorized),
        configured != given && record_failure ==> gate_record(configured, given, record_failure) == Some(
            Attempt::Failed { count_attempt: true },
        ),
        configured != given && !record_failure ==> gate_record(configured, given, record_failure) is None,
        gate_record(configured, given, true) != Some(Attempt::Failed { count_attempt: false }),
{
}

} // verus!
