//! Listing the latest entries of the request log.
use vstd::prelude::*;
use crate::api::plan::{gate_record, master_password_gate, Plan};
use crate::custom_error_mapper::APIError;

verus! {

/// How many log entries are listed when the request names no limit.
pub const DEFAULT_LOG_LIMIT: i64 = 10000;

/// The parameters of the request.
#[derive(Debug)]
pub struct KeyQueryParams {
    pub master_password: String,
    pub limit: Option<i64>,
}

/// The number of entries to list: the limit asked for, else `DEFAULT_LOG_LIMIT`.
pub open spec fn effective_limit(limit: Option<i64>) -> i64 {
    match limit {
        Some(n) => n,
        None => DEFAULT_LOG_LIMIT,
    }
}

/// Decides the request: with the right master password, record the authorization and
/// list the latest entries up to the limit; with a wrong one, record a counted
/// failure and refuse.
pub fn list_logs(params: &KeyQueryParams, configured_password: &String) -> (p: Plan<i64>)
    ensures
        p.record == gate_record(configured_password@, params.master_password@, true),
        configured_password@ == params.master_password@ ==> p.outcome == Ok::<i64, APIError>(
            effective_limit(params.limit),
        ),
        configured_password@ == params.master_password@ && params.limit is Some ==> p.outcome
            == Ok::<i64, APIError>(params.limit->0),
        configured_password@ == params.master_password@ && params.limit is None ==> p.outcome
            == Ok::<i64, APIError>(10000),
        configured_password@ != params.master_password@ ==> p.outcome matches Err(APIError::Unauthorized),
{
    let (granted, record) = master_password_gate(configured_password, &params.master_password, true);
    if granted {
        let limit = match params.limit {
            Some(n) => n,
            None => DEFAULT_LOG_LIMIT,
        };
        Plan { record, outcome: Ok(limit) }
    } else {
        Plan { record, outcome: Err(APIError::Unauthorized) }
    }
}

/// A limit that the request names is used unchanged, whatever its value; only
/// a missing limit becomes 10000.
pub proof fn lemma_limit_passed_unchanged(n: i64)
    ensures
        effective_limit(Some(n)) == n,
        effective_limit(None) == 10000,
{
}

} // verus!
