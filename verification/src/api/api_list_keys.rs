//! Listing the access keys.
use vstd::prelude::*;
use crate::api::plan::{gate_record, master_password_gate, Plan};
use crate::custom_error_mapper::APIError;

verus! {

/// The parameters of the request.
#[derive(Debug)]
pub struct KeyQueryParams {
    pub master_password: String,
}

/// Decides the request: with the right master password, record the authorization and
/// list the keys; with a wrong one, record a counted failure and refuse.
pub fn list_keys(params: &KeyQueryParams, configured_password: &String) -> (p: Plan<()>)
    ensures
        p.record == gate_record(configured_password@, params.master_password@, true),
        configured_password@ == params.master_password@ ==> p.outcome is Ok,
        configured_password@ != params.master_password@ ==> p.outcome matches Err(APIError::Unauthorized),
{
    let (granted, record) = master_password_gate(configured_password, &params.master_password, true);
    if granted {
        Plan { record, outcome: Ok(()) }
    } else {
        Plan { record, outcome: Err(APIError::Unauthorized) }
    }
}

} // verus!
