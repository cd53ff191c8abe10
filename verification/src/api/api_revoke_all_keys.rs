//! Revoking every access key at once, which locks everyone out.
use vstd::prelude::*;
use crate::api::plan::{gate_record, master_password_gate, Plan};
use crate::custom_error_mapper::APIError;

verus! {

/// The parameters of the request.
#[derive(Debug)]
pub struct KeyQueryParams {
    pub master_password: String,
}

/// Decides the request: with the right master password, record the authorization and
/// revoke every key; with a wrong one, refuse without recording a failure.
pub fn revoke_all_keys(params: &KeyQueryParams, configured_password: &String) -> (p: Plan<()>)
    ensures
        p.record == gate_record(configured_password@, params.master_password@, false),
        configured_password@ == params.master_password@ ==> p.outcome is Ok,
        configured_password@ != params.master_password@ ==> p.outcome matches Err(APIError::Unauthorized),
{
    let (granted, record) = master_password_gate(configured_password, &params.master_password, false);
    if granted {
        Plan { record, outcome: Ok(()) }
    } else {
        Plan { record, outcome: Err(APIError::Unauthorized) }
    }
}

} // verus!
