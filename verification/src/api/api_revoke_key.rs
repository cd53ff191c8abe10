//! Revoking one access key.
use vstd::prelude::*;
use crate::api::plan::{gate_record, master_password_gate, Plan};
use crate::custom_error_mapper::APIError;

verus! {

/// The parameters of the request.
#[derive(Debug)]
pub struct KeyQueryParams {
    pub master_password: String,
    pub key_to_revoke: String,
}

/// Decides the request: with the right master password, record the authorization and
/// revoke the key, answering the same whether or not such a key exists; with
/// a wrong one, record a counted failure and refuse.
pub fn revoke_key(params: &KeyQueryParams, configured_password: &String) -> (p: Plan<String>)
    ensures
        p.record == gate_record(configured_password@, params.master_password@, true),
        configured_password@ == params.master_password@ ==> (p.outcome matches Ok(k) && k@
            == params.key_to_revoke@),
        configured_password@ != params.master_password@ ==> p.outcome matches Err(APIError::Unauthorized),
{
    let (granted, record) = master_password_gate(configured_password, &params.master_password, true);
    if granted {
        Plan { record, outcome: Ok(params.key_to_revoke.clone()) }
    } else {
        Plan { record, outcome: Err(APIError::Unauthorized) }
    }
}

} // verus!
