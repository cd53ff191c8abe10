//! Adding an access key, or refreshing the lifetime of one already stored.
use vstd::prelude::*;
use crate::api::plan::{gate_record, master_password_gate, Plan};
use crate::custom_error_mapper::APIError;
use crate::decimal::{decimal_text, format_i64};
use crate::db_access::table_keys::{check_key_spec, KeyCheckResult, KeyRow};
use crate::time::{shift, shift_spec, valid_instant};

verus! {

/// The parameters of the request; `duration` is the key's lifetime in seconds,
/// as `deserialize_duration` reads it from the request.
#[derive(Debug)]
pub struct KeyQueryParams {
    pub master_password: String,
    pub new_key: String,
    pub duration: i64,
}

/// The key to store, or whose expiry to replace (and revocation to lift).
#[derive(Debug)]
pub struct KeyUpsert {
    pub ukey: String,
    pub exp_date: i128,
}

/// Decides the request at `now`: with the right master password, record the
/// authorization and store `new_key` to expire `duration` seconds from `now`; with a
/// wrong one, record a counted failure and refuse as unauthorized.
pub fn add_key(params: &KeyQueryParams, configured_password: &String, now: i128) -> (p: Plan<KeyUpsert>)
    requires
        valid_instant(now as int),
    ensures
        p.record == gate_record(configured_password@, params.master_password@, true),
        configured_password@ == params.master_password@ ==> (p.outcome matches Ok(u)
            && u.ukey@ == params.new_key@
            && u.exp_date == shift_spec(now as int, params.duration as int)
            && u.exp_date == now + params.duration * 1_000_000_000),
        configured_password@ != params.master_password@ ==> p.outcome matches Err(APIError::Unauthorized),
{
    let (granted, record) = master_password_gate(configured_password, &params.master_password, true);
    if granted {
        let upsert = KeyUpsert { ukey: params.new_key.clone(), exp_date: shift(now, params.duration) };
        Plan { record, outcome: Ok(upsert) }
    } else {
        Plan { record, outcome: Err(APIError::Unauthorized) }
    }
}

/// The reply to a stored key: its id, narrowed to `i32`, in decimal.
pub fn add_key_reply(id: i64) -> (r: String)
    ensures
        r@ == decimal_text((#[verifier::truncate] (id as i32)) as int),
{
    let narrowed: i32 = #[verifier::truncate] (id as i32);
    format_i64(narrowed as i64)
}

/// The key that a granted request stores expires exactly `duration` seconds
/// after `now`, for every lifetime and every instant; a refused request stores
/// nothing.
pub proof fn lemma_added_key_expiry(now: i128, duration: i64, configured: Seq<char>, given: Seq<char>)
    ensures
        shift_spec(now as int, duration as int) == now + duration * 1_000_000_000,
        configured == given <==> gate_record(configured, given, true) == Some(
            crate::db_access::table_system::Attempt::Authorized,
        ),
{
}

/// A key stored (or refreshed, which lifts its revocation) by this request
/// opens the door from the moment it is stored until its expiry, and is
/// reported expired after it.
pub proof fn lemma_added_key_valid_until_expiry(now: i128, duration: i64, t: int)
    requires
        valid_instant(now as int),
    ensures
        ({
            let stored = KeyRow { exp_date: shift_spec(now as int, duration as int) as i128, revoked: 0 };
            &&& t <= shift_spec(now as int, duration as int) ==> check_key_spec(Some(stored), t)
                == KeyCheckResult::Valid
            &&& t > shift_spec(now as int, duration as int) ==> check_key_spec(Some(stored), t)
                == KeyCheckResult::Expired
        }),
{
}

} // verus!
