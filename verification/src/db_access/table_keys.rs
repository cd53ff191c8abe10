//! Access keys: how a stored key is judged, and how stored rows are listed.
use vstd::prelude::*;

verus! {

/// The verdict on an access key.
#[derive(PartialEq, Eq, Structural, Debug, Clone, Copy)]
pub enum KeyCheckResult {
    Valid,
    Expired,
    Revoked,
    Invalid,
}

/// What the key check reads of the row stored for a key.
#[derive(PartialEq, Eq, Structural, Debug, Clone, Copy)]
pub struct KeyRow {
    /// The instant the key stops opening the door.
    pub exp_date: i128,
    /// Non-zero once the key was revoked.
    pub revoked: i64,
}

/// A row of the keys table as it is stored.
#[derive(Debug)]
pub struct KeyRecord {
    pub id: i64,
    pub ukey: String,
    pub exp_date: i128,
    pub last_used: Option<i128>,
    pub n_used: i64,
    pub revoked: i64,
}

/// A key as the service lists it.
#[derive(Debug)]
pub struct UKey {
    pub id: i32,
    pub ukey: String,
    pub exp_date: i128,
    pub last_used: Option<i128>,
    pub n_used: i32,
    pub revoked: bool,
}

/// The verdict on a key whose stored row is `row` (`None`: no such key), at
/// `now`: a revoked key is revoked whatever its date; otherwise a key whose
/// expiry is before `now` has expired; otherwise it is valid.
pub open spec fn check_key_spec(row: Option<KeyRow>, now: int) -> KeyCheckResult {
    match row {
        Some(r) => if r.revoked != 0 {
            KeyCheckResult::Revoked
        } else if r.exp_date < now {
            KeyCheckResult::Expired
        } else {
            KeyCheckResult::Valid
        },
        None => KeyCheckResult::Invalid,
    }
}

/// `k` lists the stored row `r`: the counters narrowed to `i32`, the revoked
/// flag read as "non-zero".
pub open spec fn lists_record(k: UKey, r: KeyRecord) -> bool {
    &&& k.id == #[verifier::truncate] (r.id as i32)
    &&& k.ukey@ == r.ukey@
    &&& k.exp_date == r.exp_date
    &&& k.last_used == r.last_used
    &&& k.n_used == #[verifier::truncate] (r.n_used as i32)
    &&& k.revoked == (r.revoked != 0)
}

/// Judges a key from its stored row at `now`.
pub fn check_key(row: Option<KeyRow>, now: i128) -> (r: KeyCheckResult)
    ensures
        r == check_key_spec(row, now as int),
{
    match row {
        Some(stored) => if stored.revoked != 0 {
            KeyCheckResult::Revoked
        } else if stored.exp_date < now {
            KeyCheckResult::Expired
        } else {
            KeyCheckResult::Valid
        },
        None => KeyCheckResult::Invalid,
    }
}

/// Lists the stored rows, one key per row, in the order given.
pub fn select_keys(rows: &Vec<KeyRecord>) -> (keys: Vec<UKey>)
    ensures
        keys.len() == rows.len(),
        forall|i: int| 0 <= i < rows.len() ==> lists_record(#[trigger] keys[i], rows[i]),
        forall|i: int| 0 <= i < rows.len() ==> (#[trigger] keys[i]).revoked == (rows[i].revoked != 0),
        forall|i: int| 0 <= i < rows.len() ==> (#[trigger] keys[i]).ukey@ == rows[i].ukey@,
        forall|i: int| 0 <= i < rows.len() ==> (#[trigger] keys[i]).exp_date == rows[i].exp_date,
        forall|i: int| 0 <= i < rows.len() ==> (#[trigger] keys[i]).last_used == rows[i].last_used,
        forall|i: int| 0 <= i < rows.len() ==> (#[trigger] keys[i]).id == #[verifier::truncate] (rows[i].id as i32),
        forall|i: int| 0 <= i < rows.len() ==> (#[trigger] keys[i]).n_used == #[verifier::truncate] (rows[i].n_used as i32),
{
    let mut keys: Vec<UKey> = Vec::new();
    for i in 0..rows.len()
        invariant
            keys.len() == i,
            forall|j: int| 0 <= j < i ==> lists_record(#[trigger] keys[j], rows[j]),
    {
        let row = &rows[i];
        keys.push(
            UKey {
                id: #[verifier::truncate] (row.id as i32),
                ukey: row.ukey.clone(),
                exp_date: row.exp_date,
                last_used: row.last_used,
                n_used: #[verifier::truncate] (row.n_used as i32),
                revoked: row.revoked != 0,
            },
        );
    }
    keys
}

/// A revoked key is refused whatever its expiry, and a key that is neither
/// revoked nor expired opens the door; a key that is not stored is unknown.
pub proof fn lemma_revocation_takes_precedence(exp_date: i128, revoked: i64, now: int)
    ensures
        revoked != 0 ==> check_key_spec(Some(KeyRow { exp_date, revoked }), now)
            == KeyCheckResult::Revoked,
        revoked == 0 && exp_date >= now ==> check_key_spec(Some(KeyRow { exp_date, revoked }), now)
            == KeyCheckResult::Valid,
        revoked == 0 && exp_date < now ==> check_key_spec(Some(KeyRow { exp_date, revoked }), now)
            == KeyCheckResult::Expired,
        check_key_spec(None, now) == KeyCheckResult::Invalid,
{
}

/// A listed key is flagged revoked exactly when the key check refuses it as
/// revoked: for every stored value other than zero (a key revoked by storing 1
/// among them), and never for zero.
pub proof fn lemma_listed_revoked_agrees_with_check(k: UKey, r: KeyRecord, now: int)
    requires
        lists_record(k, r),
    ensures
        k.revoked <==> check_key_spec(Some(KeyRow { exp_date: r.exp_date, revoked: r.revoked }), now)
            == KeyCheckResult::Revoked,
        r.revoked == 1 ==> k.revoked,
        r.revoked == 0 ==> !k.revoked,
        k.ukey@ == r.ukey@,
        k.exp_date == r.exp_date,
        k.last_used == r.last_used,
{
}

} // verus!
