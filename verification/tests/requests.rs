use portonet::api::api_add_key::{add_key, add_key_reply, KeyQueryParams as AddKeyParams};
use portonet::api::api_list_keys::{list_keys, KeyQueryParams as ListKeysParams};
use portonet::api::api_list_logs::{list_logs, KeyQueryParams as ListLogsParams, DEFAULT_LOG_LIMIT};
use portonet::api::api_open_door::{open_door, DoorAction, DoorEvent, DoorPhase};
use portonet::api::api_revoke_all_keys::{revoke_all_keys, KeyQueryParams as RevokeAllParams};
use portonet::api::api_revoke_key::{revoke_key, KeyQueryParams as RevokeParams};
use portonet::custom_error_mapper::APIError;
use portonet::db_access::table_keys::{check_key, KeyCheckResult, KeyRow};
use portonet::db_access::table_system::{is_system_locked, record_attempt, Attempt, SystemState};
use portonet::time::NANOS_PER_SEC;

fn pw() -> String {
    String::from("master")
}

#[test]
fn add_key_with_right_password() {
    let params = AddKeyParams { master_password: pw(), new_key: "k1".into(), duration: 3600 };
    let plan = add_key(&params, &pw(), 100);
    assert_eq!(plan.record, Some(Attempt::Authorized));
    let upsert = plan.outcome.unwrap();
    assert_eq!(upsert.ukey, "k1");
    assert_eq!(upsert.exp_date, 100 + 3600 * NANOS_PER_SEC);
}

#[test]
fn add_key_with_wrong_password() {
    let params = AddKeyParams { master_password: "nope".into(), new_key: "k1".into(), duration: 3600 };
    let plan = add_key(&params, &pw(), 100);
    assert_eq!(plan.record, Some(Attempt::Failed { count_attempt: true }));
    assert!(matches!(plan.outcome, Err(APIError::Unauthorized)));
}

#[test]
fn add_key_reply_is_decimal_id() {
    assert_eq!(add_key_reply(42), "42");
    assert_eq!(add_key_reply((1i64 << 32) + 7), "7");
    assert_eq!(add_key_reply(-3), "-3");
}

#[test]
fn list_keys_gate() {
    let ok = list_keys(&ListKeysParams { master_password: pw() }, &pw());
    assert_eq!(ok.record, Some(Attempt::Authorized));
    assert!(ok.outcome.is_ok());
    let bad = list_keys(&ListKeysParams { master_password: "x".into() }, &pw());
    assert_eq!(bad.record, Some(Attempt::Failed { count_attempt: true }));
    assert!(matches!(bad.outcome, Err(APIError::Unauthorized)));
}

#[test]
fn list_logs_limit() {
    let default = list_logs(&ListLogsParams { master_password: pw(), limit: None }, &pw());
    assert_eq!(default.outcome.unwrap(), 10000);
    assert_eq!(DEFAULT_LOG_LIMIT, 10000);
    let five = list_logs(&ListLogsParams { master_password: pw(), limit: Some(5) }, &pw());
    assert_eq!(five.outcome.unwrap(), 5);
    let bad = list_logs(&ListLogsParams { master_password: "no".into(), limit: Some(5) }, &pw());
    assert_eq!(bad.record, Some(Attempt::Failed { count_attempt: true }));
    assert!(matches!(bad.outcome, Err(APIError::Unauthorized)));
}

#[test]
fn revoke_key_gate() {
    let ok = revoke_key(&RevokeParams { master_password: pw(), key_to_revoke: "k9".into() }, &pw());
    assert_eq!(ok.record, Some(Attempt::Authorized));
    assert_eq!(ok.outcome.unwrap(), "k9");
    let bad = revoke_key(&RevokeParams { master_password: "".into(), key_to_revoke: "k9".into() }, &pw());
    assert_eq!(bad.record, Some(Attempt::Failed { count_attempt: true }));
    assert!(matches!(bad.outcome, Err(APIError::Unauthorized)));
}

#[test]
fn revoke_all_keys_records_no_failure() {
    let ok = revoke_all_keys(&RevokeAllParams { master_password: pw() }, &pw());
    assert_eq!(ok.record, Some(Attempt::Authorized));
    assert!(ok.outcome.is_ok());
    let bad = revoke_all_keys(&RevokeAllParams { master_password: "x".into() }, &pw());
    assert_eq!(bad.record, None);
    assert!(matches!(bad.outcome, Err(APIError::Unauthorized)));
}

#[test]
fn error_replies() {
    let cases = vec![
        (APIError::SqlxError("boom".into()), 500, "DB error: boom"),
        (APIError::Unauthorized, 401, "Wrong Master Password"),
        (APIError::NotFound, 404, "Wrong access key"),
        (APIError::Expired, 408, "Key Expired"),
        (APIError::Revoked, 410, "Key Revoked"),
        (APIError::Locked, 423, "Too many failed attempts"),
        (APIError::EnvError("URL_HOME_ASSISTANT not set".into()), 500, "URL_HOME_ASSISTANT not set"),
        (APIError::HomeAssistantError, 502, "Home Assistant request failed"),
    ];
    for (e, status, body) in cases {
        let r = e.into_response();
        assert_eq!(r.status, status);
        assert_eq!(r.body, body);
    }
}

fn finish(action: DoorAction) -> (Option<Attempt>, Result<(), APIError>) {
    match action {
        DoorAction::Finish { record, reply } => (record, reply),
        other => panic!("expected a finish, got {other:?}"),
    }
}

#[test]
fn door_opens_for_valid_key() {
    let (p, a) = open_door(DoorPhase::Start, DoorEvent::Begin);
    assert_eq!(p, DoorPhase::AwaitingLock);
    assert!(matches!(a, DoorAction::CheckLock));
    let (p, a) = open_door(p, DoorEvent::LockRead(false));
    assert_eq!(p, DoorPhase::AwaitingKey);
    assert!(matches!(a, DoorAction::CheckKey));
    let (p, a) = open_door(p, DoorEvent::KeyRead(KeyCheckResult::Valid));
    assert_eq!(p, DoorPhase::AwaitingHomeAssistant);
    assert!(matches!(a, DoorAction::CallHomeAssistant));
    let (p, a) = open_door(p, DoorEvent::HomeAssistantReplied(Some(200)));
    assert_eq!(p, DoorPhase::Finished);
    let (record, reply) = finish(a);
    assert_eq!(record, Some(Attempt::Succeeded));
    assert!(reply.is_ok());
}

#[test]
fn door_locked() {
    let (p, a) = open_door(DoorPhase::AwaitingLock, DoorEvent::LockRead(true));
    assert_eq!(p, DoorPhase::Finished);
    let (record, reply) = finish(a);
    assert_eq!(record, None);
    assert!(matches!(reply, Err(APIError::Locked)));
}

#[test]
fn door_refused_keys() {
    let cases = [
        (KeyCheckResult::Expired, false),
        (KeyCheckResult::Revoked, false),
        (KeyCheckResult::Invalid, true),
    ];
    for (verdict, counts) in cases {
        let (p, a) = open_door(DoorPhase::AwaitingKey, DoorEvent::KeyRead(verdict));
        assert_eq!(p, DoorPhase::Finished);
        let (record, reply) = finish(a);
        assert_eq!(record, Some(Attempt::Failed { count_attempt: counts }));
        match verdict {
            KeyCheckResult::Expired => assert!(matches!(reply, Err(APIError::Expired))),
            KeyCheckResult::Revoked => assert!(matches!(reply, Err(APIError::Revoked))),
            _ => assert!(matches!(reply, Err(APIError::NotFound))),
        }
    }
}

#[test]
fn door_home_assistant_failures() {
    for status in [None, Some(199), Some(300), Some(401), Some(500)] {
        let (_, a) = open_door(DoorPhase::AwaitingHomeAssistant, DoorEvent::HomeAssistantReplied(status));
        let (record, reply) = finish(a);
        assert_eq!(record, None);
        assert!(matches!(reply, Err(APIError::HomeAssistantError)));
    }
    let (_, a) = open_door(DoorPhase::AwaitingHomeAssistant, DoorEvent::HomeAssistantReplied(Some(299)));
    assert_eq!(finish(a).0, Some(Attempt::Succeeded));
}

#[test]
fn door_aborts() {
    let (p, a) = open_door(DoorPhase::AwaitingKey, DoorEvent::Aborted(APIError::SqlxError("gone".into())));
    assert_eq!(p, DoorPhase::Finished);
    let (record, reply) = finish(a);
    assert_eq!(record, None);
    assert!(matches!(reply, Err(APIError::SqlxError(m)) if m == "gone"));
}

#[test]
fn added_key_opens_until_expiry() {
    let params = AddKeyParams { master_password: pw(), new_key: "guest".into(), duration: 86400 };
    let now: i128 = 5 * NANOS_PER_SEC;
    let upsert = add_key(&params, &pw(), now).outcome.unwrap();
    let stored = KeyRow { exp_date: upsert.exp_date, revoked: 0 };
    assert_eq!(check_key(Some(stored), now), KeyCheckResult::Valid);
    assert_eq!(check_key(Some(stored), now + 86400 * NANOS_PER_SEC), KeyCheckResult::Valid);
    assert_eq!(check_key(Some(stored), now + 86400 * NANOS_PER_SEC + 1), KeyCheckResult::Expired);
}

fn recorded(verdict: KeyCheckResult) -> Attempt {
    match open_door(DoorPhase::AwaitingKey, DoorEvent::KeyRead(verdict)).1 {
        DoorAction::Finish { record: Some(a), .. } => a,
        other => panic!("expected a recorded failure, got {other:?}"),
    }
}

#[test]
fn key_guessing_locks_the_door() {
    let now: i128 = 1_000 * NANOS_PER_SEC;
    let ten = SystemState { n_openings: 0, n_errors: 10, n_attempts: 10, last_attempt: None, locked_until: None };
    let after_unknown = record_attempt(&ten, recorded(KeyCheckResult::Invalid), now);
    assert!(is_system_locked(&after_unknown, now));
    let after_expired = record_attempt(&ten, recorded(KeyCheckResult::Expired), now);
    assert!(!is_system_locked(&after_expired, now));
    let after_revoked = record_attempt(&ten, recorded(KeyCheckResult::Revoked), now);
    assert!(!is_system_locked(&after_revoked, now));
}
