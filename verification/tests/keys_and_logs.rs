use portonet::db_access::table_keys::{check_key, select_keys, KeyCheckResult, KeyRecord, KeyRow};
use portonet::db_access::table_logs::{select_logs, LogRecord};

const NOW: i128 = 1_000_000;

#[test]
fn check_key_verdicts() {
    assert_eq!(check_key(None, NOW), KeyCheckResult::Invalid);
    assert_eq!(check_key(Some(KeyRow { exp_date: NOW + 1, revoked: 0 }), NOW), KeyCheckResult::Valid);
    assert_eq!(check_key(Some(KeyRow { exp_date: NOW, revoked: 0 }), NOW), KeyCheckResult::Valid);
    assert_eq!(check_key(Some(KeyRow { exp_date: NOW - 1, revoked: 0 }), NOW), KeyCheckResult::Expired);
    assert_eq!(check_key(Some(KeyRow { exp_date: NOW + 1, revoked: 1 }), NOW), KeyCheckResult::Revoked);
    // Revocation wins over expiry.
    assert_eq!(check_key(Some(KeyRow { exp_date: NOW - 1, revoked: 7 }), NOW), KeyCheckResult::Revoked);
}

#[test]
fn select_keys_lists_rows() {
    let rows = vec![
        KeyRecord { id: 1, ukey: "abc".into(), exp_date: 10, last_used: None, n_used: 0, revoked: 0 },
        KeyRecord { id: (1i64 << 32) + 2, ukey: "def".into(), exp_date: 20, last_used: Some(15), n_used: 3, revoked: 2 },
    ];
    let keys = select_keys(&rows);
    assert_eq!(keys.len(), 2);
    assert_eq!(keys[0].id, 1);
    assert_eq!(keys[0].ukey, "abc");
    assert!(!keys[0].revoked);
    assert_eq!(keys[1].id, 2);
    assert_eq!(keys[1].exp_date, 20);
    assert_eq!(keys[1].last_used, Some(15));
    assert_eq!(keys[1].n_used, 3);
    assert!(keys[1].revoked);
    assert!(select_keys(&Vec::new()).is_empty());
}

#[test]
fn select_logs_lists_rows() {
    let rows = vec![
        LogRecord { id: 9, api_name: "open_door".into(), request_date: 5, params: Some("{\"u_key\":\"x\"}".into()) },
        LogRecord { id: 8, api_name: "get_counters".into(), request_date: 4, params: None },
    ];
    let logs = select_logs(&rows);
    assert_eq!(logs.len(), 2);
    assert_eq!(logs[0].id, 9);
    assert_eq!(logs[0].api_name, "open_door");
    assert_eq!(logs[0].params.as_deref(), Some("{\"u_key\":\"x\"}"));
    assert_eq!(logs[1].request_date, 4);
    assert_eq!(logs[1].params, None);
}
