//! The requests the service answers, as decisions on plain values: what to
//! record in the system table and how to answer.
pub mod api_add_key;
pub mod api_list_keys;
pub mod api_list_logs;
pub mod api_open_door;
pub mod api_revoke_all_keys;
pub mod api_revoke_key;
pub mod plan;
