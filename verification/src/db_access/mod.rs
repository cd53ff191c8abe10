//! The rules behind the three tables: keys, logs and the system history.
pub mod table_keys;
pub mod table_logs;
pub mod table_system;
