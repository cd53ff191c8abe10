//! Verified core of the PortoNet door-access backend: key checks, the
//! brute-force lockout, the open-door protocol and the request rules.
pub mod decimal;
pub mod duration;
pub mod time;
pub mod db_access;
pub mod custom_error_mapper;
pub mod api;
