//! Verified core of a REST front end for systemd-logind: request planning,
//! signal parsing, configuration defaults, property decoding and the
//! mapping of each logind operation onto its D-Bus call.

pub mod error;
pub mod text;
pub mod signal;
pub mod config;
pub mod logind;
pub mod api;
