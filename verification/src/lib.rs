//! Signaling logic of a SIP gateway: request parsing, response building,
//! the registry of active calls and the per-method transaction steps.
pub mod config;
pub mod dedup;
pub mod error;
pub mod events;
pub mod foreign;
pub mod sip;
pub mod state;
pub mod strmap;
pub mod text;
