//! INVITE: from the first datagram to the answer.
pub mod handler;
pub mod orchestrator;
