pub mod ack;
pub mod bye;
pub mod call_context;
pub mod handler;
pub mod invite;
pub mod register;
pub mod responses;
pub mod terminate;
pub mod utils;
