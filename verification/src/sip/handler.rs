//! Where a datagram goes.
use crate::text::{has_prefix, starts_with, to_chars};
use vstd::prelude::*;

verus! {

/// The methods the gateway tells apart.
#[derive(Clone, Copy, Debug, PartialEq, Eq, Structural)]
pub enum SipMethod {
    Register,
    Invite,
    Bye,
    Ack,
    /// Any other method. Its requests are ignored.
    Other,
}

/// The method of a request, by the word it begins with.
pub open spec fn method_of(request: Seq<char>) -> SipMethod {
    if has_prefix(request, "REGISTER"@) {
        SipMethod::Register
    } else if has_prefix(request, "INVITE"@) {
        SipMethod::Invite
    } else if has_prefix(request, "BYE"@) {
        SipMethod::Bye
    } else if has_prefix(request, "ACK"@) {
        SipMethod::Ack
    } else {
        SipMethod::Other
    }
}

/// Tells the method of a request.
pub fn classify_request(request_str: &str) -> (r: SipMethod)
    ensures
        r == method_of(request_str@),
{
    let chars = to_chars(request_str);
    if starts_with(&chars, &to_chars("REGISTER")) {
        SipMethod::Register
    } else if starts_with(&chars, &to_chars("INVITE")) {
        SipMethod::Invite
    } else if starts_with(&chars, &to_chars("BYE")) {
        SipMethod::Bye
    } else if starts_with(&chars, &to_chars("ACK")) {
        SipMethod::Ack
    } else {
        SipMethod::Other
    }
}

/// What a datagram is.
#[derive(Debug)]
pub enum Incoming {
    /// Bytes that are no UTF-8 text. They are dropped.
    Invalid,
    /// A request of the given method, as text.
    Request { method: SipMethod, text: String },
}

/// Reads a datagram: decodes it and tells which handler it belongs to.
pub fn handle_sip_request(request_bytes: &[u8]) -> (r: Incoming)
    ensures
        match r {
            Incoming::Invalid => !vstd::utf8::valid_utf8(request_bytes@),
            Incoming::Request { method, text } => {
                &&& vstd::utf8::valid_utf8(request_bytes@)
                &&& text@ == vstd::utf8::decode_utf8(request_bytes@)
                &&& method == method_of(text@)
            },
        },
{
    match core::str::from_utf8(request_bytes) {
        Ok(request_str) => {
            proof {
                vstd::utf8::encode_utf8_decode_utf8(request_str@);
            }
            Incoming::Request {
                method: classify_request(request_str),
                text: String::from_str(request_str),
            }
        },
        Err(_) => Incoming::Invalid,
    }
}

} // verus!
