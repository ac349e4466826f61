//! A SIP request as the handlers see it.
use crate::config::SocketAddress;
use crate::error::{ParseError, ServiceError};
use crate::sip::utils::{
    extract_user_from_uri, field_map, parse_sip_headers, texts_of, user_of_uri, via_lines,
};
use crate::strmap::Headers;
use crate::text::{find, find_sub, from_chars, lines, slice, to_chars};
use vstd::prelude::*;

verus! {

/// One request, parsed: its header fields by lower-case name, its Via lines
/// in order, its body, where it came from, and the fields and numbers that
/// the handlers read most.
#[derive(Clone, Debug)]
pub struct CallContext {
    pub headers: Headers,
    pub via_headers: Vec<String>,
    pub raw_body: String,
    pub remote_addr: SocketAddress,
    pub call_id: String,
    pub from_header: String,
    pub to_header: String,
    pub contact_header: String,
    pub record_route_header: Option<String>,
    pub caller_id: String,
    pub destination_number: String,
    pub trace_id: String,
}

/// The header block of a datagram: what stands before the first blank line.
pub open spec fn head_of(request: Seq<char>) -> Seq<char> {
    match find(request, "\r\n\r\n"@) {
        Some(i) => request.take(i),
        None => request,
    }
}

/// The body of a datagram: what stands after the first blank line.
pub open spec fn body_of(request: Seq<char>) -> Seq<char> {
    match find(request, "\r\n\r\n"@) {
        Some(i) => request.skip(i + 4),
        None => Seq::empty(),
    }
}

/// The fields of a datagram other than Via, by lower-case name.
pub open spec fn request_fields(request: Seq<char>) -> Map<Seq<char>, Seq<char>> {
    field_map(lines(head_of(request)))
}

/// The Via lines of a datagram.
pub open spec fn request_vias(request: Seq<char>) -> Seq<Seq<char>> {
    via_lines(lines(head_of(request)))
}

/// Why a datagram is refused, if it is: a request needs a Via field, and
/// then a Call-ID.
pub open spec fn parse_failure(request: Seq<char>) -> Option<ParseError> {
    if request_vias(request).len() == 0 {
        Some(ParseError::MissingVia)
    } else if !request_fields(request).contains_key("call-id"@) {
        Some(ParseError::MissingCallId)
    } else {
        None
    }
}

/// The value of the field `name`, or the empty text where it is absent.
pub open spec fn field_or_empty(fields: Map<Seq<char>, Seq<char>>, name: Seq<char>) -> Seq<char> {
    if fields.contains_key(name) {
        fields[name]
    } else {
        Seq::empty()
    }
}

/// The normalized number that a From or To value names, or `unknown`.
pub open spec fn user_or_unknown(header: Seq<char>) -> Seq<char> {
    match user_of_uri(header) {
        Some(user) => user,
        None => "unknown"@,
    }
}

impl CallContext {
    /// Whether the context holds what the datagram `request` says.
    pub open spec fn describes(&self, request: Seq<char>) -> bool {
        self.holds_parts(request_fields(request), request_vias(request), body_of(request))
    }

    /// Whether the context holds what the parts of a request say: its
    /// fields by lower-case name, its Via lines and its body.
    pub open spec fn holds_parts(
        &self,
        fields: Map<Seq<char>, Seq<char>>,
        vias: Seq<Seq<char>>,
        body: Seq<char>,
    ) -> bool {
        &&& self.headers.texts() == fields
        &&& texts_of(self.via_headers@) == vias
        &&& self.raw_body@ == body
        &&& self.call_id@ == field_or_empty(fields, "call-id"@)
        &&& self.from_header@ == field_or_empty(fields, "from"@)
        &&& self.to_header@ == field_or_empty(fields, "to"@)
        &&& self.contact_header@ == field_or_empty(fields, "contact"@)
        &&& match self.record_route_header {
            Some(value) => fields.contains_key("record-route"@) && value@
                == fields["record-route"@],
            None => !fields.contains_key("record-route"@),
        }
        &&& self.caller_id@ == user_or_unknown(field_or_empty(fields, "from"@))
        &&& self.destination_number@ == user_or_unknown(field_or_empty(fields, "to"@))
    }

    /// Builds the context of a request from its parts: the fields by
    /// lower-case name, the Via lines and the body. A request without a
    /// Call-ID field is refused.
    pub fn from_parts(
        headers: Headers,
        via_headers: Vec<String>,
        raw_body: String,
        remote_addr: SocketAddress,
        trace_id: String,
    ) -> (r: Result<CallContext, ServiceError>)
        ensures
            match r {
                Ok(ctx) => {
                    &&& headers.texts().contains_key("call-id"@)
                    &&& ctx.holds_parts(headers.texts(), texts_of(via_headers@), raw_body@)
                    &&& ctx.remote_addr == remote_addr
                    &&& ctx.trace_id == trace_id
                },
                Err(e) => {
                    &&& !headers.texts().contains_key("call-id"@)
                    &&& e matches ServiceError::SipParse(p)
                    &&& p == ParseError::MissingCallId
                },
            },
    {
        let call_id = match headers.get_text("call-id") {
            Some(v) => v,
            None => {
                return Err(ServiceError::SipParse(ParseError::MissingCallId));
            },
        };
        let from_header = headers.get_or_empty("from");
        let to_header = headers.get_or_empty("to");
        let contact_header = headers.get_or_empty("contact");
        let record_route_header = headers.get_text("record-route");
        let caller_id = match extract_user_from_uri(from_header.as_str()) {
            Some(user) => user,
            None => String::from_str("unknown"),
        };
        let destination_number = match extract_user_from_uri(to_header.as_str()) {
            Some(user) => user,
            None => String::from_str("unknown"),
        };
        Ok(
            CallContext {
                headers,
                via_headers,
                raw_body,
                remote_addr,
                call_id,
                from_header,
                to_header,
                contact_header,
                record_route_header,
                caller_id,
                destination_number,
                trace_id,
            },
        )
    }

    /// Parses a datagram. The header block ends at the first blank line; the
    /// rest is the body. A datagram without a Via or without a Call-ID field
    /// is refused.
    pub fn from_request(request_str: &str, remote_addr: SocketAddress, trace_id: String) -> (r:
        Result<CallContext, ServiceError>)
        ensures
            match r {
                Ok(ctx) => {
                    &&& parse_failure(request_str@) is None
                    &&& ctx.describes(request_str@)
                    &&& ctx.remote_addr == remote_addr
                    &&& ctx.trace_id == trace_id
                },
                Err(e) => e matches ServiceError::SipParse(p) && parse_failure(request_str@)
                    == Some(p),
            },
    {
        let chars = to_chars(request_str);
        let separator = to_chars("\r\n\r\n");
        proof {
            reveal_strlit("\r\n\r\n");
        }
        let (head, body) = match find_sub(&chars, &separator) {
            Some(i) => {
                assert(chars@.subrange(0, i as int) == chars@.take(i as int));
                assert(chars@.subrange(i + 4, chars.len() as int) == chars@.skip(i + 4));
                (slice(&chars, 0, i), slice(&chars, i + 4, chars.len()))
            },
            None => {
                assert(chars@.subrange(0, chars.len() as int) == chars@);
                (slice(&chars, 0, chars.len()), Vec::new())
            },
        };
        assert(head@ == head_of(request_str@));
        assert(body@ == body_of(request_str@));
        match parse_sip_headers(from_chars(&head).as_str()) {
            Some((headers, via_headers)) => CallContext::from_parts(
                headers,
                via_headers,
                from_chars(&body),
                remote_addr,
                trace_id,
            ),
            None => Err(ServiceError::SipParse(ParseError::MissingVia)),
        }
    }
}

} // verus!
