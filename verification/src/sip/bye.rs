//! BYE: the peer ends the call.
use crate::config::{AppConfig, SocketAddress};
use crate::events::{call_ended_event, ended_payload, Event};
use crate::foreign::clock_rfc3339;
use crate::sip::ack::call_id_of;
use crate::sip::call_context::{parse_failure, request_fields, request_vias, CallContext};
use crate::sip::responses::{create_response, response_text};
use crate::state::ActiveCalls;
use vstd::prelude::*;

verus! {

/// What a BYE leads to.
#[derive(Debug)]
pub enum ByeOutcome {
    /// The datagram is no usable request: without a Via there is nowhere to
    /// answer to.
    Refused,
    /// The BYE is answered with `response`. Where the call was active it left
    /// the registry and `ended` announces its end; where it was not, there is
    /// nothing to announce.
    Acknowledged { response: String, ended: Option<Event> },
}

/// The `200 OK` that answers the BYE `request` received from `remote_ip`.
pub open spec fn bye_response(request: Seq<char>, remote_ip: Seq<char>, config: AppConfig) -> Seq<
    char,
> {
    response_text(
        "200 OK"@,
        request_fields(request),
        request_vias(request),
        None,
        config.sip_public_ip@,
        config.sip_listen_addr.port,
        config.service_version@,
        remote_ip,
    )
}

/// Handles a BYE. Every BYE that can be read is answered with `200 OK`,
/// whether its call is known or not. The media port of the call is left as
/// it is; another part of the platform reclaims it.
pub fn handle_at(
    request_str: &str,
    remote_addr: SocketAddress,
    calls: &mut ActiveCalls,
    config: &AppConfig,
    timestamp: &str,
) -> (r: ByeOutcome)
    ensures
        match parse_failure(request_str@) {
            Some(_) => r is Refused && final(calls)@ == old(calls)@,
            None => {
                let id = call_id_of(request_str@);
                &&& final(calls)@ == old(calls)@.remove(id)
                &&& r matches ByeOutcome::Acknowledged { response, ended }
                &&& response@ == bye_response(request_str@, remote_addr.ip@, *config)
                &&& match ended {
                    Some(event) => {
                        &&& old(calls)@.contains_key(id)
                        &&& event.routing_key@ == "call.ended"@
                        &&& event.payload@ == ended_payload(
                            old(calls)@[id].trace_id@,
                            id,
                            "normal_clearing"@,
                            timestamp@,
                        )
                    },
                    None => !old(calls)@.contains_key(id),
                }
            },
        },
{
    let context = match CallContext::from_request(request_str, remote_addr, String::new()) {
        Ok(context) => context,
        Err(_) => {
            return ByeOutcome::Refused;
        },
    };
    let response = create_response("200 OK", &context, None, config);
    let ended = match calls.remove(context.call_id.as_str()) {
        Some(call_info) => Some(
            call_ended_event(
                call_info.trace_id.as_str(),
                context.call_id.as_str(),
                "normal_clearing",
                timestamp,
            ),
        ),
        None => None,
    };
    ByeOutcome::Acknowledged { response, ended }
}

/// Handles a BYE, with the time of the event read from the clock.
pub fn handle(
    request_str: &str,
    remote_addr: SocketAddress,
    calls: &mut ActiveCalls,
    config: &AppConfig,
) -> (r: ByeOutcome)
    ensures
        match parse_failure(request_str@) {
            Some(_) => r is Refused && final(calls)@ == old(calls)@,
            None => {
                let id = call_id_of(request_str@);
                &&& final(calls)@ == old(calls)@.remove(id)
                &&& r matches ByeOutcome::Acknowledged { response, ended }
                &&& response@ == bye_response(request_str@, remote_addr.ip@, *config)
                &&& match ended {
                    Some(event) => {
                        &&& old(calls)@.contains_key(id)
                        &&& event.routing_key@ == "call.ended"@
                        &&& exists|timestamp: Seq<char>|
                            event.payload@ == #[trigger] ended_payload(
                                old(calls)@[id].trace_id@,
                                id,
                                "normal_clearing"@,
                                timestamp,
                            )
                    },
                    None => !old(calls)@.contains_key(id),
                }
            },
        },
{
    let timestamp = clock_rfc3339();
    handle_at(request_str, remote_addr, calls, config, timestamp.as_str())
}

} // verus!
