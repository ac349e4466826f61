//! ACK: the caller confirms the answer.
use crate::config::SocketAddress;
use crate::events::{answered_payload, call_answered_event, Event};
use crate::foreign::clock_rfc3339;
use crate::sip::call_context::{field_or_empty, parse_failure, request_fields, CallContext};
use crate::state::{marked, ActiveCallInfo, ActiveCalls};
use vstd::prelude::*;

verus! {

/// What an ACK leads to. No response is ever sent to an ACK.
#[derive(Debug)]
pub enum AckOutcome {
    /// The datagram is no usable request.
    Refused,
    /// No call with this Call-ID is active.
    UnknownCall,
    /// The answer of this call has been announced before.
    AlreadyAnswered,
    /// This is the first ACK of the call: its answer is announced.
    Answered(Event),
}

/// Whether an ACK for `call_id` announces the answer: the call is active
/// and its answer has not been announced.
pub open spec fn announces_answer(
    calls: Map<Seq<char>, ActiveCallInfo>,
    call_id: Seq<char>,
) -> bool {
    calls.contains_key(call_id) && !calls[call_id].answered_event_published
}

/// The Call-ID that a request names.
pub open spec fn call_id_of(request: Seq<char>) -> Seq<char> {
    field_or_empty(request_fields(request), "call-id"@)
}

/// Handles an ACK. The flag of the call is tested and raised in one step,
/// so that of all the ACKs of a call exactly the first announces the answer.
pub fn handle_at(
    request_str: &str,
    remote_addr: SocketAddress,
    calls: &mut ActiveCalls,
    timestamp: &str,
) -> (r: AckOutcome)
    ensures
        match parse_failure(request_str@) {
            Some(_) => r is Refused && final(calls)@ == old(calls)@,
            None => {
                let id = call_id_of(request_str@);
                &&& final(calls)@ == marked(old(calls)@, id)
                &&& match r {
                    AckOutcome::Refused => false,
                    AckOutcome::UnknownCall => !old(calls)@.contains_key(id),
                    AckOutcome::AlreadyAnswered => old(calls)@.contains_key(id) && old(
                        calls,
                    )@[id].answered_event_published,
                    AckOutcome::Answered(event) => {
                        &&& announces_answer(old(calls)@, id)
                        &&& event.routing_key@ == "call.answered"@
                        &&& event.payload@ == answered_payload(
                            old(calls)@[id].trace_id@,
                            id,
                            timestamp@,
                        )
                    },
                }
            },
        },
{
    let context = match CallContext::from_request(request_str, remote_addr, String::new()) {
        Ok(context) => context,
        Err(_) => {
            return AckOutcome::Refused;
        },
    };
    let event = match calls.get(context.call_id.as_str()) {
        Some(call_info) => call_answered_event(
            call_info.trace_id.as_str(),
            context.call_id.as_str(),
            timestamp,
        ),
        None => {
            assert(marked(calls@, context.call_id@) == calls@);
            return AckOutcome::UnknownCall;
        },
    };
    if calls.mark_answered(context.call_id.as_str()) {
        AckOutcome::Answered(event)
    } else {
        AckOutcome::AlreadyAnswered
    }
}

/// Handles an ACK, with the time of the event read from the clock.
pub fn handle(request_str: &str, remote_addr: SocketAddress, calls: &mut ActiveCalls) -> (r:
    AckOutcome)
    ensures
        match parse_failure(request_str@) {
            Some(_) => r is Refused && final(calls)@ == old(calls)@,
            None => {
                let id = call_id_of(request_str@);
                &&& final(calls)@ == marked(old(calls)@, id)
                &&& match r {
                    AckOutcome::Refused => false,
                    AckOutcome::UnknownCall => !old(calls)@.contains_key(id),
                    AckOutcome::AlreadyAnswered => old(calls)@.contains_key(id) && old(
                        calls,
                    )@[id].answered_event_published,
                    AckOutcome::Answered(event) => {
                        &&& announces_answer(old(calls)@, id)
                        &&& event.routing_key@ == "call.answered"@
                        &&& exists|timestamp: Seq<char>|
                            event.payload@ == #[trigger] answered_payload(
                                old(calls)@[id].trace_id@,
                                id,
                                timestamp,
                            )
                    },
                }
            },
        },
{
    let timestamp = clock_rfc3339();
    handle_at(request_str, remote_addr, calls, timestamp.as_str())
}

/// Once an ACK for a call has been handled, no later ACK for it announces
/// the answer again: of any number of ACKs for one call, at most one leads
/// to an announcement, and it is the first.
pub proof fn ack_is_idempotent(calls: Map<Seq<char>, ActiveCallInfo>, call_id: Seq<char>)
    ensures
        !announces_answer(marked(calls, call_id), call_id),
        marked(marked(calls, call_id), call_id) == marked(calls, call_id),
{
    assert(marked(marked(calls, call_id), call_id) =~= marked(calls, call_id));
}

} // verus!
