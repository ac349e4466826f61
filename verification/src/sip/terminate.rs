//! The end of a call that another part of the platform asks for.
use crate::config::{AppConfig, SocketAddress};
use crate::events::{call_ended_event, ended_payload, Event};
use crate::foreign::{clock_rfc3339, random_alphanumeric};
use crate::sip::utils::{bye_text, create_bye_request_with_branch, is_branch};
use crate::state::ActiveCalls;
use crate::text::{from_chars, push_str};
use vstd::prelude::*;

verus! {

/// What a request to end a call leads to.
#[derive(Debug)]
pub enum TerminateOutcome {
    /// No call with this Call-ID is active; `message` says so.
    NotFound { message: String },
    /// The call left the registry. `bye` is sent to `target`, the peer of
    /// the call, `ended` announces the end, and `message` confirms the
    /// request.
    Terminated { target: SocketAddress, bye: String, ended: Event, message: String },
}

/// Ends the call `call_id` on request: the call leaves the registry, the
/// peer is sent a BYE with `branch` in its Via, and the end is announced
/// with the reason `terminated_by_request`.
pub fn terminate_call_with(
    call_id: &str,
    calls: &mut ActiveCalls,
    config: &AppConfig,
    branch: &str,
    timestamp: &str,
) -> (r: TerminateOutcome)
    ensures
        final(calls)@ == old(calls)@.remove(call_id@),
        match r {
            TerminateOutcome::NotFound { message } => {
                &&& !old(calls)@.contains_key(call_id@)
                &&& message@ == "Aktif çağrı bulunamadı: "@ + call_id@
            },
            TerminateOutcome::Terminated { target, bye, ended, message } => {
                &&& old(calls)@.contains_key(call_id@)
                &&& target == old(calls)@[call_id@].remote_addr
                &&& bye@ == bye_text(old(calls)@[call_id@], *config, branch@)
                &&& ended.routing_key@ == "call.ended"@
                &&& ended.payload@ == ended_payload(
                    old(calls)@[call_id@].trace_id@,
                    call_id@,
                    "terminated_by_request"@,
                    timestamp@,
                )
                &&& message@ == "Termination signal sent."@
            },
        },
{
    match calls.remove(call_id) {
        Some(call_info) => {
            let bye = create_bye_request_with_branch(&call_info, config, branch);
            let ended = call_ended_event(
                call_info.trace_id.as_str(),
                call_id,
                "terminated_by_request",
                timestamp,
            );
            TerminateOutcome::Terminated {
                target: call_info.remote_addr,
                bye,
                ended,
                message: String::from_str("Termination signal sent."),
            }
        },
        None => {
            let mut message: Vec<char> = Vec::new();
            push_str(&mut message, "Aktif çağrı bulunamadı: ");
            push_str(&mut message, call_id);
            assert(message@ == "Aktif çağrı bulunamadı: "@ + call_id@) by {
                assert(Seq::<char>::empty() + "Aktif çağrı bulunamadı: "@
                    == "Aktif çağrı bulunamadı: "@);
            }
            TerminateOutcome::NotFound { message: from_chars(&message) }
        },
    }
}

/// Ends the call `call_id` on request, with a branch drawn at random and the
/// time of the event read from the clock.
pub fn terminate_call(call_id: &str, calls: &mut ActiveCalls, config: &AppConfig) -> (r:
    TerminateOutcome)
    ensures
        final(calls)@ == old(calls)@.remove(call_id@),
        match r {
            TerminateOutcome::NotFound { message } => {
                &&& !old(calls)@.contains_key(call_id@)
                &&& message@ == "Aktif çağrı bulunamadı: "@ + call_id@
            },
            TerminateOutcome::Terminated { target, bye, ended, message } => {
                &&& old(calls)@.contains_key(call_id@)
                &&& target == old(calls)@[call_id@].remote_addr
                &&& exists|branch: Seq<char>|
                    is_branch(branch) && bye@ == #[trigger] bye_text(
                        old(calls)@[call_id@],
                        *config,
                        branch,
                    )
                &&& ended.routing_key@ == "call.ended"@
                &&& exists|timestamp: Seq<char>|
                    ended.payload@ == #[trigger] ended_payload(
                        old(calls)@[call_id@].trace_id@,
                        call_id@,
                        "terminated_by_request"@,
                        timestamp,
                    )
                &&& message@ == "Termination signal sent."@
            },
        },
{
    let branch = random_alphanumeric(16);
    assert(is_branch(branch@));
    let timestamp = clock_rfc3339();
    terminate_call_with(call_id, calls, config, branch.as_str(), timestamp.as_str())
}

} // verus!
