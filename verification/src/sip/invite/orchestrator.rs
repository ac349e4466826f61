//! What setting up a call commits: the entry in the registry of active
//! calls, and the event that announces the call.
use crate::config::AppConfig;
use crate::events::{
    call_started_event, members_of, plain_event, plain_payload, started_payload, Event,
    JsonMember,
};
use crate::sip::call_context::CallContext;
use crate::sip::invite::handler::{
    after_dialplan, after_media, reply_text, setup_matches, DialplanStep, SetupStep,
};
use crate::sip::utils::sdp_media_info;
use crate::state::{ActiveCallInfo, ActiveCalls};
use crate::strmap::{clone_opt_string, clone_strings, Headers};
use crate::text::{decimal, decimal_chars, from_chars, push_decimal, push_str};
use vstd::prelude::*;

verus! {

/// What the dialplan service is asked for a call.
#[derive(Clone, Debug)]
pub struct DialplanQuery {
    pub caller_contact_value: String,
    pub destination_number: String,
    pub trace_id: String,
}

/// What the media service is asked for a call.
#[derive(Clone, Debug)]
pub struct PortQuery {
    pub call_id: String,
    pub trace_id: String,
}

/// The question to the dialplan service: who calls, and which number.
pub fn resolve_dialplan(context: &CallContext) -> (r: DialplanQuery)
    ensures
        r.caller_contact_value == context.caller_id,
        r.destination_number == context.destination_number,
        r.trace_id == context.trace_id,
{
    DialplanQuery {
        caller_contact_value: context.caller_id.clone(),
        destination_number: context.destination_number.clone(),
        trace_id: context.trace_id.clone(),
    }
}

/// The question to the media service: a port for this call.
pub fn allocate_media_port(context: &CallContext) -> (r: PortQuery)
    ensures
        r.call_id == context.call_id,
        r.trace_id == context.trace_id,
{
    PortQuery { call_id: context.call_id.clone(), trace_id: context.trace_id.clone() }
}

/// The fields of the responses that establish the dialog: those of the
/// request, with the tag of this gateway appended to To where the request
/// has a To.
pub open spec fn tagged_fields(fields: Map<Seq<char>, Seq<char>>, to_tag: u32) -> Map<
    Seq<char>,
    Seq<char>,
> {
    if fields.contains_key("to"@) {
        fields.insert("to"@, fields["to"@] + ";tag="@ + decimal(to_tag as nat))
    } else {
        fields
    }
}

/// The header fields of the request with the dialog tag on To.
pub fn tagged_headers(headers: &Headers, to_tag: u32) -> (r: Headers)
    ensures
        r.texts() == tagged_fields(headers.texts(), to_tag),
{
    let mut tagged = headers.duplicate();
    assert(tagged.texts() =~= headers.texts());
    match headers.get("to") {
        Some(to) => {
            let mut value: Vec<char> = Vec::new();
            push_str(&mut value, to.as_str());
            push_str(&mut value, ";tag=");
            push_decimal(&mut value, to_tag as u64);
            assert(value@ == to@ + ";tag="@ + decimal(to_tag as nat)) by {
                assert(Seq::<char>::empty() + to@ == to@);
            }
            tagged.put(String::from_str("to"), from_chars(&value));
        },
        None => {},
    }
    tagged
}

/// Whether `info` is the entry of the call that `context` asked for, set up
/// at `now_ms` with the media port `rtp_port` and the dialog tag `to_tag`.
pub open spec fn is_new_call(
    info: ActiveCallInfo,
    context: CallContext,
    rtp_port: u32,
    to_tag: u32,
    now_ms: u64,
) -> bool {
    &&& info.remote_addr == context.remote_addr
    &&& info.rtp_port == rtp_port
    &&& info.trace_id == context.trace_id
    &&& info.to_tag@ == decimal(to_tag as nat)
    &&& info.created_at == now_ms
    &&& info.headers.texts() == tagged_fields(context.headers.texts(), to_tag)
    &&& info.via_headers@ == context.via_headers@
    &&& info.call_id == context.call_id
    &&& info.from_header == context.from_header
    &&& info.to_header == context.to_header
    &&& info.contact_header == context.contact_header
    &&& info.record_route_header == context.record_route_header
    &&& info.raw_body == context.raw_body
    &&& !info.answered_event_published
}

/// Commits a call whose dialplan is resolved and whose media port is
/// allocated: its entry is put into the registry under its Call-ID. After
/// this the call is active, and only then may its answer be sent.
pub fn commit_call(
    context: &CallContext,
    rtp_port: u32,
    to_tag: u32,
    now_ms: u64,
    calls: &mut ActiveCalls,
)
    ensures
        final(calls)@.contains_key(context.call_id@),
        is_new_call(final(calls)@[context.call_id@], *context, rtp_port, to_tag, now_ms),
        final(calls)@ == old(calls)@.insert(context.call_id@, final(calls)@[context.call_id@]),
{
    let call_info = ActiveCallInfo {
        remote_addr: context.remote_addr.clone(),
        rtp_port,
        trace_id: context.trace_id.clone(),
        to_tag: from_chars(&decimal_chars(to_tag as u64)),
        created_at: now_ms,
        headers: tagged_headers(&context.headers, to_tag),
        via_headers: clone_strings(&context.via_headers),
        call_id: context.call_id.clone(),
        from_header: context.from_header.clone(),
        to_header: context.to_header.clone(),
        contact_header: context.contact_header.clone(),
        record_route_header: clone_opt_string(&context.record_route_header),
        raw_body: context.raw_body.clone(),
        answered_event_published: false,
    };
    calls.insert(context.call_id.clone(), call_info);
}

/// The payload of the event of kind `event_type` for a call: the event that
/// announces the start of a call carries who calls whom, the media
/// addresses and the dialplan resolution; any other kind carries the
/// identifiers of the call alone.
pub open spec fn call_event_payload(
    event_type: Seq<char>,
    call_info: ActiveCallInfo,
    dialplan: Option<Seq<JsonMember>>,
    timestamp: Seq<char>,
) -> Seq<char> {
    if event_type == "call.started"@ {
        started_payload(
            call_info.trace_id@,
            call_info.call_id@,
            call_info.from_header@,
            call_info.to_header@,
            sdp_media_info(call_info.raw_body@),
            call_info.rtp_port,
            dialplan,
            timestamp,
        )
    } else {
        plain_payload(event_type, call_info.trace_id@, call_info.call_id@, timestamp)
    }
}

/// The event of kind `event_type` for a call, routed by its kind.
pub fn publish_call_event(
    event_type: &str,
    call_info: &ActiveCallInfo,
    dialplan: &Option<Vec<JsonMember>>,
    timestamp: &str,
) -> (r: Event)
    ensures
        r.routing_key@ == event_type@,
        r.payload@ == call_event_payload(
            event_type@,
            *call_info,
            members_of(*dialplan),
            timestamp@,
        ),
{
    if crate::text::str_eq(event_type, "call.started") {
        let event = call_started_event(call_info, dialplan, timestamp);
        Event { routing_key: String::from_str(event_type), payload: event.payload }
    } else {
        plain_event(event_type, call_info.trace_id.as_str(), call_info.call_id.as_str(), timestamp)
    }
}

/// Sets up a call, given what the dialplan service and the media service
/// gave: `dialplan` is `None` where the dialplan service failed, `rtp_port`
/// is `None` where the media service failed. Where either failed the caller
/// is told `503 Service Unavailable` and the registry stays as it was; the
/// media service is not heard where the dialplan service failed. Where both
/// succeeded the call is committed and answered.
pub fn setup_and_finalize_call(
    context: &CallContext,
    dialplan: &Option<Option<Vec<JsonMember>>>,
    rtp_port: Option<u32>,
    to_tag: u32,
    now_ms: u64,
    timestamp: &str,
    calls: &mut ActiveCalls,
    config: &AppConfig,
) -> (r: SetupStep)
    ensures
        match *dialplan {
            None => {
                &&& final(calls)@ == old(calls)@
                &&& r matches SetupStep::Unavailable { response }
                &&& response@ == reply_text("503 Service Unavailable"@, *context, *config)
            },
            Some(resolution) => setup_matches(
                r,
                old(calls)@,
                final(calls)@,
                *context,
                rtp_port,
                to_tag,
                now_ms,
                members_of(resolution),
                timestamp@,
                *config,
            ),
        },
{
    match dialplan {
        Some(resolution) => match after_dialplan(context, true, config) {
            DialplanStep::AllocatePort(_) => after_media(
                context,
                rtp_port,
                to_tag,
                now_ms,
                resolution,
                timestamp,
                calls,
                config,
            ),
            DialplanStep::Unavailable { response } => SetupStep::Unavailable { response },
        },
        None => match after_dialplan(context, false, config) {
            DialplanStep::Unavailable { response } => SetupStep::Unavailable { response },
            DialplanStep::AllocatePort(_) => vstd::pervasive::unreached(),
        },
    }
}

} // verus!
