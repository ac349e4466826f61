//! The steps of an INVITE transaction.
use crate::config::{AppConfig, SocketAddress};
use crate::dedup::{
    claim_end, claim_results, invite_claim_key, invite_key, is_held, only_first_claim_succeeds,
    INVITE_CLAIM_TTL_SECS,
};
use crate::error::ServiceError;
use crate::events::{members_of, started_payload, Event, JsonMember};
use crate::foreign::{clock_rfc3339, is_alphanumeric, random_alphanumeric, random_u32};
use crate::sip::call_context::{parse_failure, CallContext};
use crate::sip::invite::orchestrator::{
    allocate_media_port, is_new_call, publish_call_event, resolve_dialplan,
    commit_call, setup_and_finalize_call, tagged_fields, DialplanQuery, PortQuery,
};
use crate::sip::responses::{
    build_180_ringing, build_200_ok_with_sdp, create_response, response_for, response_text,
    sdp_text,
};
use crate::sip::utils::{sdp_media_info, texts_of, COUNTRY_PREFIX};
use crate::state::{ActiveCallInfo, ActiveCalls};
use crate::text::{from_chars, has_prefix, push_str, starts_with, to_chars};
use vstd::prelude::*;

verus! {

/// Milliseconds between the ringing and the final response.
pub const RINGING_PAUSE_MS: u64 = 50;

/// How the handling of an INVITE begins.
#[derive(Debug)]
pub enum InviteStart {
    /// The datagram is no usable request. Nothing is sent.
    Refused(ServiceError),
    /// The request is to be claimed under `claim_key` for `ttl_secs` seconds.
    Claim { context: CallContext, claim_key: String, ttl_secs: u64 },
}

/// Reads an INVITE that came from `remote_addr`, and gives it `trace_id`.
pub fn begin(request_str: &str, remote_addr: SocketAddress, trace_id: String) -> (r: InviteStart)
    ensures
        match r {
            InviteStart::Refused(e) => e matches ServiceError::SipParse(p) && parse_failure(
                request_str@,
            ) == Some(p),
            InviteStart::Claim { context, claim_key, ttl_secs } => {
                &&& parse_failure(request_str@) is None
                &&& context.describes(request_str@)
                &&& context.remote_addr == remote_addr
                &&& context.trace_id == trace_id
                &&& claim_key@ == invite_key(context.call_id@)
                &&& ttl_secs == INVITE_CLAIM_TTL_SECS
            },
        },
{
    match CallContext::from_request(request_str, remote_addr, trace_id) {
        Ok(context) => {
            let claim_key = invite_claim_key(context.call_id.as_str());
            InviteStart::Claim { context, claim_key, ttl_secs: INVITE_CLAIM_TTL_SECS }
        },
        Err(e) => InviteStart::Refused(e),
    }
}

/// Whether `trace_id` is one the gateway may have drawn: `trace-` and twelve
/// ASCII letters and digits.
pub open spec fn is_trace_id(trace_id: Seq<char>) -> bool {
    &&& trace_id.len() == 18
    &&& trace_id.take(6) == "trace-"@
    &&& forall|i: int| 6 <= i < 18 ==> is_alphanumeric(#[trigger] trace_id[i])
}

/// A trace identifier for a new transaction, drawn at random.
pub fn fresh_trace_id() -> (r: String)
    ensures
        is_trace_id(r@),
{
    let suffix = random_alphanumeric(12);
    let mut out: Vec<char> = Vec::new();
    push_str(&mut out, "trace-");
    push_str(&mut out, suffix.as_str());
    proof {
        reveal_strlit("trace-");
        assert(out@ == "trace-"@ + suffix@);
        assert(out@.take(6) == "trace-"@);
        assert forall|i: int| 6 <= i < 18 implies is_alphanumeric(#[trigger] out@[i]) by {
            assert(out@[i] == suffix@[i - 6]);
        }
    }
    from_chars(&out)
}

/// Reads an INVITE and gives it a trace identifier drawn at random.
pub fn begin_with_fresh_trace(request_str: &str, remote_addr: SocketAddress) -> (r: InviteStart)
    ensures
        match r {
            InviteStart::Refused(e) => e matches ServiceError::SipParse(p) && parse_failure(
                request_str@,
            ) == Some(p),
            InviteStart::Claim { context, claim_key, ttl_secs } => {
                &&& parse_failure(request_str@) is None
                &&& context.describes(request_str@)
                &&& context.remote_addr == remote_addr
                &&& is_trace_id(context.trace_id@)
                &&& claim_key@ == invite_key(context.call_id@)
                &&& ttl_secs == INVITE_CLAIM_TTL_SECS
            },
        },
{
    begin(request_str, remote_addr, fresh_trace_id())
}

/// Where a call is resolved.
#[derive(Debug)]
pub enum Route {
    /// The number belongs to the platform: the dialplan service resolves it.
    Dialplan(DialplanQuery),
    /// Any other number is a peer: its binding is looked up under `key` in
    /// the registration store.
    PeerLookup { key: String },
}

/// What follows the claim of an INVITE.
#[derive(Debug)]
pub enum InviteRoute {
    /// The request is a retransmission, or its call is active already.
    /// Nothing is sent and nothing is asked of any service.
    Duplicate,
    /// The claim could not be made, because the store failed: `response`
    /// says so, and nothing is asked of any service.
    Unavailable { response: String },
    /// The request is new: `trying` is sent at once, then the call is
    /// resolved by `route`.
    Proceed { trying: String, route: Route },
}

/// Whether a normalized number belongs to the platform's numbering plan:
/// it begins with the country prefix.
pub open spec fn is_platform_number(number: Seq<char>) -> bool {
    has_prefix(number, COUNTRY_PREFIX@)
}

/// The key under which the binding of the peer `number` in `realm` is kept.
pub open spec fn peer_key(number: Seq<char>, realm: Seq<char>) -> Seq<char> {
    "sip_registration:sip:"@ + number + "@"@ + realm
}

/// Whether `route` is how the call of `context` is resolved.
pub open spec fn route_matches(route: Route, context: CallContext, config: AppConfig) -> bool {
    match route {
        Route::Dialplan(query) => {
            &&& is_platform_number(context.destination_number@)
            &&& query.caller_contact_value == context.caller_id
            &&& query.destination_number == context.destination_number
            &&& query.trace_id == context.trace_id
        },
        Route::PeerLookup { key } => {
            &&& !is_platform_number(context.destination_number@)
            &&& key@ == peer_key(context.destination_number@, config.sip_realm@)
        },
    }
}

/// Whether an INVITE goes on to the services: its claim is the first, and
/// its call is not active yet.
pub open spec fn goes_on(first_claim: bool, active: bool) -> bool {
    first_claim && !active
}

/// The response with the status `status_line` to the request in `context`.
pub open spec fn reply_text(status_line: Seq<char>, context: CallContext, config: AppConfig) -> Seq<
    char,
> {
    response_for(
        status_line,
        context.headers,
        context.via_headers@,
        None,
        config,
        context.remote_addr,
    )
}

/// Decides what follows the claim, given what the claim gave: `None` where
/// the store failed, else whether the claim was the first. A failed store is
/// answered with `503 Service Unavailable`. Only a first claim of a call
/// that is not active goes on; whatever else arrives for the Call-ID is
/// dropped, so that no port is allocated and no start is announced a second
/// time.
pub fn after_claim(
    context: &CallContext,
    claim: Option<bool>,
    calls: &ActiveCalls,
    config: &AppConfig,
) -> (r: InviteRoute)
    ensures
        match claim {
            None => r matches InviteRoute::Unavailable { response } && response@ == reply_text(
                "503 Service Unavailable"@,
                *context,
                *config,
            ),
            Some(first_claim) => match r {
                InviteRoute::Duplicate => !goes_on(
                    first_claim,
                    calls@.contains_key(context.call_id@),
                ),
                InviteRoute::Unavailable { .. } => false,
                InviteRoute::Proceed { trying, route } => {
                    &&& goes_on(first_claim, calls@.contains_key(context.call_id@))
                    &&& trying@ == reply_text("100 Trying"@, *context, *config)
                    &&& route_matches(route, *context, *config)
                },
            },
        },
{
    let first_claim = match claim {
        Some(first_claim) => first_claim,
        None => {
            return InviteRoute::Unavailable { response: setup_failed(context, config) };
        },
    };
    if !first_claim || calls.contains(context.call_id.as_str()) {
        return InviteRoute::Duplicate;
    }
    let trying = create_response("100 Trying", context, None, config);
    let number = to_chars(context.destination_number.as_str());
    let route = if starts_with(&number, &to_chars(COUNTRY_PREFIX)) {
        Route::Dialplan(resolve_dialplan(context))
    } else {
        let mut key: Vec<char> = Vec::new();
        push_str(&mut key, "sip_registration:sip:");
        push_str(&mut key, context.destination_number.as_str());
        push_str(&mut key, "@");
        push_str(&mut key, config.sip_realm.as_str());
        assert(key@ == peer_key(context.destination_number@, config.sip_realm@)) by {
            assert(Seq::<char>::empty() + "sip_registration:sip:"@ == "sip_registration:sip:"@);
        }
        Route::PeerLookup { key: from_chars(&key) }
    };
    InviteRoute::Proceed { trying, route }
}

/// Of the deliveries of one INVITE that are served while the claim of the
/// first of them holds, none but the first goes on: whatever the registry
/// says at each delivery, a media port is asked for and a start is announced
/// at most once. And once the call is active no delivery goes on, whether
/// its claim is a first one or not.
pub proof fn invite_goes_on_at_most_once(
    table: Map<Seq<char>, u64>,
    call_id: Seq<char>,
    times: Seq<u64>,
    ttl_ms: u64,
    active: Seq<bool>,
)
    requires
        times.len() > 0,
        active.len() == times.len(),
        !is_held(table, invite_key(call_id), times[0]),
        forall|i: int| 0 < i < times.len() ==> #[trigger] times[i] < claim_end(times[0], ttl_ms),
    ensures
        forall|i: int|
            0 < i < times.len() ==> !goes_on(
                #[trigger] claim_results(table, invite_key(call_id), times, ttl_ms)[i],
                active[i],
            ),
        forall|first_claim: bool| !goes_on(first_claim, true),
{
    only_first_claim_succeeds(table, invite_key(call_id), times, ttl_ms);
}

/// The answer to a call to a peer. Calls are not passed on to peers: whether
/// the lookup found the peer or not, the caller is told `404 Not Found`.
pub fn peer_unavailable(context: &CallContext, peer_found: bool, config: &AppConfig) -> (r: String)
    ensures
        r@ == reply_text("404 Not Found"@, *context, *config),
{
    create_response("404 Not Found", context, None, config)
}

/// The answer to a call that could not be set up because something the
/// gateway depends on failed. No call is committed.
pub fn setup_failed(context: &CallContext, config: &AppConfig) -> (r: String)
    ensures
        r@ == reply_text("503 Service Unavailable"@, *context, *config),
{
    create_response("503 Service Unavailable", context, None, config)
}

/// What follows the resolution of the dialplan.
#[derive(Debug)]
pub enum DialplanStep {
    /// The dialplan service failed: `response` says so. No state is created
    /// and no port is asked for.
    Unavailable { response: String },
    /// The dialplan is resolved: the media service is asked for a port.
    AllocatePort(PortQuery),
}

/// Decides what follows the resolution of the dialplan, given whether the
/// service resolved the call.
pub fn after_dialplan(context: &CallContext, resolved: bool, config: &AppConfig) -> (r:
    DialplanStep)
    ensures
        match r {
            DialplanStep::Unavailable { response } => !resolved && response@ == reply_text(
                "503 Service Unavailable"@,
                *context,
                *config,
            ),
            DialplanStep::AllocatePort(query) => {
                &&& resolved
                &&& query.call_id == context.call_id
                &&& query.trace_id == context.trace_id
            },
        },
{
    if resolved {
        DialplanStep::AllocatePort(allocate_media_port(context))
    } else {
        DialplanStep::Unavailable { response: setup_failed(context, config) }
    }
}

/// What is sent, in this order, once a call is committed: `ringing` to
/// `target`, after `pause_ms` milliseconds `ok` to `target`, then the event
/// `started` to the message bus.
#[derive(Debug)]
pub struct Answer {
    pub target: SocketAddress,
    pub ringing: String,
    pub pause_ms: u64,
    pub ok: String,
    pub started: Event,
}

/// Whether `answer` is what the caller of `context` is owed, given the media
/// port, the dialog tag, the dialplan resolution and the time of the event.
pub open spec fn answer_matches(
    answer: Answer,
    context: CallContext,
    rtp_port: u32,
    to_tag: u32,
    dialplan: Option<Seq<JsonMember>>,
    timestamp: Seq<char>,
    config: AppConfig,
) -> bool {
    let fields = tagged_fields(context.headers.texts(), to_tag);
    &&& answer.target == context.remote_addr
    &&& answer.ringing@ == response_text(
        "180 Ringing"@,
        fields,
        texts_of(context.via_headers@),
        None,
        config.sip_public_ip@,
        config.sip_listen_addr.port,
        config.service_version@,
        context.remote_addr.ip@,
    )
    &&& answer.pause_ms == RINGING_PAUSE_MS
    &&& answer.ok@ == response_text(
        "200 OK"@,
        fields,
        texts_of(context.via_headers@),
        Some(sdp_text(rtp_port, config.sip_public_ip@, rtp_port)),
        config.sip_public_ip@,
        config.sip_listen_addr.port,
        config.service_version@,
        context.remote_addr.ip@,
    )
    &&& answer.started.routing_key@ == "call.started"@
    &&& answer.started.payload@ == started_payload(
        context.trace_id@,
        context.call_id@,
        context.from_header@,
        context.to_header@,
        sdp_media_info(context.raw_body@),
        rtp_port,
        dialplan,
        timestamp,
    )
}

/// Whether the registry `after` is `before` with the call of `context`
/// committed under its Call-ID.
pub open spec fn committed(
    before: Map<Seq<char>, ActiveCallInfo>,
    after: Map<Seq<char>, ActiveCallInfo>,
    context: CallContext,
    rtp_port: u32,
    to_tag: u32,
    now_ms: u64,
) -> bool {
    &&& after.contains_key(context.call_id@)
    &&& is_new_call(after[context.call_id@], context, rtp_port, to_tag, now_ms)
    &&& after == before.insert(context.call_id@, after[context.call_id@])
}

/// Commits a call and prepares its answer. The entry of the call is in the
/// registry when this returns: nothing of the answer exists before the call
/// is active.
pub fn answer(
    context: &CallContext,
    rtp_port: u32,
    to_tag: u32,
    now_ms: u64,
    dialplan: &Option<Vec<JsonMember>>,
    timestamp: &str,
    calls: &mut ActiveCalls,
    config: &AppConfig,
) -> (r: Answer)
    ensures
        committed(old(calls)@, final(calls)@, *context, rtp_port, to_tag, now_ms),
        answer_matches(r, *context, rtp_port, to_tag, members_of(*dialplan), timestamp@, *config),
{
    commit_call(context, rtp_port, to_tag, now_ms, calls);
    match calls.get(context.call_id.as_str()) {
        Some(call_info) => {
            let ringing = build_180_ringing(
                &call_info.headers,
                &call_info.via_headers,
                config,
                &call_info.remote_addr,
            );
            let ok = build_200_ok_with_sdp(
                &call_info.headers,
                &call_info.via_headers,
                call_info.rtp_port,
                config,
                &call_info.remote_addr,
            );
            let started = publish_call_event("call.started", call_info, dialplan, timestamp);
            Answer {
                target: call_info.remote_addr.clone(),
                ringing,
                pause_ms: RINGING_PAUSE_MS,
                ok,
                started,
            }
        },
        None => vstd::pervasive::unreached(),
    }
}

/// What follows the allocation of the media port.
#[derive(Debug)]
pub enum SetupStep {
    /// The media service failed: `response` says so, and the registry is as
    /// it was.
    Unavailable { response: String },
    /// The call is committed, and this is its answer.
    Answered(Answer),
}

/// Whether `step` and the registry `after` are what follows the allocation
/// of the media port: without a port the caller is told `503 Service
/// Unavailable` and the registry stays as it was; with a port the call is
/// committed and answered.
pub open spec fn setup_matches(
    step: SetupStep,
    before: Map<Seq<char>, ActiveCallInfo>,
    after: Map<Seq<char>, ActiveCallInfo>,
    context: CallContext,
    rtp_port: Option<u32>,
    to_tag: u32,
    now_ms: u64,
    dialplan: Option<Seq<JsonMember>>,
    timestamp: Seq<char>,
    config: AppConfig,
) -> bool {
    match rtp_port {
        None => {
            &&& after == before
            &&& step matches SetupStep::Unavailable { response }
            &&& response@ == reply_text("503 Service Unavailable"@, context, config)
        },
        Some(port) => {
            &&& committed(before, after, context, port, to_tag, now_ms)
            &&& step matches SetupStep::Answered(answer)
            &&& answer_matches(answer, context, port, to_tag, dialplan, timestamp, config)
        },
    }
}

/// Decides what follows the allocation of the media port, `None` where the
/// media service failed. Either the call is committed whole, or nothing of
/// it is.
pub fn after_media(
    context: &CallContext,
    rtp_port: Option<u32>,
    to_tag: u32,
    now_ms: u64,
    dialplan: &Option<Vec<JsonMember>>,
    timestamp: &str,
    calls: &mut ActiveCalls,
    config: &AppConfig,
) -> (r: SetupStep)
    ensures
        setup_matches(
            r,
            old(calls)@,
            final(calls)@,
            *context,
            rtp_port,
            to_tag,
            now_ms,
            members_of(*dialplan),
            timestamp@,
            *config,
        ),
{
    match rtp_port {
        Some(port) => SetupStep::Answered(
            answer(context, port, to_tag, now_ms, dialplan, timestamp, calls, config),
        ),
        None => SetupStep::Unavailable { response: setup_failed(context, config) },
    }
}

/// Decides what follows the allocation of the media port, with a dialog tag
/// drawn at random and the time of the event read from the clock.
pub fn after_media_now(
    context: &CallContext,
    rtp_port: Option<u32>,
    now_ms: u64,
    dialplan: &Option<Vec<JsonMember>>,
    calls: &mut ActiveCalls,
    config: &AppConfig,
) -> (r: SetupStep)
    ensures
        exists|to_tag: u32, timestamp: Seq<char>| #[trigger]
            setup_matches(
                r,
                old(calls)@,
                final(calls)@,
                *context,
                rtp_port,
                to_tag,
                now_ms,
                members_of(*dialplan),
                timestamp,
                *config,
            ),
{
    let to_tag = random_u32();
    let timestamp = clock_rfc3339();
    after_media(context, rtp_port, to_tag, now_ms, dialplan, timestamp.as_str(), calls, config)
}

/// What the collaborators of the gateway give while one INVITE is handled.
/// Each is read only where the handling comes to ask for it.
#[derive(Debug)]
pub struct InviteReplies {
    /// What the claim gave: `None` where the store failed, else whether the
    /// claim was the first.
    pub claim: Option<bool>,
    /// Whether the registration store knows the peer.
    pub peer_found: bool,
    /// What the dialplan service gave: `None` where it failed, else the
    /// members of its resolution, if that can be written as an object.
    pub dialplan: Option<Option<Vec<JsonMember>>>,
    /// The port the media service allocated, `None` where it failed.
    pub rtp_port: Option<u32>,
}

/// What handling one INVITE did.
#[derive(Debug)]
pub struct InviteTranscript {
    /// The request as it was read, `None` where the datagram was refused.
    pub context: Option<CallContext>,
    /// The datagrams sent to the caller, in the order they were sent.
    pub datagrams: Vec<String>,
    /// Whether the dialplan service was asked.
    pub asked_dialplan: bool,
    /// Whether the media service was asked for a port.
    pub asked_port: bool,
    /// The event that was handed to the message bus.
    pub published: Option<Event>,
}

impl InviteTranscript {
    /// Whether nothing was sent, asked or published.
    pub open spec fn is_silent(&self) -> bool {
        &&& self.datagrams@.len() == 0
        &&& !self.asked_dialplan
        &&& !self.asked_port
        &&& self.published is None
    }

    /// Whether the datagrams sent are exactly `texts`, in this order.
    pub open spec fn sent(&self, texts: Seq<Seq<char>>) -> bool {
        texts_of(self.datagrams@) == texts
    }
}

/// Whether `transcript` and the registry `after` are what handling the
/// request in `context` leads to, given the replies of the collaborators.
pub open spec fn transcript_matches(
    transcript: InviteTranscript,
    context: CallContext,
    replies: InviteReplies,
    before: Map<Seq<char>, ActiveCallInfo>,
    after: Map<Seq<char>, ActiveCallInfo>,
    to_tag: u32,
    now_ms: u64,
    timestamp: Seq<char>,
    config: AppConfig,
) -> bool {
    let trying = reply_text("100 Trying"@, context, config);
    let unavailable = reply_text("503 Service Unavailable"@, context, config);
    let not_found = reply_text("404 Not Found"@, context, config);
    match replies.claim {
        None => {
            &&& after == before
            &&& transcript.sent(seq![unavailable])
            &&& !transcript.asked_dialplan
            &&& !transcript.asked_port
            &&& transcript.published is None
        },
        Some(first_claim) => if !goes_on(first_claim, before.contains_key(context.call_id@)) {
            after == before && transcript.is_silent()
        } else if !is_platform_number(context.destination_number@) {
            &&& after == before
            &&& transcript.sent(seq![trying, not_found])
            &&& !transcript.asked_dialplan
            &&& !transcript.asked_port
            &&& transcript.published is None
        } else {
            match (replies.dialplan, replies.rtp_port) {
                (None, _) => {
                    &&& after == before
                    &&& transcript.sent(seq![trying, unavailable])
                    &&& transcript.asked_dialplan
                    &&& !transcript.asked_port
                    &&& transcript.published is None
                },
                (Some(_), None) => {
                    &&& after == before
                    &&& transcript.sent(seq![trying, unavailable])
                    &&& transcript.asked_dialplan
                    &&& transcript.asked_port
                    &&& transcript.published is None
                },
                (Some(dialplan), Some(port)) => {
                    &&& committed(before, after, context, port, to_tag, now_ms)
                    &&& transcript.asked_dialplan
                    &&& transcript.asked_port
                    &&& transcript.datagrams@.len() == 3
                    &&& transcript.datagrams@[0]@ == trying
                    &&& transcript.published matches Some(started)
                    &&& answer_matches(
                        Answer {
                            target: context.remote_addr,
                            ringing: transcript.datagrams@[1],
                            pause_ms: RINGING_PAUSE_MS,
                            ok: transcript.datagrams@[2],
                            started,
                        },
                        context,
                        port,
                        to_tag,
                        members_of(dialplan),
                        timestamp,
                        config,
                    )
                },
            }
        },
    }
}

/// Handles one INVITE from its datagram to its answer, given what the
/// collaborators reply. A datagram that cannot be read leads to nothing.
/// The media service is asked for a port, and the start of the call is
/// announced, only where the claim is the first and the call is not active;
/// the call is in the registry whenever its answer is among the datagrams;
/// and where a collaborator fails the registry is as it was.
pub fn handle(
    request_str: &str,
    remote_addr: SocketAddress,
    trace_id: String,
    replies: &InviteReplies,
    to_tag: u32,
    now_ms: u64,
    timestamp: &str,
    calls: &mut ActiveCalls,
    config: &AppConfig,
) -> (r: InviteTranscript)
    ensures
        match r.context {
            None => parse_failure(request_str@) is Some && r.is_silent() && final(calls)@ == old(
                calls,
            )@,
            Some(context) => {
                &&& parse_failure(request_str@) is None
                &&& context.describes(request_str@)
                &&& context.remote_addr == remote_addr
                &&& context.trace_id == trace_id
                &&& transcript_matches(
                    r,
                    context,
                    *replies,
                    old(calls)@,
                    final(calls)@,
                    to_tag,
                    now_ms,
                    timestamp@,
                    *config,
                )
                &&& r.asked_port ==> replies.claim == Some(true) && !old(calls)@.contains_key(
                    context.call_id@,
                )
                &&& r.published is Some ==> r.asked_port && r.datagrams@.len() == 3
                &&& r.datagrams@.len() == 3 ==> final(calls)@.contains_key(context.call_id@)
                &&& r.published is None ==> final(calls)@ == old(calls)@
            },
        },
{
    let mut datagrams: Vec<String> = Vec::new();
    let context = match begin(request_str, remote_addr, trace_id) {
        InviteStart::Claim { context, .. } => context,
        InviteStart::Refused(_) => {
            return InviteTranscript {
                context: None,
                datagrams,
                asked_dialplan: false,
                asked_port: false,
                published: None,
            };
        },
    };
    let mut asked_dialplan = false;
    let mut asked_port = false;
    let mut published: Option<Event> = None;
    match after_claim(&context, replies.claim, calls, config) {
        InviteRoute::Duplicate => {},
        InviteRoute::Unavailable { response } => {
            datagrams.push(response);
        },
        InviteRoute::Proceed { trying, route } => {
            datagrams.push(trying);
            match route {
                Route::PeerLookup { .. } => {
                    datagrams.push(peer_unavailable(&context, replies.peer_found, config));
                },
                Route::Dialplan(_) => {
                    asked_dialplan = true;
                    asked_port = replies.dialplan.is_some();
                    match setup_and_finalize_call(
                        &context,
                        &replies.dialplan,
                        replies.rtp_port,
                        to_tag,
                        now_ms,
                        timestamp,
                        calls,
                        config,
                    ) {
                        SetupStep::Unavailable { response } => {
                            datagrams.push(response);
                        },
                        SetupStep::Answered(answer) => {
                            datagrams.push(answer.ringing);
                            datagrams.push(answer.ok);
                            published = Some(answer.started);
                        },
                    }
                },
            }
        },
    }
    let r = InviteTranscript {
        context: Some(context),
        datagrams,
        asked_dialplan,
        asked_port,
        published,
    };
    proof {
        if r.datagrams@.len() == 1 {
            assert(texts_of(r.datagrams@) =~= seq![r.datagrams@[0]@]);
        }
        if r.datagrams@.len() == 2 {
            assert(texts_of(r.datagrams@) =~= seq![r.datagrams@[0]@, r.datagrams@[1]@]);
        }
    }
    r
}

} // verus!
