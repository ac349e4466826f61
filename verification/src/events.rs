//! The lifecycle events the gateway announces on the message bus.
use crate::foreign::{
    all_groups_parse, all_parse, group_pairs, json_null, json_number, json_object, json_object_of,
    json_parses, json_string, json_string_of, member_pairs,
};
use crate::sip::utils::{extract_sdp_media_info_from_body, sdp_media_info};
use crate::state::ActiveCallInfo;
use crate::text::{decimal, str_eq};
use vstd::prelude::*;

verus! {

/// The exchange on which every event is published.
pub const RABBITMQ_EXCHANGE_NAME: &'static str = "sentiric_events";

/// An event, ready to be published: the routing key names its kind, the
/// payload is a JSON object.
#[derive(Clone, Debug)]
pub struct Event {
    pub routing_key: String,
    pub payload: String,
}

/// One member of a JSON object: its name, and its value as JSON text.
#[derive(Clone, Debug)]
pub struct JsonMember {
    pub name: String,
    pub value: String,
}

/// An object that is itself a member of a JSON object: the name it stands
/// under, and its own members.
#[derive(Clone, Debug)]
pub struct JsonGroup {
    pub name: String,
    pub members: Vec<JsonMember>,
}

/// The members that an optional list holds.
pub open spec fn members_of(dialplan: Option<Vec<JsonMember>>) -> Option<Seq<JsonMember>> {
    match dialplan {
        Some(members) => Some(members@),
        None => None,
    }
}

/// The members that every event carries: the Call-ID, the kind of the
/// event, the time, and the trace identifier.
pub open spec fn base_members(
    event_type: Seq<char>,
    trace_id: Seq<char>,
    call_id: Seq<char>,
    timestamp: Seq<char>,
) -> Seq<(Seq<char>, Seq<char>)> {
    seq![
        ("callId"@, json_string_of(call_id)),
        ("eventType"@, json_string_of(event_type)),
        ("timestamp"@, json_string_of(timestamp)),
        ("traceId"@, json_string_of(trace_id)),
    ]
}

/// The payload of an event that carries no more than its kind and the
/// identifiers of the call.
pub open spec fn plain_payload(
    event_type: Seq<char>,
    trace_id: Seq<char>,
    call_id: Seq<char>,
    timestamp: Seq<char>,
) -> Seq<char> {
    json_object_of(base_members(event_type, trace_id, call_id, timestamp), Seq::empty())
}

/// The payload that announces an answered call.
pub open spec fn answered_payload(
    trace_id: Seq<char>,
    call_id: Seq<char>,
    timestamp: Seq<char>,
) -> Seq<char> {
    plain_payload("call.answered"@, trace_id, call_id, timestamp)
}

/// The payload that announces the end of a call, with the reason for it.
pub open spec fn ended_payload(
    trace_id: Seq<char>,
    call_id: Seq<char>,
    reason: Seq<char>,
    timestamp: Seq<char>,
) -> Seq<char> {
    json_object_of(
        base_members("call.ended"@, trace_id, call_id, timestamp).push(
            ("reason"@, json_string_of(reason)),
        ),
        Seq::empty(),
    )
}

/// The name under which a member of the dialplan resolution is announced:
/// the two names written with an underscore are announced in camel case.
pub open spec fn announced_name(name: Seq<char>) -> Seq<char> {
    if name == "matched_user"@ {
        "matchedUser"@
    } else if name == "matched_contact"@ {
        "matchedContact"@
    } else {
        name
    }
}

/// Whether one of `members` has the name `name`.
pub open spec fn has_member(members: Seq<JsonMember>, name: Seq<char>) -> bool {
    exists|i: int| 0 <= i < members.len() && #[trigger] members[i].name@ == name
}

/// Whether member `i` is left out: a member that already has a camel-case
/// name gives way to the member that is renamed to it.
pub open spec fn is_shadowed(members: Seq<JsonMember>, i: int) -> bool {
    ||| members[i].name@ == "matchedUser"@ && has_member(members, "matched_user"@)
    ||| members[i].name@ == "matchedContact"@ && has_member(members, "matched_contact"@)
}

/// The first `n` members of a dialplan resolution as they are announced:
/// each under its announced name, without those that are left out.
pub open spec fn announced_members(members: Seq<JsonMember>, n: int) -> Seq<(Seq<char>, Seq<char>)>
    decreases n,
{
    if n <= 0 {
        Seq::empty()
    } else if is_shadowed(members, n - 1) {
        announced_members(members, n - 1)
    } else {
        announced_members(members, n - 1).push(
            (announced_name(members[n - 1].name@), members[n - 1].value@),
        )
    }
}

/// The caller's media address as JSON: a string, or `null` where the
/// request offered none.
pub open spec fn caller_address_text(address: Option<Seq<char>>) -> Seq<char> {
    match address {
        Some(a) => json_string_of(a),
        None => "null"@,
    }
}

/// The media addresses of a call as an object of the event: where the
/// caller expects media, and the port the gateway allocated.
pub open spec fn media_group(caller_address: Option<Seq<char>>, server_port: u32) -> (
    Seq<char>,
    Seq<(Seq<char>, Seq<char>)>,
) {
    (
        "mediaInfo"@,
        seq![
            ("callerRtpAddr"@, caller_address_text(caller_address)),
            ("serverRtpPort"@, decimal(server_port as nat)),
        ],
    )
}

/// The objects that the event of a call that was set up holds: the media
/// addresses, and the dialplan resolution where there is one and each of
/// its values reads as JSON. A resolution with a value that is no JSON is
/// left out.
pub open spec fn started_groups(
    caller_address: Option<Seq<char>>,
    server_port: u32,
    dialplan: Option<Seq<JsonMember>>,
) -> Seq<(Seq<char>, Seq<(Seq<char>, Seq<char>)>)> {
    let media = media_group(caller_address, server_port);
    match dialplan {
        Some(members) => {
            let announced = announced_members(members, members.len() as int);
            if all_parse(announced) {
                seq![media, ("dialplanResolution"@, announced)]
            } else {
                seq![media]
            }
        },
        None => seq![media],
    }
}

/// The members of the event that announces a call that was set up, other
/// than its objects.
pub open spec fn started_members(
    trace_id: Seq<char>,
    call_id: Seq<char>,
    from_uri: Seq<char>,
    to_uri: Seq<char>,
    timestamp: Seq<char>,
) -> Seq<(Seq<char>, Seq<char>)> {
    base_members("call.started"@, trace_id, call_id, timestamp).push(
        ("fromUri"@, json_string_of(from_uri)),
    ).push(("toUri"@, json_string_of(to_uri)))
}

/// The payload that announces a call that was set up.
pub open spec fn started_payload(
    trace_id: Seq<char>,
    call_id: Seq<char>,
    from_uri: Seq<char>,
    to_uri: Seq<char>,
    caller_address: Option<Seq<char>>,
    server_port: u32,
    dialplan: Option<Seq<JsonMember>>,
    timestamp: Seq<char>,
) -> Seq<char> {
    json_object_of(
        started_members(trace_id, call_id, from_uri, to_uri, timestamp),
        started_groups(caller_address, server_port, dialplan),
    )
}

fn text_member(name: &str, text: &str) -> (r: JsonMember)
    ensures
        r.name@ == name@,
        r.value@ == json_string_of(text@),
        json_parses(r.value@),
{
    JsonMember { name: String::from_str(name), value: json_string(text) }
}

fn base(event_type: &str, trace_id: &str, call_id: &str, timestamp: &str) -> (r: Vec<JsonMember>)
    ensures
        member_pairs(r@) == base_members(event_type@, trace_id@, call_id@, timestamp@),
        all_parse(member_pairs(r@)),
{
    let mut members: Vec<JsonMember> = Vec::new();
    members.push(text_member("callId", call_id));
    members.push(text_member("eventType", event_type));
    members.push(text_member("timestamp", timestamp));
    members.push(text_member("traceId", trace_id));
    assert(member_pairs(members@) =~= base_members(
        event_type@,
        trace_id@,
        call_id@,
        timestamp@,
    ));
    members
}

fn object_text(members: &Vec<JsonMember>, groups: &Vec<JsonGroup>) -> (r: String)
    requires
        all_parse(member_pairs(members@)),
        all_groups_parse(group_pairs(groups@)),
    ensures
        r@ == json_object_of(member_pairs(members@), group_pairs(groups@)),
{
    match json_object(members, groups) {
        Ok(text) => text,
        Err(_) => vstd::pervasive::unreached(),
    }
}

fn add_member(members: &mut Vec<JsonMember>, member: JsonMember)
    requires
        all_parse(member_pairs(old(members)@)),
        json_parses(member.value@),
    ensures
        member_pairs(final(members)@) == member_pairs(old(members)@).push(
            (member.name@, member.value@),
        ),
        all_parse(member_pairs(final(members)@)),
{
    members.push(member);
    assert(member_pairs(members@) =~= member_pairs(old(members)@).push(
        (member.name@, member.value@),
    ));
}

fn no_groups() -> (r: Vec<JsonGroup>)
    ensures
        group_pairs(r@) == Seq::<(Seq<char>, Seq<(Seq<char>, Seq<char>)>)>::empty(),
        all_groups_parse(group_pairs(r@)),
{
    let groups: Vec<JsonGroup> = Vec::new();
    assert(group_pairs(groups@) =~= Seq::<(Seq<char>, Seq<(Seq<char>, Seq<char>)>)>::empty());
    groups
}

/// The event of kind `event_type` that carries the identifiers of a call
/// and nothing else.
pub fn plain_event(event_type: &str, trace_id: &str, call_id: &str, timestamp: &str) -> (r: Event)
    ensures
        r.routing_key@ == event_type@,
        r.payload@ == plain_payload(event_type@, trace_id@, call_id@, timestamp@),
{
    let members = base(event_type, trace_id, call_id, timestamp);
    Event {
        routing_key: String::from_str(event_type),
        payload: object_text(&members, &no_groups()),
    }
}

/// The event that announces an answered call.
pub fn call_answered_event(trace_id: &str, call_id: &str, timestamp: &str) -> (r: Event)
    ensures
        r.routing_key@ == "call.answered"@,
        r.payload@ == answered_payload(trace_id@, call_id@, timestamp@),
{
    plain_event("call.answered", trace_id, call_id, timestamp)
}

/// The event that announces the end of a call.
pub fn call_ended_event(trace_id: &str, call_id: &str, reason: &str, timestamp: &str) -> (r: Event)
    ensures
        r.routing_key@ == "call.ended"@,
        r.payload@ == ended_payload(trace_id@, call_id@, reason@, timestamp@),
{
    let mut members = base("call.ended", trace_id, call_id, timestamp);
    add_member(&mut members, text_member("reason", reason));
    Event {
        routing_key: String::from_str("call.ended"),
        payload: object_text(&members, &no_groups()),
    }
}

fn member_named(members: &Vec<JsonMember>, name: &str) -> (r: bool)
    ensures
        r == has_member(members@, name@),
{
    let mut i: usize = 0;
    while i < members.len()
        invariant
            i <= members.len(),
            forall|j: int| 0 <= j < i ==> #[trigger] members@[j].name@ != name@,
        decreases members.len() - i,
    {
        if str_eq(members[i].name.as_str(), name) {
            return true;
        }
        i += 1;
    }
    false
}

/// The members of a dialplan resolution as they are announced: the two
/// names written with an underscore are renamed to camel case, and a member
/// that already has such a name gives way to the renamed one.
pub fn announce_members(members: &Vec<JsonMember>) -> (r: Vec<JsonMember>)
    ensures
        member_pairs(r@) == announced_members(members@, members.len() as int),
{
    let renames_user = member_named(members, "matched_user");
    let renames_contact = member_named(members, "matched_contact");
    let mut out: Vec<JsonMember> = Vec::new();
    let mut i: usize = 0;
    assert(member_pairs(out@) =~= announced_members(members@, 0));
    while i < members.len()
        invariant
            i <= members.len(),
            renames_user == has_member(members@, "matched_user"@),
            renames_contact == has_member(members@, "matched_contact"@),
            member_pairs(out@) == announced_members(members@, i as int),
        decreases members.len() - i,
    {
        let name = members[i].name.as_str();
        let shadowed = (str_eq(name, "matchedUser") && renames_user) || (str_eq(
            name,
            "matchedContact",
        ) && renames_contact);
        if !shadowed {
            let ghost before = member_pairs(out@);
            let announced = if str_eq(name, "matched_user") {
                String::from_str("matchedUser")
            } else if str_eq(name, "matched_contact") {
                String::from_str("matchedContact")
            } else {
                String::from_str(name)
            };
            out.push(JsonMember { name: announced, value: members[i].value.clone() });
            assert(member_pairs(out@) =~= before.push(
                (announced_name(name@), members@[i as int].value@),
            ));
        }
        i += 1;
    }
    out
}

/// The event that announces a call that was set up: who calls whom, where
/// the caller expects media, which port the gateway allocated, and how the
/// dialplan resolved the call. A resolution with a value that is no JSON is
/// left out of the event.
pub fn call_started_event(
    call_info: &ActiveCallInfo,
    dialplan: &Option<Vec<JsonMember>>,
    timestamp: &str,
) -> (r: Event)
    ensures
        r.routing_key@ == "call.started"@,
        r.payload@ == started_payload(
            call_info.trace_id@,
            call_info.call_id@,
            call_info.from_header@,
            call_info.to_header@,
            sdp_media_info(call_info.raw_body@),
            call_info.rtp_port,
            members_of(*dialplan),
            timestamp@,
        ),
{
    let caller_address = match extract_sdp_media_info_from_body(call_info.raw_body.as_str()) {
        Some(address) => json_string(address.as_str()),
        None => json_null(),
    };
    let mut media: Vec<JsonMember> = Vec::new();
    media.push(JsonMember { name: String::from_str("callerRtpAddr"), value: caller_address });
    media.push(
        JsonMember {
            name: String::from_str("serverRtpPort"),
            value: json_number(call_info.rtp_port as u64),
        },
    );
    let ghost media_pairs = media_group(
        sdp_media_info(call_info.raw_body@),
        call_info.rtp_port,
    );
    assert(member_pairs(media@) =~= media_pairs.1);
    let mut groups: Vec<JsonGroup> = Vec::new();
    groups.push(JsonGroup { name: String::from_str("mediaInfo"), members: media });
    assert(group_pairs(groups@) =~= seq![media_pairs]);
    let mut members = base(
        "call.started",
        call_info.trace_id.as_str(),
        call_info.call_id.as_str(),
        timestamp,
    );
    add_member(&mut members, text_member("fromUri", call_info.from_header.as_str()));
    add_member(&mut members, text_member("toUri", call_info.to_header.as_str()));
    match dialplan {
        Some(resolved) => {
            let announced = announce_members(resolved);
            let ghost announced_pairs = member_pairs(announced@);
            groups.push(
                JsonGroup { name: String::from_str("dialplanResolution"), members: announced },
            );
            assert(group_pairs(groups@) =~= seq![
                media_pairs,
                ("dialplanResolution"@, announced_pairs),
            ]);
            match json_object(&members, &groups) {
                Ok(payload) => {
                    assert(all_parse(group_pairs(groups@)[1].1));
                    return Event { routing_key: String::from_str("call.started"), payload };
                },
                Err(_) => {
                    groups.pop();
                    assert(group_pairs(groups@) =~= seq![media_pairs]);
                },
            }
        },
        None => {},
    }
    Event {
        routing_key: String::from_str("call.started"),
        payload: object_text(&members, &groups),
    }
}

} // verus!
