use sip_signaling::config::SocketAddress;
use sip_signaling::events::{
    announce_members, call_answered_event, call_ended_event, call_started_event, plain_event,
    JsonMember, RABBITMQ_EXCHANGE_NAME,
};
use sip_signaling::sip::invite::orchestrator::publish_call_event;
use sip_signaling::state::ActiveCallInfo;
use sip_signaling::strmap::StringMap;

fn call(body: &str) -> ActiveCallInfo {
    ActiveCallInfo {
        remote_addr: SocketAddress { ip: "198.51.100.7".to_string(), port: 40000 },
        rtp_port: 30000,
        trace_id: "trace-1".to_string(),
        to_tag: "77".to_string(),
        created_at: 0,
        headers: StringMap::new(),
        via_headers: Vec::new(),
        call_id: "abc123".to_string(),
        from_header: "\"Ali\" <sip:1@h>".to_string(),
        to_header: "<sip:2@h>".to_string(),
        contact_header: String::new(),
        record_route_header: None,
        raw_body: body.to_string(),
        answered_event_published: false,
    }
}

fn member(name: &str, value: &str) -> JsonMember {
    JsonMember { name: name.to_string(), value: value.to_string() }
}

#[test]
fn exchange_has_its_name() {
    assert_eq!(RABBITMQ_EXCHANGE_NAME, "sentiric_events");
}

#[test]
fn answered_event_names_the_call() {
    let event = call_answered_event("trace-1", "abc123", "2024-01-01T00:00:00+00:00");
    assert_eq!(event.routing_key, "call.answered");
    assert_eq!(
        event.payload,
        "{\"callId\":\"abc123\",\"eventType\":\"call.answered\",\"timestamp\":\"2024-01-01T00:00:00+00:00\",\"traceId\":\"trace-1\"}"
    );
}

#[test]
fn ended_event_names_the_reason() {
    let event = call_ended_event("trace-1", "abc123", "normal_clearing", "T");
    assert_eq!(event.routing_key, "call.ended");
    assert_eq!(
        event.payload,
        "{\"callId\":\"abc123\",\"eventType\":\"call.ended\",\"reason\":\"normal_clearing\",\"timestamp\":\"T\",\"traceId\":\"trace-1\"}"
    );
}

#[test]
fn texts_are_escaped_as_json_strings() {
    let event = call_answered_event("t\"1\\", "a\nb\u{1}", "\u{e7}");
    assert_eq!(
        event.payload,
        "{\"callId\":\"a\\nb\\u0001\",\"eventType\":\"call.answered\",\"timestamp\":\"\u{e7}\",\"traceId\":\"t\\\"1\\\\\"}"
    );
    let parsed: serde_json::Value = match serde_json::from_str(&event.payload) {
        Ok(v) => v,
        Err(e) => panic!("no JSON: {}", e),
    };
    assert_eq!(parsed["callId"], "a\nb\u{1}");
    assert_eq!(parsed["traceId"], "t\"1\\");
}

#[test]
fn started_event_without_resolution_or_offer() {
    let event = call_started_event(&call(""), &None, "T");
    assert_eq!(event.routing_key, "call.started");
    assert_eq!(
        event.payload,
        "{\"callId\":\"abc123\",\"eventType\":\"call.started\",\"fromUri\":\"\\\"Ali\\\" <sip:1@h>\",\"mediaInfo\":{\"callerRtpAddr\":null,\"serverRtpPort\":30000},\"timestamp\":\"T\",\"toUri\":\"<sip:2@h>\",\"traceId\":\"trace-1\"}"
    );
}

#[test]
fn started_event_carries_offer_and_resolution() {
    let dialplan = Some(vec![
        member("dialplan_id", "\"dp-1\""),
        member("matchedUser", "\"stale\""),
        member("matched_user", "{\"id\":\"u1\"}"),
        member("matched_contact", "null"),
        member("tenant_id", "\"t1\""),
    ]);
    let event = call_started_event(&call("c=IN IP4 10.0.0.5\r\nm=audio 4000 RTP/AVP 0\r\n"), &dialplan, "T");
    assert_eq!(
        event.payload,
        "{\"callId\":\"abc123\",\"dialplanResolution\":{\"dialplan_id\":\"dp-1\",\"matchedContact\":null,\"matchedUser\":{\"id\":\"u1\"},\"tenant_id\":\"t1\"},\"eventType\":\"call.started\",\"fromUri\":\"\\\"Ali\\\" <sip:1@h>\",\"mediaInfo\":{\"callerRtpAddr\":\"10.0.0.5:4000\",\"serverRtpPort\":30000},\"timestamp\":\"T\",\"toUri\":\"<sip:2@h>\",\"traceId\":\"trace-1\"}"
    );
    let parsed: serde_json::Value = match serde_json::from_str(&event.payload) {
        Ok(v) => v,
        Err(e) => panic!("no JSON: {}", e),
    };
    assert_eq!(parsed["dialplanResolution"]["matchedUser"]["id"], "u1");
    assert_eq!(parsed["mediaInfo"]["serverRtpPort"], 30000);
}

#[test]
fn resolution_with_a_value_that_is_no_json_is_left_out() {
    let dialplan = Some(vec![member("dialplan_id", "\"dp-1\""), member("action", "{broken")]);
    let event = call_started_event(&call(""), &dialplan, "T");
    assert_eq!(event.payload, call_started_event(&call(""), &None, "T").payload);
}

#[test]
fn deeply_nested_resolution_is_announced() {
    let deep = format!("{}{}", "[".repeat(127), "]".repeat(127));
    let dialplan = Some(vec![member("action", &deep), member("dialplan_id", "\"dp\"")]);
    let event = call_started_event(&call(""), &dialplan, "T");
    assert!(event.payload.starts_with(&format!(
        "{{\"callId\":\"abc123\",\"dialplanResolution\":{{\"action\":{},\"dialplan_id\":\"dp\"}},\"eventType\"",
        deep
    )));
    let too_deep = format!("{}{}", "[".repeat(128), "]".repeat(128));
    let dialplan = Some(vec![member("action", &too_deep)]);
    let event = call_started_event(&call(""), &dialplan, "T");
    assert_eq!(event.payload, call_started_event(&call(""), &None, "T").payload);
}

#[test]
fn members_are_announced_in_camel_case() {
    let announced = announce_members(&vec![
        member("matchedContact", "1"),
        member("matched_contact", "2"),
        member("matchedUser", "3"),
        member("other", "4"),
    ]);
    let pairs: Vec<(String, String)> =
        announced.iter().map(|m| (m.name.clone(), m.value.clone())).collect();
    assert_eq!(
        pairs,
        vec![
            ("matchedContact".to_string(), "2".to_string()),
            ("matchedUser".to_string(), "3".to_string()),
            ("other".to_string(), "4".to_string())
        ]
    );
}

#[test]
fn plain_event_carries_the_identifiers() {
    let event = plain_event("call.held", "t", "c", "T");
    assert_eq!(event.routing_key, "call.held");
    assert_eq!(
        event.payload,
        "{\"callId\":\"c\",\"eventType\":\"call.held\",\"timestamp\":\"T\",\"traceId\":\"t\"}"
    );
}

#[test]
fn started_event_with_empty_resolution() {
    let event = call_started_event(&call(""), &Some(Vec::new()), "T");
    assert!(event.payload.starts_with("{\"callId\":\"abc123\",\"dialplanResolution\":{},\"eventType\""));
}

#[test]
fn event_of_another_kind_carries_the_identifiers_alone() {
    let event = publish_call_event("call.held", &call(""), &None, "T");
    assert_eq!(event.routing_key, "call.held");
    assert_eq!(
        event.payload,
        "{\"callId\":\"abc123\",\"eventType\":\"call.held\",\"timestamp\":\"T\",\"traceId\":\"trace-1\"}"
    );
    let started = publish_call_event("call.started", &call(""), &None, "T");
    assert_eq!(started.payload, call_started_event(&call(""), &None, "T").payload);
    assert_eq!(started.routing_key, "call.started");
}
