use sip_signaling::config::{AppConfig, SocketAddress};
use sip_signaling::sip::call_context::CallContext;
use sip_signaling::sip::responses::{
    build_180_ringing, build_200_ok_with_sdp, build_200_ok_with_session, create_response,
    create_response_from_parts, create_response_with_contact, own_contact, sdp_answer,
};
use sip_signaling::strmap::StringMap;

fn config() -> AppConfig {
    AppConfig {
        env: "test".to_string(),
        service_version: "1.2.3".to_string(),
        rust_log: "info".to_string(),
        cert_path: String::new(),
        key_path: String::new(),
        ca_path: String::new(),
        sip_listen_addr: SocketAddress { ip: "0.0.0.0".to_string(), port: 5060 },
        sip_public_ip: "203.0.113.10".to_string(),
        sip_realm: "sentiric.test".to_string(),
        media_service_public_ip: "203.0.113.10".to_string(),
        media_service_url: String::new(),
        dialplan_service_url: String::new(),
        user_service_url: String::new(),
        rabbitmq_url: String::new(),
        redis_url: String::new(),
    }
}

fn remote() -> SocketAddress {
    SocketAddress { ip: "198.51.100.7".to_string(), port: 40000 }
}

const REQUEST: &str = "INVITE sip:905551112233@gw SIP/2.0\r\nVia: SIP/2.0/UDP 10.0.0.5:5060;branch=z9hG4bK1;rport\r\nVia: SIP/2.0/UDP 10.0.0.9;received=10.0.0.9;rport\r\nVia: SIP/2.0/UDP 10.0.0.8\r\nFrom: <sip:05551234567@10.0.0.5>;tag=abc\r\nTo: <sip:905551112233@gw>\r\nCall-ID: abc123\r\nCSeq: 1 INVITE\r\n\r\n";

fn context() -> CallContext {
    match CallContext::from_request(REQUEST, remote(), "t".to_string()) {
        Ok(ctx) => ctx,
        Err(e) => panic!("refused: {}", e.message()),
    }
}

const HEAD: &str = "Via: SIP/2.0/UDP 10.0.0.5:5060;branch=z9hG4bK1;rport;received=198.51.100.7\r\nVia: SIP/2.0/UDP 10.0.0.9;received=10.0.0.9;rport\r\nVia: SIP/2.0/UDP 10.0.0.8\r\nFrom: <sip:05551234567@10.0.0.5>;tag=abc\r\nTo: <sip:905551112233@gw>\r\nCall-ID: abc123\r\nCSeq: 1 INVITE\r\n";

#[test]
fn response_without_body_mirrors_the_request() {
    let expected = format!(
        "SIP/2.0 100 Trying\r\n{}Contact: <sip:sentiric-signal@203.0.113.10:5060>\r\nServer: Sentiric Signaling Service v1.2.3\r\nContent-Length: 0\r\n\r\n",
        HEAD
    );
    assert_eq!(create_response("100 Trying", &context(), None, &config()), expected);
}

#[test]
fn response_with_body_names_its_type_and_length() {
    let body = "v=0\r\ns=\u{e7}a\u{11f}r\u{131}\r\n";
    let expected = format!(
        "SIP/2.0 200 OK\r\n{}Contact: <sip:sentiric-signal@203.0.113.10:5060>\r\nServer: Sentiric Signaling Service v1.2.3\r\nContent-Length: 17\r\nContent-Type: application/sdp\r\n\r\n{}",
        HEAD, body
    );
    assert_eq!(body.len(), 17);
    assert_eq!(create_response("200 OK", &context(), Some(body), &config()), expected);
}

#[test]
fn same_inputs_give_the_same_response() {
    let ctx = context();
    let first = create_response("486 Busy Here", &ctx, Some("v=0\r\n"), &config());
    let second = create_response("486 Busy Here", &ctx, Some("v=0\r\n"), &config());
    assert_eq!(first, second);
    let again = create_response("486 Busy Here", &context(), Some("v=0\r\n"), &config());
    assert_eq!(first.as_bytes(), again.as_bytes());
}

#[test]
fn response_from_parts_without_fields_or_vias() {
    let headers: StringMap<String> = StringMap::new();
    let vias: Vec<String> = Vec::new();
    assert_eq!(
        create_response_from_parts("404 Not Found", &headers, &vias, None, &config(), &remote()),
        "SIP/2.0 404 Not Found\r\n\r\nFrom: \r\nTo: \r\nCall-ID: \r\nCSeq: \r\nContact: <sip:sentiric-signal@203.0.113.10:5060>\r\nServer: Sentiric Signaling Service v1.2.3\r\nContent-Length: 0\r\n\r\n"
    );
}

#[test]
fn challenge_field_is_sent_where_present() {
    let mut headers: StringMap<String> = StringMap::new();
    headers.insert("call-id".to_string(), "r1".to_string());
    headers.insert("www-authenticate".to_string(), "Digest realm=\"x\"".to_string());
    let vias = vec!["Via: SIP/2.0/UDP h".to_string()];
    assert_eq!(
        create_response_from_parts("401 Unauthorized", &headers, &vias, None, &config(), &remote()),
        "SIP/2.0 401 Unauthorized\r\nVia: SIP/2.0/UDP h\r\nFrom: \r\nTo: \r\nCall-ID: r1\r\nCSeq: \r\nWWW-Authenticate: Digest realm=\"x\"\r\nContact: <sip:sentiric-signal@203.0.113.10:5060>\r\nServer: Sentiric Signaling Service v1.2.3\r\nContent-Length: 0\r\n\r\n"
    );
}

#[test]
fn contact_can_be_set() {
    let headers: StringMap<String> = StringMap::new();
    let vias = vec!["v: x".to_string()];
    assert_eq!(
        create_response_with_contact("200 OK", &headers, &vias, None, "<sip:a@b>;expires=60", &config(), &remote()),
        "SIP/2.0 200 OK\r\nv: x\r\nFrom: \r\nTo: \r\nCall-ID: \r\nCSeq: \r\nContact: <sip:a@b>;expires=60\r\nServer: Sentiric Signaling Service v1.2.3\r\nContent-Length: 0\r\n\r\n"
    );
    assert_eq!(own_contact(&config()), "<sip:sentiric-signal@203.0.113.10:5060>");
}

#[test]
fn ringing_is_a_response_without_body() {
    let ctx = context();
    assert_eq!(
        build_180_ringing(&ctx.headers, &ctx.via_headers, &config(), &ctx.remote_addr),
        create_response("180 Ringing", &ctx, None, &config())
    );
}

#[test]
fn session_description_names_address_and_port() {
    assert_eq!(
        sdp_answer(42, "203.0.113.10", 30000),
        "v=0\r\no=- 42 42 IN IP4 203.0.113.10\r\ns=Sentiric\r\nc=IN IP4 203.0.113.10\r\nt=0 0\r\nm=audio 30000 RTP/AVP 0\r\na=rtpmap:0 PCMU/8000\r\n"
    );
}

#[test]
fn ok_carries_the_session_description() {
    let ctx = context();
    let sdp = sdp_answer(7, "203.0.113.10", 30000);
    assert_eq!(
        build_200_ok_with_session(&ctx.headers, &ctx.via_headers, 30000, 7, &config(), &ctx.remote_addr),
        create_response("200 OK", &ctx, Some(&sdp), &config())
    );
}

#[test]
fn ok_for_the_same_call_is_always_the_same_text() {
    let ctx = context();
    let ok = build_200_ok_with_sdp(&ctx.headers, &ctx.via_headers, 30000, &config(), &ctx.remote_addr);
    let again = build_200_ok_with_sdp(&ctx.headers, &ctx.via_headers, 30000, &config(), &ctx.remote_addr);
    assert_eq!(ok.as_bytes(), again.as_bytes());
    let sdp = "v=0\r\no=- 30000 30000 IN IP4 203.0.113.10\r\ns=Sentiric\r\nc=IN IP4 203.0.113.10\r\nt=0 0\r\nm=audio 30000 RTP/AVP 0\r\na=rtpmap:0 PCMU/8000\r\n";
    assert_eq!(ok, create_response("200 OK", &ctx, Some(sdp), &config()));
    assert_eq!(
        ok,
        build_200_ok_with_session(&ctx.headers, &ctx.via_headers, 30000, 30000, &config(), &ctx.remote_addr)
    );
}
