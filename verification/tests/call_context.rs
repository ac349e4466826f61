use sip_signaling::config::SocketAddress;
use sip_signaling::error::{ParseError, ServiceError};
use sip_signaling::sip::call_context::CallContext;

fn remote() -> SocketAddress {
    SocketAddress { ip: "198.51.100.7".to_string(), port: 40000 }
}

const INVITE: &str = "INVITE sip:905551112233@gw SIP/2.0\r\nVia: SIP/2.0/UDP 10.0.0.5:5060;branch=z9hG4bK1;rport\r\nVia: SIP/2.0/UDP 10.0.0.9:5060;branch=z9hG4bK2\r\nFrom: \"Ali\" <sip:05551234567@10.0.0.5>;tag=abc\r\nTo: <sip:5551112233@gw>\r\nCall-ID: abc123\r\nCSeq: 1 INVITE\r\nContact: <sip:05551234567@10.0.0.5:5060>\r\nRecord-Route: <sip:proxy;lr>\r\nContent-Type: application/sdp\r\n\r\nv=0\r\nc=IN IP4 10.0.0.5\r\n\r\nm=audio 4000 RTP/AVP 0\r\n";

#[test]
fn context_holds_fields_vias_body_and_numbers() {
    let ctx = match CallContext::from_request(INVITE, remote(), "trace-1".to_string()) {
        Ok(ctx) => ctx,
        Err(e) => panic!("refused: {}", e.message()),
    };
    assert_eq!(
        ctx.via_headers,
        vec![
            "Via: SIP/2.0/UDP 10.0.0.5:5060;branch=z9hG4bK1;rport".to_string(),
            "Via: SIP/2.0/UDP 10.0.0.9:5060;branch=z9hG4bK2".to_string()
        ]
    );
    assert_eq!(ctx.raw_body, "v=0\r\nc=IN IP4 10.0.0.5\r\n\r\nm=audio 4000 RTP/AVP 0\r\n");
    assert_eq!(ctx.call_id, "abc123");
    assert_eq!(ctx.from_header, "\"Ali\" <sip:05551234567@10.0.0.5>;tag=abc");
    assert_eq!(ctx.to_header, "<sip:5551112233@gw>");
    assert_eq!(ctx.contact_header, "<sip:05551234567@10.0.0.5:5060>");
    assert_eq!(ctx.record_route_header, Some("<sip:proxy;lr>".to_string()));
    assert_eq!(ctx.caller_id, "905551234567");
    assert_eq!(ctx.destination_number, "905551112233");
    assert_eq!(ctx.trace_id, "trace-1");
    assert_eq!(ctx.remote_addr.ip, "198.51.100.7");
    assert_eq!(ctx.remote_addr.port, 40000);
    assert_eq!(ctx.headers.get("cseq"), Some(&"1 INVITE".to_string()));
    assert_eq!(ctx.headers.get("content-type"), Some(&"application/sdp".to_string()));
    assert!(ctx.headers.get("via").is_none());
}

#[test]
fn header_names_are_found_whatever_their_case() {
    let request = "BYE sip:x SIP/2.0\r\nVIA: SIP/2.0/UDP h\r\nCALL-ID: Mixed-Case-ID\r\nfrom: <sip:alice@h>\r\n\r\n";
    let ctx = match CallContext::from_request(request, remote(), String::new()) {
        Ok(ctx) => ctx,
        Err(e) => panic!("refused: {}", e.message()),
    };
    assert_eq!(ctx.call_id, "Mixed-Case-ID");
    assert_eq!(ctx.via_headers, vec!["VIA: SIP/2.0/UDP h".to_string()]);
    assert_eq!(ctx.caller_id, "unknown");
    assert_eq!(ctx.destination_number, "unknown");
    assert_eq!(ctx.to_header, "");
    assert_eq!(ctx.record_route_header, None);
    assert_eq!(ctx.raw_body, "");
}

#[test]
fn request_without_via_is_refused() {
    let request = "INVITE sip:x SIP/2.0\r\nCall-ID: abc\r\n\r\n";
    match CallContext::from_request(request, remote(), String::new()) {
        Err(ServiceError::SipParse(ParseError::MissingVia)) => {}
        _ => panic!("expected MissingVia"),
    }
}

#[test]
fn via_in_the_body_does_not_count() {
    let request = "INVITE sip:x SIP/2.0\r\nCall-ID: abc\r\n\r\nVia: SIP/2.0/UDP h\r\n";
    match CallContext::from_request(request, remote(), String::new()) {
        Err(ServiceError::SipParse(ParseError::MissingVia)) => {}
        _ => panic!("expected MissingVia"),
    }
}

#[test]
fn request_without_call_id_is_refused() {
    let request = "INVITE sip:x SIP/2.0\r\nv: SIP/2.0/UDP h\r\nFrom: <sip:1@h>\r\n\r\n";
    match CallContext::from_request(request, remote(), String::new()) {
        Err(ServiceError::SipParse(ParseError::MissingCallId)) => {}
        _ => panic!("expected MissingCallId"),
    }
}

#[test]
fn later_field_of_the_same_name_wins() {
    let request = "INVITE sip:x SIP/2.0\r\nVia: a\r\nCall-ID: first\r\nCall-ID: second\r\n\r\n";
    let ctx = match CallContext::from_request(request, remote(), String::new()) {
        Ok(ctx) => ctx,
        Err(e) => panic!("refused: {}", e.message()),
    };
    assert_eq!(ctx.call_id, "second");
}

#[test]
fn parse_errors_have_messages() {
    assert_eq!(
        ServiceError::SipParse(ParseError::MissingVia).message(),
        "SIP paketi ayrıştırılamadı: Via başlığı bulunamadı"
    );
    assert_eq!(ParseError::MissingCallId.message(), "Call-ID başlığı bulunamadı");
    assert_eq!(ServiceError::Generic("x".to_string()).message(), "Beklenmedik bir hata oluştu: x");
    assert_eq!(ServiceError::Redis("down".to_string()).message(), "Redis hatası: down");
    assert_eq!(ServiceError::Config("x".to_string()).message(), "Yapılandırma hatası: x");
    assert_eq!(ServiceError::Io("x".to_string()).message(), "I/O hatası: x");
    assert_eq!(ServiceError::GrpcClient("x".to_string()).message(), "gRPC istemci hatası: x");
    assert_eq!(ServiceError::GrpcStatus("x".to_string()).message(), "gRPC servis hatası: x");
    assert_eq!(ServiceError::RabbitMq("x".to_string()).message(), "RabbitMQ hatası: x");
    assert_eq!(
        ServiceError::SerdeJson("x".to_string()).message(),
        "Serileştirme hatası (serde_json): x"
    );
    assert_eq!(ServiceError::InvalidHeader("x".to_string()).message(), "Geçersiz başlık (Tonic): x");
    assert_eq!(ServiceError::TracingFilter("x".to_string()).message(), "Loglama filtresi hatası: x");
    assert_eq!(
        ServiceError::SipParse(ParseError::MissingCallId).message(),
        "SIP paketi ayrıştırılamadı: Call-ID başlığı bulunamadı"
    );
}

#[test]
fn context_is_built_from_parts() {
    let mut headers: sip_signaling::strmap::StringMap<String> = sip_signaling::strmap::StringMap::new();
    headers.put("from".to_string(), "<sip:05551234567@h>".to_string());
    let refused = CallContext::from_parts(
        headers.duplicate(),
        vec!["Via: v".to_string()],
        String::new(),
        remote(),
        "t".to_string(),
    );
    assert!(matches!(refused, Err(ServiceError::SipParse(ParseError::MissingCallId))));
    headers.put("call-id".to_string(), "c1".to_string());
    let ctx = match CallContext::from_parts(headers, vec!["Via: v".to_string()], "body".to_string(), remote(), "t".to_string()) {
        Ok(ctx) => ctx,
        Err(e) => panic!("refused: {}", e.message()),
    };
    assert_eq!(ctx.call_id, "c1");
    assert_eq!(ctx.caller_id, "905551234567");
    assert_eq!(ctx.destination_number, "unknown");
    assert_eq!(ctx.raw_body, "body");
    assert_eq!(ctx.via_headers, vec!["Via: v".to_string()]);
    assert_eq!(ctx.trace_id, "t");
}
