use sip_signaling::config::{default_env, default_rust_log, default_version, AppConfig, PlatformConfig};
use sip_signaling::sip::handler::{classify_request, handle_sip_request, Incoming, SipMethod};
use std::sync::Arc;

#[test]
fn method_is_told_by_the_first_word() {
    assert_eq!(classify_request("REGISTER sip:x SIP/2.0\r\n"), SipMethod::Register);
    assert_eq!(classify_request("INVITE sip:x SIP/2.0\r\n"), SipMethod::Invite);
    assert_eq!(classify_request("BYE sip:x SIP/2.0\r\n"), SipMethod::Bye);
    assert_eq!(classify_request("ACK sip:x SIP/2.0\r\n"), SipMethod::Ack);
    assert_eq!(classify_request("OPTIONS sip:x SIP/2.0\r\n"), SipMethod::Other);
    assert_eq!(classify_request("invite sip:x SIP/2.0\r\n"), SipMethod::Other);
    assert_eq!(classify_request(" INVITE"), SipMethod::Other);
    assert_eq!(classify_request(""), SipMethod::Other);
    assert_eq!(classify_request("SIP/2.0 200 OK\r\n"), SipMethod::Other);
}

#[test]
fn datagram_is_decoded_and_classified() {
    match handle_sip_request("BYE sip:\u{e7}@h SIP/2.0".as_bytes()) {
        Incoming::Request { method, text } => {
            assert_eq!(method, SipMethod::Bye);
            assert_eq!(text, "BYE sip:\u{e7}@h SIP/2.0");
        }
        Incoming::Invalid => panic!("expected a request"),
    }
    match handle_sip_request(b"") {
        Incoming::Request { method, text } => {
            assert_eq!(method, SipMethod::Other);
            assert_eq!(text, "");
        }
        Incoming::Invalid => panic!("expected a request"),
    }
}

#[test]
fn bytes_that_are_no_text_are_invalid() {
    assert!(matches!(handle_sip_request(&[0x49, 0x4e, 0xff, 0xfe]), Incoming::Invalid));
    assert!(matches!(handle_sip_request(&[0xc3]), Incoming::Invalid));
}

#[test]
fn defaults_of_the_configuration() {
    assert_eq!(default_env(), "development");
    assert_eq!(default_rust_log(), "info,h2=warn,hyper=warn");
    assert_eq!(default_version(None), "0.1.0");
    assert_eq!(default_version(Some("2.0.0".to_string())), "2.0.0");
}

#[test]
fn service_settings_follow_the_platform_settings() {
    let platform = PlatformConfig {
        env: "production".to_string(),
        rust_log: "debug".to_string(),
        service_version: "9.9.9".to_string(),
        grpc_tls_ca_path: "/ca".to_string(),
        redis_url: "redis://r".to_string(),
        rabbitmq_url: "amqp://q".to_string(),
        media_service_public_ip: "203.0.113.10".to_string(),
        media_service_target_grpc_url: "media:1".to_string(),
        user_service_target_grpc_url: "user:2".to_string(),
        dialplan_service_target_grpc_url: "dialplan:3".to_string(),
        sip_signaling_udp_port: 5070,
        sip_signaling_realm: "sentiric.test".to_string(),
        sip_signaling_cert_path: "/cert".to_string(),
        sip_signaling_key_path: "/key".to_string(),
    };
    let config = AppConfig::from(Arc::new(platform));
    assert_eq!(config.env, "production");
    assert_eq!(config.rust_log, "debug");
    assert_eq!(config.service_version, "9.9.9");
    assert_eq!(config.ca_path, "/ca");
    assert_eq!(config.cert_path, "/cert");
    assert_eq!(config.key_path, "/key");
    assert_eq!(config.sip_listen_addr.ip, "0.0.0.0");
    assert_eq!(config.sip_listen_addr.port, 5070);
    assert_eq!(config.sip_public_ip, "203.0.113.10");
    assert_eq!(config.media_service_public_ip, "203.0.113.10");
    assert_eq!(config.sip_realm, "sentiric.test");
    assert_eq!(config.media_service_url, "media:1");
    assert_eq!(config.user_service_url, "user:2");
    assert_eq!(config.dialplan_service_url, "dialplan:3");
    assert_eq!(config.redis_url, "redis://r");
    assert_eq!(config.rabbitmq_url, "amqp://q");
}
