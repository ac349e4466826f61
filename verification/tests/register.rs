use sip_signaling::config::{AppConfig, SocketAddress};
use sip_signaling::error::{ParseError, ServiceError};
use sip_signaling::sip::call_context::CallContext;
use sip_signaling::sip::register::{
    after_binding, begin, challenge_client, challenge_with_fresh_nonce, compute_digest_response,
    digest_response_input, digest_second_input, hex_lower, md5_hex_of, parse_digest_params,
    read_credentials, verdict, verify_authentication, BindingUpdate, ChallengeStep, DigestCredentials,
    RegisterStart, RegisterVerdict, DEFAULT_EXPIRES_SECS,
};

fn config() -> AppConfig {
    AppConfig {
        env: "test".to_string(),
        service_version: "1.2.3".to_string(),
        rust_log: "info".to_string(),
        cert_path: String::new(),
        key_path: String::new(),
        ca_path: String::new(),
        sip_listen_addr: SocketAddress { ip: "0.0.0.0".to_string(), port: 5060 },
        sip_public_ip: "203.0.113.10".to_string(),
        sip_realm: "sentiric.test".to_string(),
        media_service_public_ip: "203.0.113.10".to_string(),
        media_service_url: String::new(),
        dialplan_service_url: String::new(),
        user_service_url: String::new(),
        rabbitmq_url: String::new(),
        redis_url: String::new(),
    }
}

fn remote() -> SocketAddress {
    SocketAddress { ip: "198.51.100.7".to_string(), port: 40000 }
}

fn text(v: &Vec<char>) -> String {
    v.iter().collect()
}

const HA1: &str = "939e7578ed9e3c518a452acee763bce9";
const NONCE: &str = "dcd98b7102dd2f0e8b11d0f600bfb0c093";

fn some(s: &str) -> Option<String> {
    Some(s.to_string())
}

#[test]
fn md5_digests_in_lower_case_hex() {
    assert_eq!(text(&md5_hex_of("")), "d41d8cd98f00b204e9800998ecf8427e");
    assert_eq!(text(&md5_hex_of("abcdefghijklmnopqrstuvwxyz")), "c3fcd3d76192e4007dfb496cca67e13b");
    assert_eq!(text(&md5_hex_of("\u{e7}a\u{11f}r\u{131}")), "7ac703e19107c0e1a4668623c346e159");
    assert_eq!(text(&md5_hex_of("Mufasa:testrealm@host.com:Circle Of Life")), HA1);
    assert_eq!(text(&hex_lower(&vec![0x00, 0x0f, 0xa0, 0xff, 0x9c])), "000fa0ff9c");
    assert_eq!(text(&hex_lower(&Vec::new())), "");
}

#[test]
fn digest_matches_the_reference_value_with_protection() {
    let response = compute_digest_response(
        HA1,
        "GET",
        "/dir/index.html",
        NONCE,
        &some("00000001"),
        &some("0a4f113b"),
        &some("auth"),
    );
    assert_eq!(response, "6629fae49393a05397450978507c4ef1");
}

#[test]
fn digest_without_protection_covers_hash_nonce_and_second_hash() {
    let response = compute_digest_response(HA1, "GET", "/dir/index.html", NONCE, &None, &None, &None);
    assert_eq!(response, "670fd8c2df070c60b045671b8b24ff02");
    let partial =
        compute_digest_response(HA1, "GET", "/dir/index.html", NONCE, &some("00000001"), &None, &some("auth"));
    assert_eq!(partial, "670fd8c2df070c60b045671b8b24ff02");
}

#[test]
fn digest_changes_with_every_input() {
    let reference = "6629fae49393a05397450978507c4ef1";
    let nc = some("00000001");
    let cnonce = some("0a4f113b");
    let qop = some("auth");
    let changed = [
        compute_digest_response("939e7578ed9e3c518a452acee763bce8", "GET", "/dir/index.html", NONCE, &nc, &cnonce, &qop),
        compute_digest_response(HA1, "GEU", "/dir/index.html", NONCE, &nc, &cnonce, &qop),
        compute_digest_response(HA1, "GET", "/dir/index.htmm", NONCE, &nc, &cnonce, &qop),
        compute_digest_response(HA1, "GET", "/dir/index.html", "dcd98b7102dd2f0e8b11d0f600bfb0c092", &nc, &cnonce, &qop),
        compute_digest_response(HA1, "GET", "/dir/index.html", NONCE, &some("00000000"), &cnonce, &qop),
        compute_digest_response(HA1, "GET", "/dir/index.html", NONCE, &nc, &some("0a4f113c"), &qop),
        compute_digest_response(HA1, "GET", "/dir/index.html", NONCE, &nc, &cnonce, &some("autj")),
    ];
    for response in changed.iter() {
        assert_eq!(response.len(), 32);
        assert_ne!(response, reference);
    }
}

#[test]
fn parameters_are_trimmed_and_unquoted() {
    let params = parse_digest_params(
        "Digest username=\"1001\", realm = \"sentiric.test\" ,nonce=\"n0nce\",uri=\"sip:sentiric.test\", response=\"abc\", algorithm=MD5, broken, qop=auth, nc=00000001",
    );
    assert_eq!(params.get("username"), Some(&"1001".to_string()));
    assert_eq!(params.get("realm"), Some(&"sentiric.test".to_string()));
    assert_eq!(params.get("uri"), Some(&"sip:sentiric.test".to_string()));
    assert_eq!(params.get("algorithm"), Some(&"MD5".to_string()));
    assert_eq!(params.get("qop"), Some(&"auth".to_string()));
    assert_eq!(params.get("nc"), Some(&"00000001".to_string()));
    assert!(params.get("broken").is_none());
    assert_eq!(params.len(), 8);
    assert_eq!(parse_digest_params("Basic dXNlcjpwYXNz").len(), 0);
    assert_eq!(parse_digest_params("Digest a=1,a=2").get("a"), Some(&"2".to_string()));
    assert_eq!(parse_digest_params("Digest uri=\"a=b\"").get("uri"), Some(&"a=b".to_string()));
}

#[test]
fn credentials_report_the_first_missing_parameter() {
    let cases = [
        ("Digest realm=\"r\"", "username eksik"),
        ("Digest username=\"u\"", "realm eksik"),
        ("Digest username=\"u\",realm=\"r\"", "nonce eksik"),
        ("Digest username=\"u\",realm=\"r\",nonce=\"n\"", "uri eksik"),
        ("Digest username=\"u\",realm=\"r\",nonce=\"n\",uri=\"x\"", "response eksik"),
        ("Bearer token", "username eksik"),
    ];
    for (header, expected) in cases.iter() {
        match read_credentials(header) {
            Err(ServiceError::Generic(detail)) => assert_eq!(detail, *expected),
            _ => panic!("expected an error for {}", header),
        }
    }
    match read_credentials("Digest username=\"u\",realm=\"r\",nonce=\"n\",uri=\"x\",response=\"y\",cnonce=\"c\"") {
        Ok(c) => {
            assert_eq!(c.username, "u");
            assert_eq!(c.realm, "r");
            assert_eq!(c.nonce, "n");
            assert_eq!(c.uri, "x");
            assert_eq!(c.response, "y");
            assert_eq!(c.cnonce, some("c"));
            assert_eq!(c.nc, None);
            assert_eq!(c.qop, None);
        }
        Err(e) => panic!("refused: {}", e.message()),
    }
}

const PLAIN: &str = "REGISTER sip:sentiric.test SIP/2.0\r\nVia: SIP/2.0/UDP 10.0.0.5:5060;branch=z9hG4bKr1\r\nFrom: <sip:1001@sentiric.test>;tag=a\r\nTo: <sip:1001@sentiric.test>\r\nCall-ID: reg-1\r\nCSeq: 1 REGISTER\r\nContact: <sip:1001@10.0.0.5:5060>\r\nExpires: 120\r\n\r\n";

fn with_authorization(response: &str, expires: &str) -> String {
    format!(
        "REGISTER sip:sentiric.test SIP/2.0\r\nVia: SIP/2.0/UDP 10.0.0.5:5060;branch=z9hG4bKr2\r\nFrom: <sip:1001@sentiric.test>;tag=a\r\nTo: <sip:1001@sentiric.test>\r\nCall-ID: reg-1\r\nCSeq: 2 REGISTER\r\nContact: <sip:1001@10.0.0.5:5060>\r\n{}Authorization: Digest username=\"1001\", realm=\"sentiric.test\", nonce=\"n0nce\", uri=\"sip:sentiric.test\", response=\"{}\"\r\n\r\n",
        expires, response
    )
}

fn challenged(step: ChallengeStep) -> Option<String> {
    match step {
        ChallengeStep::Challenged { response } => Some(response),
        _ => None,
    }
}

const UNAVAILABLE: &str = "SIP/2.0 503 Service Unavailable\r\nVia: SIP/2.0/UDP 10.0.0.5:5060;branch=z9hG4bKr1\r\nFrom: <sip:1001@sentiric.test>;tag=a\r\nTo: <sip:1001@sentiric.test>\r\nCall-ID: reg-1\r\nCSeq: 1 REGISTER\r\nContact: <sip:sentiric-signal@203.0.113.10:5060>\r\nServer: Sentiric Signaling Service v1.2.3\r\nContent-Length: 0\r\n\r\n";

#[test]
fn failed_store_is_answered_with_unavailable() {
    let context = match begin(PLAIN, remote()) {
        RegisterStart::Challenge { context, .. } => context,
        _ => panic!("expected a challenge"),
    };
    match challenge_client(&context, None, "abc", &config()) {
        ChallengeStep::Unavailable { response } => assert_eq!(response, UNAVAILABLE),
        _ => panic!("expected 503"),
    }
    match challenge_with_fresh_nonce(&context, None, &config()) {
        ChallengeStep::Unavailable { response } => assert_eq!(response, UNAVAILABLE),
        _ => panic!("expected 503"),
    }
    assert_eq!(after_binding(&context, "SIP/2.0 200 OK".to_string(), true, &config()), "SIP/2.0 200 OK");
    assert_eq!(after_binding(&context, "SIP/2.0 200 OK".to_string(), false, &config()), UNAVAILABLE);
}

#[test]
fn digest_inputs_join_their_parts_with_colons() {
    assert_eq!(digest_second_input("REGISTER", "sip:h"), "REGISTER:sip:h");
    assert_eq!(digest_response_input("h1", "n", &None, &None, &None, "h2"), "h1:n:h2");
    assert_eq!(
        digest_response_input("h1", "n", &some("00000001"), &some("c"), &some("auth"), "h2"),
        "h1:n:00000001:c:auth:h2"
    );
    assert_eq!(digest_response_input("h1", "n", &None, &some("c"), &some("auth"), "h2"), "h1:n:h2");
}

#[test]
fn verdict_follows_the_digest() {
    let (context, credentials) = started(&with_authorization("anything", "Expires: 60\r\n"));
    match verdict(&context, &credentials, true, &config()) {
        RegisterVerdict::Accepted { response, binding: BindingUpdate::Store { key, contact, ttl_secs } } => {
            assert!(response.starts_with("SIP/2.0 200 OK\r\n"));
            assert!(response.contains("\r\nContact: <sip:1001@10.0.0.5:5060>;expires=60\r\n"));
            assert_eq!(key, "sip_registration:sip:1001@sentiric.test");
            assert_eq!(contact, "<sip:1001@10.0.0.5:5060>");
            assert_eq!(ttl_secs, 60);
        }
        _ => panic!("expected acceptance"),
    }
    match verdict(&context, &credentials, false, &config()) {
        RegisterVerdict::Forbidden { response } => assert!(response.starts_with("SIP/2.0 403 Forbidden\r\n")),
        _ => panic!("expected 403"),
    }
}

fn started(request: &str) -> (CallContext, DigestCredentials) {
    match begin(request, remote()) {
        RegisterStart::Verify { context, credentials } => (context, credentials),
        _ => panic!("expected credentials"),
    }
}

#[test]
fn register_without_credentials_is_to_be_claimed() {
    match begin(PLAIN, remote()) {
        RegisterStart::Challenge { context, claim_key, ttl_secs } => {
            assert_eq!(claim_key, "pending_reg:reg-1");
            assert_eq!(ttl_secs, 20);
            assert_eq!(context.trace_id, "register-trace");
            assert_eq!(context.call_id, "reg-1");
        }
        _ => panic!("expected a challenge"),
    }
}

#[test]
fn unusable_register_is_refused() {
    match begin("REGISTER sip:x SIP/2.0\r\nCall-ID: r\r\n\r\n", remote()) {
        RegisterStart::Refused(ServiceError::SipParse(ParseError::MissingVia)) => {}
        _ => panic!("expected MissingVia"),
    }
    match begin("REGISTER sip:x SIP/2.0\r\nVia: v\r\nCall-ID: r\r\nAuthorization: Digest username=\"u\"\r\n\r\n", remote()) {
        RegisterStart::Refused(ServiceError::Generic(detail)) => assert_eq!(detail, "realm eksik"),
        _ => panic!("expected a missing parameter"),
    }
}

#[test]
fn first_register_is_challenged_and_retransmissions_are_not() {
    let context = match begin(PLAIN, remote()) {
        RegisterStart::Challenge { context, .. } => context,
        _ => panic!("expected a challenge"),
    };
    assert!(matches!(challenge_client(&context, Some(false), "abc", &config()), ChallengeStep::Ignored));
    assert!(matches!(
        challenge_with_fresh_nonce(&context, Some(false), &config()),
        ChallengeStep::Ignored
    ));
    assert_eq!(
        challenged(challenge_client(&context, Some(true), "abc", &config())),
        Some("SIP/2.0 401 Unauthorized\r\nVia: SIP/2.0/UDP 10.0.0.5:5060;branch=z9hG4bKr1\r\nFrom: <sip:1001@sentiric.test>;tag=a\r\nTo: <sip:1001@sentiric.test>\r\nCall-ID: reg-1\r\nCSeq: 1 REGISTER\r\nWWW-Authenticate: Digest realm=\"sentiric.test\", qop=\"auth\", nonce=\"abc\"\r\nContact: <sip:sentiric-signal@203.0.113.10:5060>\r\nServer: Sentiric Signaling Service v1.2.3\r\nContent-Length: 0\r\n\r\n".to_string())
    );
}

#[test]
fn fresh_nonce_has_thirty_two_letters_and_digits() {
    let context = match begin(PLAIN, remote()) {
        RegisterStart::Challenge { context, .. } => context,
        _ => panic!("expected a challenge"),
    };
    let response = match challenge_with_fresh_nonce(&context, Some(true), &config()) {
        ChallengeStep::Challenged { response } => response,
        _ => panic!("expected a challenge"),
    };
    let marker = "qop=\"auth\", nonce=\"";
    let start = match response.find(marker) {
        Some(i) => i + marker.len(),
        None => panic!("no nonce"),
    };
    let nonce = &response[start..start + 32];
    assert!(nonce.chars().all(|c| c.is_ascii_alphanumeric()));
    assert_eq!(&response[start + 32..start + 35], "\"\r\n");
    assert_eq!(Some(response.clone()), challenged(challenge_client(&context, Some(true), nonce, &config())));
}

#[test]
fn right_digest_is_accepted_and_the_binding_stored() {
    let (context, credentials) = started(&with_authorization("c6982a572c25d19d39a03838a572b45f", "Expires: 120\r\n"));
    match verify_authentication(&context, &credentials, Some("9bce29d2dcfa0966d4560f5a0c5f77e5"), &config()) {
        RegisterVerdict::Accepted { response, binding } => {
            assert_eq!(
                response,
                "SIP/2.0 200 OK\r\nVia: SIP/2.0/UDP 10.0.0.5:5060;branch=z9hG4bKr2\r\nFrom: <sip:1001@sentiric.test>;tag=a\r\nTo: <sip:1001@sentiric.test>\r\nCall-ID: reg-1\r\nCSeq: 2 REGISTER\r\nContact: <sip:1001@10.0.0.5:5060>;expires=120\r\nServer: Sentiric Signaling Service v1.2.3\r\nContent-Length: 0\r\n\r\n"
            );
            match binding {
                BindingUpdate::Store { key, contact, ttl_secs } => {
                    assert_eq!(key, "sip_registration:sip:1001@sentiric.test");
                    assert_eq!(contact, "<sip:1001@10.0.0.5:5060>");
                    assert_eq!(ttl_secs, 120);
                }
                BindingUpdate::Delete { .. } => panic!("expected a stored binding"),
            }
        }
        RegisterVerdict::Forbidden { .. } => panic!("expected acceptance"),
    }
}

#[test]
fn binding_lasts_an_hour_where_no_time_is_named() {
    assert_eq!(DEFAULT_EXPIRES_SECS, 3600);
    for expires in ["", "Expires: soon\r\n", "Expires: -5\r\n"] {
        let (context, credentials) = started(&with_authorization("c6982a572c25d19d39a03838a572b45f", expires));
        match verify_authentication(&context, &credentials, Some("9bce29d2dcfa0966d4560f5a0c5f77e5"), &config()) {
            RegisterVerdict::Accepted { response, binding: BindingUpdate::Store { ttl_secs, .. } } => {
                assert_eq!(ttl_secs, 3600);
                assert!(response.contains("\r\nContact: <sip:1001@10.0.0.5:5060>;expires=3600\r\n"));
            }
            _ => panic!("expected a stored binding"),
        }
    }
}

#[test]
fn no_time_removes_the_binding() {
    let (context, credentials) = started(&with_authorization("c6982a572c25d19d39a03838a572b45f", "Expires: 0\r\n"));
    match verify_authentication(&context, &credentials, Some("9bce29d2dcfa0966d4560f5a0c5f77e5"), &config()) {
        RegisterVerdict::Accepted { response, binding: BindingUpdate::Delete { key } } => {
            assert_eq!(key, "sip_registration:sip:1001@sentiric.test");
            assert!(response.starts_with("SIP/2.0 200 OK\r\n"));
            assert!(response.contains("\r\nContact: <sip:1001@10.0.0.5:5060>;expires=0\r\n"));
        }
        _ => panic!("expected a removed binding"),
    }
}

#[test]
fn wrong_digest_and_unknown_user_are_forbidden() {
    let forbidden = "SIP/2.0 403 Forbidden\r\nVia: SIP/2.0/UDP 10.0.0.5:5060;branch=z9hG4bKr2\r\nFrom: <sip:1001@sentiric.test>;tag=a\r\nTo: <sip:1001@sentiric.test>\r\nCall-ID: reg-1\r\nCSeq: 2 REGISTER\r\nContact: <sip:sentiric-signal@203.0.113.10:5060>\r\nServer: Sentiric Signaling Service v1.2.3\r\nContent-Length: 0\r\n\r\n";
    let (context, credentials) = started(&with_authorization("c6982a572c25d19d39a03838a572b45e", ""));
    match verify_authentication(&context, &credentials, Some("9bce29d2dcfa0966d4560f5a0c5f77e5"), &config()) {
        RegisterVerdict::Forbidden { response } => assert_eq!(response, forbidden),
        _ => panic!("expected 403"),
    }
    let (context, credentials) = started(&with_authorization("c6982a572c25d19d39a03838a572b45f", ""));
    match verify_authentication(&context, &credentials, None, &config()) {
        RegisterVerdict::Forbidden { response } => assert_eq!(response, forbidden),
        _ => panic!("expected 403"),
    }
    match verify_authentication(&context, &credentials, Some("9bce29d2dcfa0966d4560f5a0c5f77e4"), &config()) {
        RegisterVerdict::Forbidden { response } => assert_eq!(response, forbidden),
        _ => panic!("expected 403"),
    }
}

#[test]
fn digest_with_protection_is_verified_with_it() {
    let request = "REGISTER sip:sentiric.test SIP/2.0\r\nVia: SIP/2.0/UDP h\r\nCall-ID: reg-2\r\nContact: <sip:1001@h>\r\nAuthorization: Digest username=\"1001\", realm=\"sentiric.test\", nonce=\"n0nce\", uri=\"sip:sentiric.test\", response=\"3fb6ef12494e21227bdb63086b62cc1d\", qop=auth, nc=00000001, cnonce=\"abcd\"\r\n\r\n";
    let (context, credentials) = started(request);
    match verify_authentication(&context, &credentials, Some("9bce29d2dcfa0966d4560f5a0c5f77e5"), &config()) {
        RegisterVerdict::Accepted { .. } => {}
        RegisterVerdict::Forbidden { .. } => panic!("expected acceptance"),
    }
}
