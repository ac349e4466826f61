use sip_signaling::sip::utils::{
    extract_sdp_media_info_from_body, extract_user_from_uri, get_uri_from_header,
    normalize_number, parse_sip_headers, place_field, user_from_capture,
};
use sip_signaling::strmap::StringMap;

#[test]
fn normalizes_eleven_digits_with_leading_zero() {
    assert_eq!(extract_user_from_uri("sip:05551234567@host"), Some("905551234567".to_string()));
}

#[test]
fn normalizes_bare_ten_digits() {
    assert_eq!(extract_user_from_uri("sip:5551234567@host"), Some("905551234567".to_string()));
}

#[test]
fn keeps_number_with_country_prefix() {
    assert_eq!(extract_user_from_uri("sip:+905551234567@host"), Some("905551234567".to_string()));
}

#[test]
fn ten_digits_gain_the_prefix_whatever_they_begin_with() {
    assert_eq!(extract_user_from_uri("sip:9012345678@host"), Some("909012345678".to_string()));
    for n in ["909012345678", "905551234567", "1001", "12345678901"] {
        assert_eq!(extract_user_from_uri(&format!("sip:{}@h", n)), Some(n.to_string()));
    }
}

#[test]
fn user_is_absent_without_digits() {
    assert_eq!(extract_user_from_uri("sip:alice@host"), None);
    assert_eq!(extract_user_from_uri(""), None);
}

#[test]
fn normalize_number_keeps_other_lengths() {
    assert_eq!(normalize_number("1001"), "1001");
    assert_eq!(normalize_number("9055512345"), "909055512345");
    assert_eq!(normalize_number("9012345678"), "909012345678");
    assert_eq!(normalize_number("12345678901"), "12345678901");
    assert_eq!(normalize_number("905551234567"), "905551234567");
    assert_eq!(normalize_number("+90 (555) 123-45-67"), "905551234567");
    assert_eq!(normalize_number(""), "");
}

#[test]
fn uri_between_angle_brackets() {
    assert_eq!(
        get_uri_from_header("\"Bob\" <sip:bob@example.com>;tag=1"),
        Some("sip:bob@example.com".to_string())
    );
    assert_eq!(get_uri_from_header("sip:bob@example.com"), None);
    assert_eq!(get_uri_from_header("<>"), Some(String::new()));
    assert_eq!(get_uri_from_header("a>b<c"), None);
    assert_eq!(get_uri_from_header(">a<b>"), Some("b".to_string()));
    assert_eq!(get_uri_from_header("<a<b>c>"), Some("a<b".to_string()));
    assert_eq!(get_uri_from_header("<a"), None);
}

#[test]
fn headers_are_lowercased_and_vias_kept_in_order() {
    let block = "INVITE sip:100@host SIP/2.0\r\nVia: SIP/2.0/UDP a;branch=1\r\nv: SIP/2.0/UDP b;branch=2\r\nCall-ID:  abc123 \r\nFROM: <sip:1@h>\r\n";
    let (headers, vias) = parse_sip_headers(block).unwrap();
    assert_eq!(vias, vec!["Via: SIP/2.0/UDP a;branch=1".to_string(), "v: SIP/2.0/UDP b;branch=2".to_string()]);
    assert_eq!(headers.get("call-id"), Some(&"abc123".to_string()));
    assert_eq!(headers.get("from"), Some(&"<sip:1@h>".to_string()));
    assert!(headers.get("via").is_none());
    assert!(headers.get("Call-ID").is_none());
}

#[test]
fn header_block_without_via_is_refused() {
    assert!(parse_sip_headers("Call-ID: x\r\nFrom: y\r\n").is_none());
    assert!(parse_sip_headers("").is_none());
}

#[test]
fn sdp_media_info_joins_address_and_port() {
    let body = "v=0\r\no=- 1 1 IN IP4 10.0.0.1\r\nc=IN IP4 192.168.1.5\r\nm=audio 4000 RTP/AVP 0\r\n";
    assert_eq!(extract_sdp_media_info_from_body(body), Some("192.168.1.5:4000".to_string()));
    assert_eq!(extract_sdp_media_info_from_body("c=IN IP4 192.168.1.5\r\n"), None);
    assert_eq!(extract_sdp_media_info_from_body(""), None);
}

#[test]
fn header_block_is_read_as_the_standard_library_splits_it() {
    let block = "X-A:1\nX-B : two words \r\nno colon here\r\n:empty name\r\nX-A: again\r\nVia:v1\r\n V : v2\r\n";
    let (headers, vias) = parse_sip_headers(block).unwrap();
    assert_eq!(vias, vec!["Via:v1".to_string(), " V : v2".to_string()]);
    assert_eq!(headers.get("x-a"), Some(&"again".to_string()));
    assert_eq!(headers.get("x-b"), Some(&"two words".to_string()));
    assert_eq!(headers.get(""), Some(&"empty name".to_string()));
    assert_eq!(headers.len(), 3);
}

#[test]
fn header_names_lower_case_beyond_ascii() {
    let (headers, _) = parse_sip_headers("Via: v\r\n\u{c7}A\u{11e}RI: x\r\n").unwrap();
    assert_eq!(headers.get("\u{e7}a\u{11f}ri"), Some(&"x".to_string()));
}

#[test]
fn user_is_taken_from_the_first_match() {
    assert_eq!(
        extract_user_from_uri("<sip:alice@h>, <sip:+1 2@h>, <sip:1001@h>;x=<sip:1002@h>"),
        Some("1001".to_string())
    );
    assert_eq!(extract_user_from_uri("sip:\u{663}\u{664}@h"), Some(String::new()));
    assert_eq!(extract_user_from_uri("SIP:1001@h"), None);
    assert_eq!(extract_user_from_uri("sip:1001"), None);
}

#[test]
fn later_sdp_lines_replace_earlier_ones() {
    let body = "c=IN IP4 10.0.0.1\r\nm=audio 4000 RTP/AVP 0\r\nc=IN IP4 10.0.0.2\r\nm=audio 5000 RTP/AVP 8\r\n";
    assert_eq!(extract_sdp_media_info_from_body(body), Some("10.0.0.2:5000".to_string()));
    let cut = "c=IN IP4 10.0.0.1\r\nm=audio 4000 RTP/AVP 0\r\nc=IN IP4 \r\n";
    assert_eq!(extract_sdp_media_info_from_body(cut), None);
    assert_eq!(extract_sdp_media_info_from_body("m=audio 1\nc=IN IP4 h\n"), Some("h:1".to_string()));
    assert_eq!(extract_sdp_media_info_from_body(" c=IN IP4 h\nm=audio 1\n"), None);
}

#[test]
fn field_goes_to_the_vias_or_to_the_map_by_its_lower_case_name() {
    let mut headers: StringMap<String> = StringMap::new();
    let mut vias: Vec<String> = Vec::new();
    place_field(&mut headers, &mut vias, "via".to_string(), "x".to_string(), "Via: x".to_string());
    place_field(&mut headers, &mut vias, "v".to_string(), "y".to_string(), "v: y".to_string());
    place_field(&mut headers, &mut vias, "from".to_string(), "a".to_string(), "From: a".to_string());
    place_field(&mut headers, &mut vias, "Via".to_string(), "z".to_string(), "Via: z".to_string());
    place_field(&mut headers, &mut vias, "from".to_string(), "b".to_string(), "From: b".to_string());
    assert_eq!(vias, vec!["Via: x".to_string(), "v: y".to_string()]);
    assert_eq!(headers.get("from"), Some(&"b".to_string()));
    assert_eq!(headers.get("Via"), Some(&"z".to_string()));
    assert_eq!(headers.len(), 2);
}

#[test]
fn captured_digits_are_normalized() {
    assert_eq!(user_from_capture(Some("9012345678".to_string())), Some("909012345678".to_string()));
    assert_eq!(user_from_capture(Some("05551234567".to_string())), Some("905551234567".to_string()));
    assert_eq!(user_from_capture(Some(String::new())), Some(String::new()));
    assert_eq!(user_from_capture(None), None);
}
