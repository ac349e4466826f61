//! Helpers that read SIP header blocks, URIs and SDP bodies, and that write
//! the BYE request this gateway sends.
use crate::config::AppConfig;
use crate::foreign::{
    lowercase, lowercase_of, random_alphanumeric, regex_capture, regex_compiles,
    regex_first_group,
};
use crate::sip::call_context::field_or_empty;
use crate::state::ActiveCallInfo;
use crate::strmap::{Headers, StringMap};
use crate::text::{
    all_digits, decimal, digits_of, find_char, from_chars, has_prefix, index_of, is_digit,
    keep_digits, lemma_digits_of, lines, parse_decimal, parse_unsigned, push_all, push_decimal,
    push_str, slice, split_lines, split_tokens, starts_with, str_eq, to_chars, tokens, trim,
    trim_chars, views,
};
use vstd::prelude::*;

verus! {

/// The texts held by a vector of strings.
pub open spec fn texts_of(v: Seq<String>) -> Seq<Seq<char>> {
    Seq::new(v.len(), |i: int| v[i]@)
}

/// Whether the line holds a colon, and so a header field.
pub open spec fn is_field(line: Seq<char>) -> bool {
    index_of(line, ':') < line.len()
}

/// The name of the field on `line`: what stands before the first colon,
/// trimmed and in lower case.
pub open spec fn field_name(line: Seq<char>) -> Seq<char> {
    lowercase_of(trim(line.take(index_of(line, ':'))))
}

/// The value of the field on `line`: what stands after the first colon,
/// trimmed and otherwise untouched.
pub open spec fn field_value(line: Seq<char>) -> Seq<char> {
    trim(line.skip(index_of(line, ':') + 1))
}

/// Whether a lower-case field name is that of Via, in long or compact form.
pub open spec fn is_via_name(name: Seq<char>) -> bool {
    name == seq!['v', 'i', 'a'] || name == seq!['v']
}

/// Whether the line is a Via field.
pub open spec fn is_via_line(line: Seq<char>) -> bool {
    is_field(line) && is_via_name(field_name(line))
}

/// The Via lines among `ls`, whole and in the order met.
pub open spec fn via_lines(ls: Seq<Seq<char>>) -> Seq<Seq<char>>
    decreases ls.len(),
{
    if ls.len() == 0 {
        Seq::empty()
    } else if is_via_line(ls.last()) {
        via_lines(ls.drop_last()).push(ls.last())
    } else {
        via_lines(ls.drop_last())
    }
}

/// The fields on `ls` other than Via, by name. Where a name comes twice the
/// later line provides the value.
pub open spec fn field_map(ls: Seq<Seq<char>>) -> Map<Seq<char>, Seq<char>>
    decreases ls.len(),
{
    if ls.len() == 0 {
        Map::empty()
    } else if is_field(ls.last()) && !is_via_name(field_name(ls.last())) {
        field_map(ls.drop_last()).insert(field_name(ls.last()), field_value(ls.last()))
    } else {
        field_map(ls.drop_last())
    }
}

/// Puts one field where it belongs, given its name in lower case: the whole
/// line of a Via field is appended to `via_headers`, any other field is
/// entered in `headers` under its name, in place of an earlier value.
pub fn place_field(
    headers: &mut Headers,
    via_headers: &mut Vec<String>,
    name: String,
    value: String,
    line: String,
)
    ensures
        is_via_name(name@) ==> {
            &&& texts_of(final(via_headers)@) == texts_of(old(via_headers)@).push(line@)
            &&& final(headers)@ == old(headers)@
        },
        !is_via_name(name@) ==> {
            &&& final(via_headers)@ == old(via_headers)@
            &&& final(headers).texts() == old(headers).texts().insert(name@, value@)
        },
{
    proof {
        reveal_strlit("via");
        reveal_strlit("v");
        assert("via"@ =~= seq!['v', 'i', 'a']);
        assert("v"@ =~= seq!['v']);
    }
    if str_eq(name.as_str(), "via") || str_eq(name.as_str(), "v") {
        via_headers.push(line);
        assert(texts_of(via_headers@) =~= texts_of(old(via_headers)@).push(line@));
    } else {
        headers.put(name, value);
    }
}

/// Reads a header block line by line. Each line with a colon is a field; the
/// Via fields are collected as whole lines, the others by lower-case name.
/// A block without any Via field is refused.
pub fn parse_sip_headers(header_section: &str) -> (r: Option<(Headers, Vec<String>)>)
    ensures
        r is Some <==> via_lines(lines(header_section@)).len() > 0,
        r matches Some(parsed) ==> {
            &&& parsed.0.texts() == field_map(lines(header_section@))
            &&& texts_of(parsed.1@) == via_lines(lines(header_section@))
        },
{
    let chars = to_chars(header_section);
    let ls = split_lines(&chars);
    let mut headers: Headers = StringMap::new();
    let mut vias: Vec<String> = Vec::new();
    let ghost all = lines(header_section@);
    let mut i: usize = 0;
    assert(headers.texts() =~= Map::<Seq<char>, Seq<char>>::empty());
    assert(texts_of(vias@) =~= Seq::<Seq<char>>::empty());
    assert(all.take(0) =~= Seq::<Seq<char>>::empty());
    while i < ls.len()
        invariant
            i <= ls.len(),
            views(ls@) == all,
            headers.texts() == field_map(all.take(i as int)),
            texts_of(vias@) == via_lines(all.take(i as int)),
        decreases ls.len() - i,
    {
        let line = &ls[i];
        let ghost l = all[i as int];
        assert(line@ == l);
        assert(all.take(i + 1).drop_last() == all.take(i as int));
        assert(all.take(i + 1).last() == l);
        let colon = find_char(line, 0, ':');
        assert(line@.skip(0) == line@);
        if colon < line.len() {
            let key = trim_chars(&slice(line, 0, colon));
            let name = lowercase(from_chars(&key).as_str());
            assert(line@.subrange(0, colon as int) == line@.take(colon as int));
            assert(name@ == field_name(l));
            let value = trim_chars(&slice(line, colon + 1, line.len()));
            assert(line@.subrange(colon + 1, line.len() as int) == line@.skip(colon + 1));
            place_field(&mut headers, &mut vias, name, from_chars(&value), from_chars(line));
        }
        i += 1;
    }
    assert(all.take(ls.len() as int) == all);
    if vias.len() > 0 {
        Some((headers, vias))
    } else {
        None
    }
}

/// The URI that `header` holds between its first `<` and the first `>`
/// that follows it.
pub open spec fn bracketed_uri(header: Seq<char>) -> Option<Seq<char>> {
    let open = index_of(header, '<');
    if open < header.len() {
        let rest = header.skip(open + 1);
        let close = index_of(rest, '>');
        if close < rest.len() {
            Some(rest.take(close))
        } else {
            None
        }
    } else {
        None
    }
}

/// The URI of a header such as From, To or Contact: the text between the
/// first `<` and the first `>` after it. `None` where the header has no `<`,
/// or no `>` after it.
pub fn get_uri_from_header(header: &str) -> (r: Option<String>)
    ensures
        match r {
            Some(uri) => bracketed_uri(header@) == Some(uri@),
            None => bracketed_uri(header@) is None,
        },
{
    let chars = to_chars(header);
    let open = find_char(&chars, 0, '<');
    assert(chars@.skip(0) == chars@);
    if open < chars.len() {
        let close = find_char(&chars, open + 1, '>');
        if close < chars.len() {
            assert(chars@.subrange(open + 1, close as int) == chars@.skip(open + 1).take(
                close - (open + 1),
            ));
            Some(from_chars(&slice(&chars, open + 1, close)))
        } else {
            None
        }
    } else {
        None
    }
}

/// The pattern that finds the user part of a SIP URI: `sip:`, an optional
/// `+`, then the digits that are captured, then `@`.
pub open spec fn user_pattern() -> Seq<char> {
    "sip:\\+?(\\d+)@"@
}

/// The country prefix of the numbers the platform dials.
pub const COUNTRY_PREFIX: &'static str = "90";

/// A number in the form the platform dials. Only the ASCII digits of `raw`
/// count. Eleven digits with a leading `0` lose the `0` and gain the country
/// prefix; ten digits gain the prefix, whatever they begin with; any other
/// number stays as its digits.
pub open spec fn normalized_number(raw: Seq<char>) -> Seq<char> {
    let d = digits_of(raw);
    if d.len() == 11 && d[0] == '0' {
        COUNTRY_PREFIX@ + d.skip(1)
    } else if d.len() == 10 {
        COUNTRY_PREFIX@ + d
    } else {
        d
    }
}

/// A normalized number holds ASCII digits only, never has ten digits and
/// never eleven with a leading `0`, and normalizing it again changes nothing.
pub proof fn normalization_is_idempotent(raw: Seq<char>)
    ensures
        all_digits(normalized_number(raw)),
        normalized_number(raw).len() != 10,
        !(normalized_number(raw).len() == 11 && normalized_number(raw)[0] == '0'),
        normalized_number(normalized_number(raw)) == normalized_number(raw),
{
    reveal_strlit("90");
    let d = digits_of(raw);
    let n = normalized_number(raw);
    lemma_digits_of(raw);
    assert(all_digits(n)) by {
        assert forall|i: int| 0 <= i < n.len() implies is_digit(#[trigger] n[i]) by {
            if d.len() == 11 && d[0] == '0' {
                if i >= 2 {
                    assert(n[i] == d[i - 1]);
                }
            } else if d.len() == 10 {
                if i >= 2 {
                    assert(n[i] == d[i - 2]);
                }
            }
        }
    }
    lemma_digits_of(n);
}

/// Brings the digits of `raw` into the form the platform dials.
pub fn normalize_number(raw: &str) -> (r: String)
    ensures
        r@ == normalized_number(raw@),
{
    let d = keep_digits(&to_chars(raw));
    let prefix = to_chars(COUNTRY_PREFIX);
    let mut out: Vec<char> = Vec::new();
    if d.len() == 11 && d[0] == '0' {
        push_all(&mut out, &prefix);
        push_all(&mut out, &slice(&d, 1, d.len()));
        assert(d@.subrange(1, d.len() as int) == d@.skip(1));
        assert(out@ == COUNTRY_PREFIX@ + d@.skip(1));
    } else if d.len() == 10 {
        push_all(&mut out, &prefix);
        push_all(&mut out, &d);
        assert(out@ == COUNTRY_PREFIX@ + d@);
    } else {
        push_all(&mut out, &d);
        assert(out@ == d@);
    }
    from_chars(&out)
}

/// The user of a URI, given what the user pattern captured in it.
pub open spec fn user_of_capture(capture: Option<Seq<char>>) -> Option<Seq<char>> {
    match capture {
        Some(raw) => Some(normalized_number(raw)),
        None => None,
    }
}

/// The user that a URI names, given the digits that the user pattern
/// captured in it, if it matched.
pub fn user_from_capture(capture: Option<String>) -> (r: Option<String>)
    ensures
        match r {
            Some(user) => user_of_capture(
                match capture {
                    Some(c) => Some(c@),
                    None => None,
                },
            ) == Some(user@),
            None => capture is None,
        },
{
    match capture {
        Some(raw) => Some(normalize_number(raw.as_str())),
        None => None,
    }
}

/// The user that `uri` names: the normalized form of what the user pattern
/// captures in it. `None` where the pattern does not match, or is refused.
pub open spec fn user_of_uri(uri: Seq<char>) -> Option<Seq<char>> {
    if regex_compiles(user_pattern()) {
        user_of_capture(regex_first_group(user_pattern(), uri))
    } else {
        None
    }
}

/// The normalized number of the user that a SIP URI, or a header that holds
/// one, names.
pub fn extract_user_from_uri(uri: &str) -> (r: Option<String>)
    ensures
        match r {
            Some(user) => user_of_uri(uri@) == Some(user@),
            None => user_of_uri(uri@) is None,
        },
{
    match regex_capture("sip:\\+?(\\d+)@", uri) {
        Ok(capture) => user_from_capture(capture),
        Err(_) => None,
    }
}

/// The `n`-th item of `items`, if there are that many.
pub open spec fn nth(items: Seq<Seq<char>>, n: int) -> Option<Seq<char>> {
    if 0 <= n < items.len() {
        Some(items[n])
    } else {
        None
    }
}

/// Token `n` of the last of `ls` that begins with `prefix`.
pub open spec fn sdp_field(ls: Seq<Seq<char>>, prefix: Seq<char>, n: int) -> Option<Seq<char>>
    decreases ls.len(),
{
    if ls.len() == 0 {
        None
    } else if has_prefix(ls.last(), prefix) {
        nth(tokens(ls.last()), n)
    } else {
        sdp_field(ls.drop_last(), prefix, n)
    }
}

/// The address that an SDP body offers for audio: the third token of its
/// last connection line for IPv4, a colon, and the second token of its last
/// audio media line.
pub open spec fn sdp_media_info(body: Seq<char>) -> Option<Seq<char>> {
    let ls = lines(body);
    match (sdp_field(ls, "c=IN IP4 "@, 2), sdp_field(ls, "m=audio "@, 1)) {
        (Some(ip), Some(port)) => Some(ip + seq![':'] + port),
        _ => None,
    }
}

fn token_of(line: &Vec<char>, n: usize) -> (r: Option<Vec<char>>)
    ensures
        match r {
            Some(t) => nth(tokens(line@), n as int) == Some(t@),
            None => nth(tokens(line@), n as int) is None,
        },
{
    let toks = split_tokens(line);
    if n < toks.len() {
        assert(views(toks@)[n as int] == toks@[n as int]@);
        Some(slice(&toks[n], 0, toks[n].len()))
    } else {
        None
    }
}

/// The caller's media address, `ip:port`, as the SDP body of a request
/// offers it.
pub fn extract_sdp_media_info_from_body(sip_body: &str) -> (r: Option<String>)
    ensures
        match r {
            Some(info) => sdp_media_info(sip_body@) == Some(info@),
            None => sdp_media_info(sip_body@) is None,
        },
{
    let chars = to_chars(sip_body);
    let ls = split_lines(&chars);
    let connection = to_chars("c=IN IP4 ");
    let media = to_chars("m=audio ");
    let mut ip_addr: Option<Vec<char>> = None;
    let mut port: Option<Vec<char>> = None;
    let ghost all = lines(sip_body@);
    let mut i: usize = 0;
    assert(all.take(0) =~= Seq::<Seq<char>>::empty());
    while i < ls.len()
        invariant
            i <= ls.len(),
            views(ls@) == all,
            connection@ == "c=IN IP4 "@,
            media@ == "m=audio "@,
            match ip_addr {
                Some(t) => sdp_field(all.take(i as int), connection@, 2) == Some(t@),
                None => sdp_field(all.take(i as int), connection@, 2) is None,
            },
            match port {
                Some(t) => sdp_field(all.take(i as int), media@, 1) == Some(t@),
                None => sdp_field(all.take(i as int), media@, 1) is None,
            },
        decreases ls.len() - i,
    {
        let line = &ls[i];
        assert(line@ == all[i as int]);
        assert(all.take(i + 1).drop_last() == all.take(i as int));
        assert(all.take(i + 1).last() == all[i as int]);
        if starts_with(line, &connection) {
            ip_addr = token_of(line, 2);
        }
        if starts_with(line, &media) {
            port = token_of(line, 1);
        }
        i += 1;
    }
    assert(all.take(ls.len() as int) == all);
    match (ip_addr, port) {
        (Some(ip), Some(p)) => {
            let mut out: Vec<char> = Vec::new();
            push_all(&mut out, &ip);
            out.push(':');
            push_all(&mut out, &p);
            assert(out@ == ip@ + seq![':'] + p@);
            Some(from_chars(&out))
        },
        _ => None,
    }
}

/// The sequence number of a request that follows the one whose CSeq value
/// is `cseq`: one more than the number that its first token writes, or 2
/// where it writes none.
pub open spec fn next_cseq(cseq: Seq<char>) -> nat {
    let first = match nth(tokens(cseq), 0) {
        Some(token) => token,
        None => seq!['1'],
    };
    match parse_unsigned(first, u32::MAX as nat) {
        Some(n) => n + 1,
        None => 2,
    }
}

/// Where a request to the peer of a call is sent: the URI in its Contact,
/// or the whole Contact where it holds none in brackets.
pub open spec fn request_target(contact: Seq<char>) -> Seq<char> {
    match bracketed_uri(contact) {
        Some(uri) => uri,
        None => contact,
    }
}

/// The BYE with which the gateway ends `call_info`. The gateway speaks as
/// the called party: From is the To of the call with the gateway's tag, To
/// is the From of the call, and the request goes to the peer's Contact.
pub open spec fn bye_text(call_info: ActiveCallInfo, config: AppConfig, branch: Seq<char>) -> Seq<
    char,
> {
    "BYE "@ + request_target(call_info.contact_header@) + " SIP/2.0\r\n"@ + "Via: SIP/2.0/UDP "@
        + config.sip_listen_addr.ip@ + ":"@ + decimal(config.sip_listen_addr.port as nat)
        + ";branch=z9hG4bK."@ + branch + "\r\n"@ + "Max-Forwards: 70\r\n"@ + "From: "@
        + call_info.to_header@ + ";tag="@ + call_info.to_tag@ + "\r\n"@ + "To: "@
        + call_info.from_header@ + "\r\n"@ + "Call-ID: "@ + call_info.call_id@ + "\r\n"@
        + "CSeq: "@ + decimal(next_cseq(field_or_empty(call_info.headers.texts(), "cseq"@)))
        + " BYE\r\n"@ + "User-Agent: Sentiric Signaling Service v"@ + config.service_version@
        + "\r\n"@ + "Content-Length: 0"@ + "\r\n\r\n"@
}

fn following_cseq(cseq: &str) -> (r: u64)
    ensures
        r == next_cseq(cseq@),
{
    let toks = split_tokens(&to_chars(cseq));
    let parsed = if toks.len() > 0 {
        assert(views(toks@)[0] == toks@[0]@);
        parse_decimal(&toks[0], 0xffff_ffff)
    } else {
        let mut one: Vec<char> = Vec::new();
        one.push('1');
        assert(one@ == seq!['1']);
        parse_decimal(&one, 0xffff_ffff)
    };
    match parsed {
        Some(n) => n + 1,
        None => 2,
    }
}

/// Whether `branch` is one the gateway may have drawn: sixteen ASCII letters
/// and digits.
pub open spec fn is_branch(branch: Seq<char>) -> bool {
    branch.len() == 16 && forall|i: int|
        0 <= i < branch.len() ==> crate::foreign::is_alphanumeric(#[trigger] branch[i])
}

/// Writes the BYE that ends `call_info`, with `branch` in its Via.
pub fn create_bye_request_with_branch(
    call_info: &ActiveCallInfo,
    config: &AppConfig,
    branch: &str,
) -> (r: String)
    ensures
        r@ == bye_text(*call_info, *config, branch@),
{
    let cseq = call_info.headers.get_or_empty("cseq");
    let cseq_num = following_cseq(cseq.as_str());
    let target = match get_uri_from_header(call_info.contact_header.as_str()) {
        Some(uri) => uri,
        None => call_info.contact_header.clone(),
    };
    let mut out: Vec<char> = Vec::new();
    push_str(&mut out, "BYE ");
    push_str(&mut out, target.as_str());
    push_str(&mut out, " SIP/2.0\r\n");
    push_str(&mut out, "Via: SIP/2.0/UDP ");
    push_str(&mut out, config.sip_listen_addr.ip.as_str());
    push_str(&mut out, ":");
    push_decimal(&mut out, config.sip_listen_addr.port as u64);
    push_str(&mut out, ";branch=z9hG4bK.");
    push_str(&mut out, branch);
    push_str(&mut out, "\r\n");
    push_str(&mut out, "Max-Forwards: 70\r\n");
    push_str(&mut out, "From: ");
    push_str(&mut out, call_info.to_header.as_str());
    push_str(&mut out, ";tag=");
    push_str(&mut out, call_info.to_tag.as_str());
    push_str(&mut out, "\r\n");
    push_str(&mut out, "To: ");
    push_str(&mut out, call_info.from_header.as_str());
    push_str(&mut out, "\r\n");
    push_str(&mut out, "Call-ID: ");
    push_str(&mut out, call_info.call_id.as_str());
    push_str(&mut out, "\r\n");
    push_str(&mut out, "CSeq: ");
    push_decimal(&mut out, cseq_num);
    push_str(&mut out, " BYE\r\n");
    push_str(&mut out, "User-Agent: Sentiric Signaling Service v");
    push_str(&mut out, config.service_version.as_str());
    push_str(&mut out, "\r\n");
    push_str(&mut out, "Content-Length: 0");
    push_str(&mut out, "\r\n\r\n");
    assert(out@ == bye_text(*call_info, *config, branch@)) by {
        assert(Seq::<char>::empty() + "BYE "@ == "BYE "@);
    }
    from_chars(&out)
}

/// Writes the BYE that ends `call_info`, with a branch drawn at random.
pub fn create_bye_request(call_info: &ActiveCallInfo, config: &AppConfig) -> (r: String)
    ensures
        exists|branch: Seq<char>|
            is_branch(branch) && r@ == #[trigger] bye_text(*call_info, *config, branch),
{
    let branch = random_alphanumeric(16);
    assert(is_branch(branch@));
    create_bye_request_with_branch(call_info, config, branch.as_str())
}

} // verus!
