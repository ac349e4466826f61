//! The responses the gateway sends.
use crate::config::{AppConfig, SocketAddress};
use crate::sip::call_context::{field_or_empty, CallContext};
use crate::sip::utils::texts_of;
use crate::strmap::Headers;
use crate::text::{contains, contains_sub, decimal, from_chars, push_decimal, push_str, to_chars};
use vstd::prelude::*;

verus! {

/// A Via line as a response carries it. A line that asks for the source
/// port with `;rport`, and names no `;received=` yet, gains `;received=` and
/// the address the request came from.
pub open spec fn via_with_received(via: Seq<char>, remote_ip: Seq<char>) -> Seq<char> {
    if contains(via, ";rport"@) && !contains(via, ";received="@) {
        via + ";received="@ + remote_ip
    } else {
        via
    }
}

/// The Via lines of a response: those of the request in their order, each
/// as `via_with_received` gives it, with a line break between two of them.
pub open spec fn via_block(vias: Seq<Seq<char>>, remote_ip: Seq<char>) -> Seq<char>
    decreases vias.len(),
{
    if vias.len() == 0 {
        Seq::empty()
    } else if vias.len() == 1 {
        via_with_received(vias[0], remote_ip)
    } else {
        via_block(vias.drop_last(), remote_ip) + "\r\n"@ + via_with_received(vias.last(), remote_ip)
    }
}

/// The line that carries a challenge, where the fields hold one.
pub open spec fn challenge_line(fields: Map<Seq<char>, Seq<char>>) -> Seq<char> {
    if fields.contains_key("www-authenticate"@) {
        "WWW-Authenticate: "@ + fields["www-authenticate"@] + "\r\n"@
    } else {
        Seq::empty()
    }
}

/// The Contact value of every response: the gateway's own identity at its
/// public address and its SIP port.
pub open spec fn contact_value(public_ip: Seq<char>, port: u16) -> Seq<char> {
    "<sip:sentiric-signal@"@ + public_ip + ":"@ + decimal(port as nat) + ">"@
}

/// What follows the header fields: the length of the body in bytes, the
/// content type where a session description is sent, a blank line, and
/// the body.
pub open spec fn body_part(sdp: Option<Seq<char>>) -> Seq<char> {
    match sdp {
        Some(body) => "Content-Length: "@ + decimal(vstd::utf8::encode_utf8(body).len())
            + "\r\n"@ + "Content-Type: application/sdp\r\n"@ + "\r\n"@ + body,
        None => "Content-Length: 0\r\n"@ + "\r\n"@,
    }
}

/// The text of a response that names `contact` as its Contact: the status
/// line, the Via lines, the From, To, Call-ID and CSeq of the request as
/// `fields` hold them, a challenge if there is one, Contact, Server, and the
/// body part.
pub open spec fn response_text_with_contact(
    status_line: Seq<char>,
    fields: Map<Seq<char>, Seq<char>>,
    vias: Seq<Seq<char>>,
    sdp: Option<Seq<char>>,
    contact: Seq<char>,
    version: Seq<char>,
    remote_ip: Seq<char>,
) -> Seq<char> {
    "SIP/2.0 "@ + status_line + "\r\n"@ + via_block(vias, remote_ip) + "\r\n"@ + "From: "@
        + field_or_empty(fields, "from"@) + "\r\n"@ + "To: "@ + field_or_empty(fields, "to"@)
        + "\r\n"@ + "Call-ID: "@ + field_or_empty(fields, "call-id"@) + "\r\n"@ + "CSeq: "@
        + field_or_empty(fields, "cseq"@) + "\r\n"@ + challenge_line(fields) + "Contact: "@
        + contact + "\r\n"@ + "Server: Sentiric Signaling Service v"@ + version + "\r\n"@
        + body_part(sdp)
}

/// The text of a response. Its Contact is the gateway's own.
pub open spec fn response_text(
    status_line: Seq<char>,
    fields: Map<Seq<char>, Seq<char>>,
    vias: Seq<Seq<char>>,
    sdp: Option<Seq<char>>,
    public_ip: Seq<char>,
    port: u16,
    version: Seq<char>,
    remote_ip: Seq<char>,
) -> Seq<char> {
    response_text_with_contact(
        status_line,
        fields,
        vias,
        sdp,
        contact_value(public_ip, port),
        version,
        remote_ip,
    )
}

/// The response that `create_response_from_parts` builds for these inputs.
pub open spec fn response_for(
    status_line: Seq<char>,
    headers: Headers,
    via_headers: Seq<String>,
    sdp: Option<Seq<char>>,
    config: AppConfig,
    remote_addr: SocketAddress,
) -> Seq<char> {
    response_text(
        status_line,
        headers.texts(),
        texts_of(via_headers),
        sdp,
        config.sip_public_ip@,
        config.sip_listen_addr.port,
        config.service_version@,
        remote_addr.ip@,
    )
}

fn push_via(out: &mut Vec<char>, via: &str, remote_ip: &str)
    ensures
        final(out)@ == old(out)@ + via_with_received(via@, remote_ip@),
{
    let line = to_chars(via);
    let rport = to_chars(";rport");
    let received = to_chars(";received=");
    push_str(out, via);
    if contains_sub(&line, &rport) && !contains_sub(&line, &received) {
        push_str(out, ";received=");
        push_str(out, remote_ip);
        assert(out@ == old(out)@ + (via@ + ";received="@ + remote_ip@));
    }
}

fn push_vias(out: &mut Vec<char>, vias: &Vec<String>, remote_ip: &str)
    ensures
        final(out)@ == old(out)@ + via_block(texts_of(vias@), remote_ip@),
{
    let ghost all = texts_of(vias@);
    let mut i: usize = 0;
    assert(all.take(0) =~= Seq::<Seq<char>>::empty());
    assert(out@ == old(out)@ + Seq::<char>::empty());
    while i < vias.len()
        invariant
            i <= vias.len(),
            all == texts_of(vias@),
            out@ == old(out)@ + via_block(all.take(i as int), remote_ip@),
        decreases vias.len() - i,
    {
        let ghost before = out@;
        let ghost prefix = all.take(i as int);
        let ghost next = all.take(i + 1);
        assert(next.drop_last() == prefix);
        assert(next.last() == vias@[i as int]@);
        if i > 0 {
            push_str(out, "\r\n");
        }
        push_via(out, vias[i].as_str(), remote_ip);
        proof {
            let v = via_with_received(vias@[i as int]@, remote_ip@);
            if i > 0 {
                assert(via_block(next, remote_ip@) == via_block(prefix, remote_ip@) + "\r\n"@ + v);
                assert(out@ == old(out)@ + (via_block(prefix, remote_ip@) + "\r\n"@ + v));
            } else {
                assert(next[0] == vias@[0]@);
                assert(via_block(prefix, remote_ip@) == Seq::<char>::empty());
                assert(via_block(next, remote_ip@) == v);
                assert(out@ == old(out)@ + v);
            }
        }
        i += 1;
    }
    assert(all.take(vias.len() as int) == all);
}

fn push_body_part(out: &mut Vec<char>, sdp: Option<&str>)
    ensures
        final(out)@ == old(out)@ + body_part(
            match sdp {
                Some(body) => Some(body@),
                None => None,
            },
        ),
{
    match sdp {
        Some(body) => {
            let length = body.as_bytes().len();
            push_str(out, "Content-Length: ");
            push_decimal(out, length as u64);
            push_str(out, "\r\n");
            push_str(out, "Content-Type: application/sdp\r\n");
            push_str(out, "\r\n");
            push_str(out, body);
            assert(out@ == old(out)@ + ("Content-Length: "@ + decimal(
                vstd::utf8::encode_utf8(body@).len(),
            ) + "\r\n"@ + "Content-Type: application/sdp\r\n"@ + "\r\n"@ + body@));
        },
        None => {
            push_str(out, "Content-Length: 0\r\n");
            push_str(out, "\r\n");
            assert(out@ == old(out)@ + ("Content-Length: 0\r\n"@ + "\r\n"@));
        },
    }
}

fn push_field(out: &mut Vec<char>, label: &str, headers: &Headers, name: &str)
    ensures
        final(out)@ == old(out)@ + label@ + field_or_empty(headers.texts(), name@) + "\r\n"@,
{
    push_str(out, label);
    let value = headers.get_or_empty(name);
    push_str(out, value.as_str());
    push_str(out, "\r\n");
}

/// Builds a response that names `contact` as its Contact.
pub fn create_response_with_contact(
    status_line: &str,
    headers: &Headers,
    via_headers: &Vec<String>,
    sdp: Option<&str>,
    contact: &str,
    config: &AppConfig,
    remote_addr: &SocketAddress,
) -> (r: String)
    ensures
        r@ == response_text_with_contact(
            status_line@,
            headers.texts(),
            texts_of(via_headers@),
            match sdp {
                Some(body) => Some(body@),
                None => None,
            },
            contact@,
            config.service_version@,
            remote_addr.ip@,
        ),
{
    let ghost fields = headers.texts();
    let mut out: Vec<char> = Vec::new();
    push_str(&mut out, "SIP/2.0 ");
    push_str(&mut out, status_line);
    push_str(&mut out, "\r\n");
    push_vias(&mut out, via_headers, remote_addr.ip.as_str());
    push_str(&mut out, "\r\n");
    push_field(&mut out, "From: ", headers, "from");
    push_field(&mut out, "To: ", headers, "to");
    push_field(&mut out, "Call-ID: ", headers, "call-id");
    push_field(&mut out, "CSeq: ", headers, "cseq");
    let ghost upto_cseq = out@;
    assert(upto_cseq == "SIP/2.0 "@ + status_line@ + "\r\n"@ + via_block(
        texts_of(via_headers@),
        remote_addr.ip@,
    ) + "\r\n"@ + "From: "@ + field_or_empty(fields, "from"@) + "\r\n"@ + "To: "@
        + field_or_empty(fields, "to"@) + "\r\n"@ + "Call-ID: "@ + field_or_empty(
        fields,
        "call-id"@,
    ) + "\r\n"@ + "CSeq: "@ + field_or_empty(fields, "cseq"@) + "\r\n"@) by {
        assert(Seq::<char>::empty() + "SIP/2.0 "@ == "SIP/2.0 "@);
    }
    match headers.get("www-authenticate") {
        Some(value) => {
            push_str(&mut out, "WWW-Authenticate: ");
            push_str(&mut out, value.as_str());
            push_str(&mut out, "\r\n");
            assert(out@ == upto_cseq + ("WWW-Authenticate: "@ + value@ + "\r\n"@));
        },
        None => {
            assert(out@ == upto_cseq + Seq::<char>::empty());
        },
    }
    assert(out@ == upto_cseq + challenge_line(fields));
    push_str(&mut out, "Contact: ");
    push_str(&mut out, contact);
    push_str(&mut out, "\r\n");
    push_str(&mut out, "Server: Sentiric Signaling Service v");
    push_str(&mut out, config.service_version.as_str());
    push_str(&mut out, "\r\n");
    push_body_part(&mut out, sdp);
    from_chars(&out)
}

/// The gateway's own Contact value.
pub fn own_contact(config: &AppConfig) -> (r: String)
    ensures
        r@ == contact_value(config.sip_public_ip@, config.sip_listen_addr.port),
{
    let mut out: Vec<char> = Vec::new();
    push_str(&mut out, "<sip:sentiric-signal@");
    push_str(&mut out, config.sip_public_ip.as_str());
    push_str(&mut out, ":");
    push_decimal(&mut out, config.sip_listen_addr.port as u64);
    push_str(&mut out, ">");
    assert(out@ == contact_value(config.sip_public_ip@, config.sip_listen_addr.port)) by {
        assert(Seq::<char>::empty() + "<sip:sentiric-signal@"@ == "<sip:sentiric-signal@"@);
    }
    from_chars(&out)
}

/// Builds a response from the parts of a request. The same parts always
/// give the same text, character for character.
pub fn create_response_from_parts(
    status_line: &str,
    headers: &Headers,
    via_headers: &Vec<String>,
    sdp: Option<&str>,
    config: &AppConfig,
    remote_addr: &SocketAddress,
) -> (r: String)
    ensures
        r@ == response_for(
            status_line@,
            *headers,
            via_headers@,
            match sdp {
                Some(body) => Some(body@),
                None => None,
            },
            *config,
            *remote_addr,
        ),
{
    let contact = own_contact(config);
    create_response_with_contact(
        status_line,
        headers,
        via_headers,
        sdp,
        contact.as_str(),
        config,
        remote_addr,
    )
}

/// Builds a response to the request that `context` holds.
pub fn create_response(
    status_line: &str,
    context: &CallContext,
    sdp: Option<&str>,
    config: &AppConfig,
) -> (r: String)
    ensures
        r@ == response_for(
            status_line@,
            context.headers,
            context.via_headers@,
            match sdp {
                Some(body) => Some(body@),
                None => None,
            },
            *config,
            context.remote_addr,
        ),
{
    create_response_from_parts(
        status_line,
        &context.headers,
        &context.via_headers,
        sdp,
        config,
        &context.remote_addr,
    )
}

/// The provisional response that tells the caller the call is ringing.
pub fn build_180_ringing(
    headers: &Headers,
    via_headers: &Vec<String>,
    config: &AppConfig,
    remote_addr: &SocketAddress,
) -> (r: String)
    ensures
        r@ == response_for("180 Ringing"@, *headers, via_headers@, None, *config, *remote_addr),
{
    create_response_from_parts("180 Ringing", headers, via_headers, None, config, remote_addr)
}

/// The session description the gateway answers with: one audio stream, PCMU,
/// at the gateway's public address and the media port `rtp_port`.
pub open spec fn sdp_text(session_id: u32, public_ip: Seq<char>, rtp_port: u32) -> Seq<char> {
    "v=0\r\no=- "@ + decimal(session_id as nat) + " "@ + decimal(session_id as nat) + " IN IP4 "@
        + public_ip + "\r\ns=Sentiric\r\nc=IN IP4 "@ + public_ip + "\r\nt=0 0\r\nm=audio "@
        + decimal(rtp_port as nat) + " RTP/AVP 0\r\na=rtpmap:0 PCMU/8000\r\n"@
}

/// Writes the session description for the media port `rtp_port`.
pub fn sdp_answer(session_id: u32, public_ip: &str, rtp_port: u32) -> (r: String)
    ensures
        r@ == sdp_text(session_id, public_ip@, rtp_port),
{
    let mut out: Vec<char> = Vec::new();
    push_str(&mut out, "v=0\r\no=- ");
    push_decimal(&mut out, session_id as u64);
    push_str(&mut out, " ");
    push_decimal(&mut out, session_id as u64);
    push_str(&mut out, " IN IP4 ");
    push_str(&mut out, public_ip);
    push_str(&mut out, "\r\ns=Sentiric\r\nc=IN IP4 ");
    push_str(&mut out, public_ip);
    push_str(&mut out, "\r\nt=0 0\r\nm=audio ");
    push_decimal(&mut out, rtp_port as u64);
    push_str(&mut out, " RTP/AVP 0\r\na=rtpmap:0 PCMU/8000\r\n");
    assert(out@ == sdp_text(session_id, public_ip@, rtp_port)) by {
        assert(Seq::<char>::empty() + "v=0\r\no=- "@ == "v=0\r\no=- "@);
    }
    from_chars(&out)
}

/// The final response to an INVITE, with the session description that
/// carries the session identifier `session_id`.
pub fn build_200_ok_with_session(
    headers: &Headers,
    via_headers: &Vec<String>,
    rtp_port: u32,
    session_id: u32,
    config: &AppConfig,
    remote_addr: &SocketAddress,
) -> (r: String)
    ensures
        r@ == response_for(
            "200 OK"@,
            *headers,
            via_headers@,
            Some(sdp_text(session_id, config.sip_public_ip@, rtp_port)),
            *config,
            *remote_addr,
        ),
{
    let sdp = sdp_answer(session_id, config.sip_public_ip.as_str(), rtp_port);
    create_response_from_parts(
        "200 OK",
        headers,
        via_headers,
        Some(sdp.as_str()),
        config,
        remote_addr,
    )
}

/// The final response to an INVITE. The session identifier of its session
/// description is the media port, so that the same call is always answered
/// with the same text.
pub fn build_200_ok_with_sdp(
    headers: &Headers,
    via_headers: &Vec<String>,
    rtp_port: u32,
    config: &AppConfig,
    remote_addr: &SocketAddress,
) -> (r: String)
    ensures
        r@ == response_for(
            "200 OK"@,
            *headers,
            via_headers@,
            Some(sdp_text(rtp_port, config.sip_public_ip@, rtp_port)),
            *config,
            *remote_addr,
        ),
{
    build_200_ok_with_session(headers, via_headers, rtp_port, rtp_port, config, remote_addr)
}

/// A response is fixed by the texts it is built from: two sets of inputs
/// that hold the same status line, fields, Via lines, body, public address,
/// port, version and remote address give the same response, character for
/// character.
pub proof fn response_is_deterministic(
    status_line: Seq<char>,
    sdp: Option<Seq<char>>,
    headers1: Headers,
    headers2: Headers,
    vias1: Seq<String>,
    vias2: Seq<String>,
    config1: AppConfig,
    config2: AppConfig,
    remote1: SocketAddress,
    remote2: SocketAddress,
)
    requires
        headers1.texts() == headers2.texts(),
        texts_of(vias1) == texts_of(vias2),
        config1.sip_public_ip@ == config2.sip_public_ip@,
        config1.sip_listen_addr.port == config2.sip_listen_addr.port,
        config1.service_version@ == config2.service_version@,
        remote1.ip@ == remote2.ip@,
    ensures
        response_for(status_line, headers1, vias1, sdp, config1, remote1) == response_for(
            status_line,
            headers2,
            vias2,
            sdp,
            config2,
            remote2,
        ),
{
}

} // verus!
