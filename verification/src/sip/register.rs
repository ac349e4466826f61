//! REGISTER: challenge, verification of the digest, and the binding.
use crate::config::{AppConfig, SocketAddress};
use crate::dedup::{register_claim_key, register_key, REGISTER_CLAIM_TTL_SECS};
use crate::error::ServiceError;
use crate::foreign::{is_alphanumeric, md5_digest, md5_of, random_alphanumeric};
use crate::sip::call_context::{parse_failure, request_fields, CallContext};
use crate::sip::responses::{
    create_response_from_parts, create_response_with_contact, response_for, response_text,
    response_text_with_contact,
};
use crate::sip::utils::texts_of;
use crate::strmap::{Headers, StringMap};
use crate::text::{
    decimal, find_char, from_chars, has_prefix, index_of, parse_decimal, parse_unsigned,
    push_decimal, push_str, slice, split_chars, split_on, starts_with, str_eq, strip_char,
    strip_chars, to_chars, trim, trim_chars, views,
};
use vstd::prelude::*;

verus! {

/// Seconds a binding lasts where the request names no other time.
pub const DEFAULT_EXPIRES_SECS: u64 = 3600;

/// The character that writes the hexadecimal digit `n`, in lower case.
pub open spec fn hex_digit(n: int) -> char {
    if n < 10 {
        ((48 + n) as u8) as char
    } else {
        ((87 + n) as u8) as char
    }
}

/// `bytes` in hexadecimal notation: two lower-case digits for each byte.
pub open spec fn hex_of(bytes: Seq<u8>) -> Seq<char>
    decreases bytes.len(),
{
    if bytes.len() == 0 {
        Seq::empty()
    } else {
        hex_of(bytes.drop_last()).push(hex_digit(bytes.last() as int / 16)).push(
            hex_digit(bytes.last() as int % 16),
        )
    }
}

fn hex_char(n: u8) -> (c: char)
    requires
        n < 16,
    ensures
        c == hex_digit(n as int),
{
    if n < 10 {
        (48u8 + n) as char
    } else {
        (87u8 + n) as char
    }
}

/// Writes `bytes` in lower-case hexadecimal notation.
pub fn hex_lower(bytes: &Vec<u8>) -> (r: Vec<char>)
    ensures
        r@ == hex_of(bytes@),
{
    let mut out: Vec<char> = Vec::new();
    let mut i: usize = 0;
    while i < bytes.len()
        invariant
            i <= bytes.len(),
            out@ == hex_of(bytes@.take(i as int)),
        decreases bytes.len() - i,
    {
        assert(bytes@.take(i + 1).drop_last() == bytes@.take(i as int));
        let b = bytes[i];
        out.push(hex_char(b / 16));
        out.push(hex_char(b % 16));
        i += 1;
    }
    assert(bytes@.take(bytes.len() as int) == bytes@);
    out
}

/// The MD5 digest of the UTF-8 form of `text`, in hexadecimal notation.
pub open spec fn md5_hex(text: Seq<char>) -> Seq<char> {
    hex_of(md5_of(vstd::utf8::encode_utf8(text)))
}

/// The MD5 digest of `text`, in hexadecimal notation.
pub fn md5_hex_of(text: &str) -> (r: Vec<char>)
    ensures
        r@ == md5_hex(text@),
{
    let digest = md5_digest(text.as_bytes());
    hex_lower(&digest)
}

/// What the second hash of a digest covers: the method and the URI.
pub open spec fn second_hash_input(method: Seq<char>, uri: Seq<char>) -> Seq<char> {
    method + ":"@ + uri
}

/// What the response of a digest covers, given the second hash `ha2`. Where
/// the client names a quality of protection, it is the stored hash, the
/// nonce, the nonce count, the client nonce, the quality of protection and
/// the second hash; else the stored hash, the nonce and the second hash.
pub open spec fn response_input(
    ha1: Seq<char>,
    nonce: Seq<char>,
    protection: Option<(Seq<char>, Seq<char>, Seq<char>)>,
    ha2: Seq<char>,
) -> Seq<char> {
    match protection {
        Some((nc, cnonce, qop)) => ha1 + ":"@ + nonce + ":"@ + nc + ":"@ + cnonce + ":"@ + qop
            + ":"@ + ha2,
        None => ha1 + ":"@ + nonce + ":"@ + ha2,
    }
}

/// The response a client owes to a digest challenge: the hash of what
/// `response_input` gives for the hash of the method and the URI.
pub open spec fn expected_digest(
    ha1: Seq<char>,
    method: Seq<char>,
    uri: Seq<char>,
    nonce: Seq<char>,
    protection: Option<(Seq<char>, Seq<char>, Seq<char>)>,
) -> Seq<char> {
    md5_hex(response_input(ha1, nonce, protection, md5_hex(second_hash_input(method, uri))))
}

/// The nonce count, client nonce and quality of protection, where the
/// client sent all three.
pub open spec fn protection_of(
    nc: Option<Seq<char>>,
    cnonce: Option<Seq<char>>,
    qop: Option<Seq<char>>,
) -> Option<(Seq<char>, Seq<char>, Seq<char>)> {
    match (nc, cnonce, qop) {
        (Some(n), Some(c), Some(q)) => Some((n, c, q)),
        _ => None,
    }
}

/// The text of an optional string.
pub open spec fn opt_text(o: Option<String>) -> Option<Seq<char>> {
    match o {
        Some(s) => Some(s@),
        None => None,
    }
}

/// Writes what the second hash of a digest covers.
pub fn digest_second_input(method: &str, uri: &str) -> (r: String)
    ensures
        r@ == second_hash_input(method@, uri@),
{
    let mut a2: Vec<char> = Vec::new();
    push_str(&mut a2, method);
    push_str(&mut a2, ":");
    push_str(&mut a2, uri);
    assert(a2@ == method@ + ":"@ + uri@) by {
        assert(Seq::<char>::empty() + method@ == method@);
    }
    from_chars(&a2)
}

/// Writes what the response of a digest covers, given the second hash in
/// hexadecimal notation.
pub fn digest_response_input(
    ha1: &str,
    nonce: &str,
    nc: &Option<String>,
    cnonce: &Option<String>,
    qop: &Option<String>,
    ha2: &str,
) -> (r: String)
    ensures
        r@ == response_input(
            ha1@,
            nonce@,
            protection_of(opt_text(*nc), opt_text(*cnonce), opt_text(*qop)),
            ha2@,
        ),
{
    let mut input: Vec<char> = Vec::new();
    push_str(&mut input, ha1);
    push_str(&mut input, ":");
    push_str(&mut input, nonce);
    push_str(&mut input, ":");
    assert(input@ == ha1@ + ":"@ + nonce@ + ":"@) by {
        assert(Seq::<char>::empty() + ha1@ == ha1@);
    }
    match (nc, cnonce, qop) {
        (Some(n), Some(c), Some(q)) => {
            push_str(&mut input, n.as_str());
            push_str(&mut input, ":");
            push_str(&mut input, c.as_str());
            push_str(&mut input, ":");
            push_str(&mut input, q.as_str());
            push_str(&mut input, ":");
        },
        _ => {},
    }
    push_str(&mut input, ha2);
    from_chars(&input)
}

/// Computes the response that answers a digest challenge for the stored
/// hash `ha1`.
pub fn compute_digest_response(
    ha1: &str,
    method: &str,
    uri: &str,
    nonce: &str,
    nc: &Option<String>,
    cnonce: &Option<String>,
    qop: &Option<String>,
) -> (r: String)
    ensures
        r@ == expected_digest(
            ha1@,
            method@,
            uri@,
            nonce@,
            protection_of(opt_text(*nc), opt_text(*cnonce), opt_text(*qop)),
        ),
{
    let ha2 = from_chars(&md5_hex_of(digest_second_input(method, uri).as_str()));
    let input = digest_response_input(ha1, nonce, nc, cnonce, qop, ha2.as_str());
    from_chars(&md5_hex_of(input.as_str()))
}

/// The parameters that the pieces of a credentials list name. A piece is
/// trimmed; a piece with `=` names the parameter that stands before the
/// first `=`, trimmed, with the value that stands after it, trimmed and
/// without the quotes around it. A name that comes twice keeps its later
/// value.
pub open spec fn param_map(pieces: Seq<Seq<char>>) -> Map<Seq<char>, Seq<char>>
    decreases pieces.len(),
{
    if pieces.len() == 0 {
        Map::empty()
    } else {
        let piece = trim(pieces.last());
        let eq = index_of(piece, '=');
        if eq < piece.len() {
            param_map(pieces.drop_last()).insert(
                trim(piece.take(eq)),
                strip_char(trim(piece.skip(eq + 1)), '"'),
            )
        } else {
            param_map(pieces.drop_last())
        }
    }
}

/// The parameters of an Authorization value: those that follow `Digest `,
/// separated by commas. A value for another scheme has none.
pub open spec fn digest_params(authorization: Seq<char>) -> Map<Seq<char>, Seq<char>> {
    if has_prefix(authorization, "Digest "@) {
        param_map(split_on(authorization.skip(7), ','))
    } else {
        param_map(split_on(Seq::empty(), ','))
    }
}

/// Reads the parameters of an Authorization value.
pub fn parse_digest_params(authorization: &str) -> (r: Headers)
    ensures
        r.texts() == digest_params(authorization@),
{
    let chars = to_chars(authorization);
    let scheme = to_chars("Digest ");
    proof {
        reveal_strlit("Digest ");
    }
    let rest = if starts_with(&chars, &scheme) {
        assert(chars@.subrange(7, chars.len() as int) == chars@.skip(7));
        slice(&chars, 7, chars.len())
    } else {
        Vec::new()
    };
    let pieces = split_chars(&rest, ',');
    let ghost all = views(pieces@);
    let mut params: Headers = StringMap::new();
    let mut i: usize = 0;
    assert(params.texts() =~= Map::<Seq<char>, Seq<char>>::empty());
    assert(all.take(0) =~= Seq::<Seq<char>>::empty());
    while i < pieces.len()
        invariant
            i <= pieces.len(),
            all == views(pieces@),
            params.texts() == param_map(all.take(i as int)),
        decreases pieces.len() - i,
    {
        assert(all.take(i + 1).drop_last() == all.take(i as int));
        assert(all.take(i + 1).last() == pieces@[i as int]@);
        let piece = trim_chars(&pieces[i]);
        let eq = find_char(&piece, 0, '=');
        assert(piece@.skip(0) == piece@);
        if eq < piece.len() {
            assert(piece@.subrange(0, eq as int) == piece@.take(eq as int));
            assert(piece@.subrange(eq + 1, piece.len() as int) == piece@.skip(eq + 1));
            let name = trim_chars(&slice(&piece, 0, eq));
            let value = strip_chars(&trim_chars(&slice(&piece, eq + 1, piece.len())), '"');
            params.put(from_chars(&name), from_chars(&value));
        }
        i += 1;
    }
    assert(all.take(pieces.len() as int) == all);
    params
}

/// What a client sent to prove who it is.
#[derive(Clone, Debug)]
pub struct DigestCredentials {
    pub username: String,
    pub realm: String,
    pub nonce: String,
    pub uri: String,
    pub response: String,
    pub nc: Option<String>,
    pub cnonce: Option<String>,
    pub qop: Option<String>,
}

/// The first of the parameters a client owes that `params` lacks.
pub open spec fn missing_param(params: Map<Seq<char>, Seq<char>>) -> Option<Seq<char>> {
    if !params.contains_key("username"@) {
        Some("username"@)
    } else if !params.contains_key("realm"@) {
        Some("realm"@)
    } else if !params.contains_key("nonce"@) {
        Some("nonce"@)
    } else if !params.contains_key("uri"@) {
        Some("uri"@)
    } else if !params.contains_key("response"@) {
        Some("response"@)
    } else {
        None
    }
}

/// The value of the parameter `name`, where `params` hold it.
pub open spec fn param(params: Map<Seq<char>, Seq<char>>, name: Seq<char>) -> Option<Seq<char>> {
    if params.contains_key(name) {
        Some(params[name])
    } else {
        None
    }
}

impl DigestCredentials {
    /// Whether the credentials hold what `params` name.
    pub open spec fn holds(&self, params: Map<Seq<char>, Seq<char>>) -> bool {
        &&& Some(self.username@) == param(params, "username"@)
        &&& Some(self.realm@) == param(params, "realm"@)
        &&& Some(self.nonce@) == param(params, "nonce"@)
        &&& Some(self.uri@) == param(params, "uri"@)
        &&& Some(self.response@) == param(params, "response"@)
        &&& opt_text(self.nc) == param(params, "nc"@)
        &&& opt_text(self.cnonce) == param(params, "cnonce"@)
        &&& opt_text(self.qop) == param(params, "qop"@)
    }

    /// The response these credentials must carry for the stored hash `ha1`.
    pub open spec fn expected_response(&self, ha1: Seq<char>) -> Seq<char> {
        expected_digest(
            ha1,
            "REGISTER"@,
            self.uri@,
            self.nonce@,
            protection_of(opt_text(self.nc), opt_text(self.cnonce), opt_text(self.qop)),
        )
    }

    /// The key of the binding in the registration store.
    pub open spec fn binding_key(&self) -> Seq<char> {
        "sip_registration:sip:"@ + self.username@ + "@"@ + self.realm@
    }
}

fn missing(name: &str) -> (r: ServiceError)
    ensures
        r matches ServiceError::Generic(detail) && detail@ == name@ + " eksik"@,
{
    let mut out: Vec<char> = Vec::new();
    push_str(&mut out, name);
    push_str(&mut out, " eksik");
    assert(out@ == name@ + " eksik"@) by {
        assert(Seq::<char>::empty() + name@ == name@);
    }
    ServiceError::Generic(from_chars(&out))
}

/// Reads the credentials of an Authorization value. The user name, realm,
/// nonce, URI and response are owed; the first that is missing is reported.
pub fn read_credentials(authorization: &str) -> (r: Result<DigestCredentials, ServiceError>)
    ensures
        match r {
            Ok(credentials) => missing_param(digest_params(authorization@)) is None
                && credentials.holds(digest_params(authorization@)),
            Err(e) => e matches ServiceError::Generic(detail) && match missing_param(
                digest_params(authorization@),
            ) {
                Some(name) => detail@ == name + " eksik"@,
                None => false,
            },
        },
{
    let params = parse_digest_params(authorization);
    let username = match params.get_text("username") {
        Some(v) => v,
        None => {
            return Err(missing("username"));
        },
    };
    let realm = match params.get_text("realm") {
        Some(v) => v,
        None => {
            return Err(missing("realm"));
        },
    };
    let nonce = match params.get_text("nonce") {
        Some(v) => v,
        None => {
            return Err(missing("nonce"));
        },
    };
    let uri = match params.get_text("uri") {
        Some(v) => v,
        None => {
            return Err(missing("uri"));
        },
    };
    let response = match params.get_text("response") {
        Some(v) => v,
        None => {
            return Err(missing("response"));
        },
    };
    Ok(
        DigestCredentials {
            username,
            realm,
            nonce,
            uri,
            response,
            nc: params.get_text("nc"),
            cnonce: params.get_text("cnonce"),
            qop: params.get_text("qop"),
        },
    )
}

/// How the handling of a REGISTER begins.
#[derive(Debug)]
pub enum RegisterStart {
    /// The datagram is no usable request, or its credentials are incomplete.
    /// Nothing is sent.
    Refused(ServiceError),
    /// The request carries no credentials. It is to be claimed under
    /// `claim_key`, and challenged if the claim is the first.
    Challenge { context: CallContext, claim_key: String, ttl_secs: u64 },
    /// The request carries credentials. The stored hash of the user is to be
    /// looked up, and the credentials verified against it.
    Verify { context: CallContext, credentials: DigestCredentials },
}

/// Reads a REGISTER that came from `remote_addr` and says what is to be done
/// first.
pub fn begin(request_str: &str, remote_addr: SocketAddress) -> (r: RegisterStart)
    ensures
        match r {
            RegisterStart::Refused(e) => match parse_failure(request_str@) {
                Some(p) => e matches ServiceError::SipParse(q) && q == p,
                None => {
                    let fields = request_fields(request_str@);
                    &&& fields.contains_key("authorization"@)
                    &&& e matches ServiceError::Generic(detail)
                    &&& match missing_param(digest_params(fields["authorization"@])) {
                        Some(name) => detail@ == name + " eksik"@,
                        None => false,
                    }
                },
            },
            RegisterStart::Challenge { context, claim_key, ttl_secs } => {
                &&& parse_failure(request_str@) is None
                &&& context.describes(request_str@)
                &&& context.remote_addr == remote_addr
                &&& context.trace_id@ == "register-trace"@
                &&& !request_fields(request_str@).contains_key("authorization"@)
                &&& claim_key@ == register_key(context.call_id@)
                &&& ttl_secs == REGISTER_CLAIM_TTL_SECS
            },
            RegisterStart::Verify { context, credentials } => {
                let fields = request_fields(request_str@);
                &&& parse_failure(request_str@) is None
                &&& context.describes(request_str@)
                &&& context.remote_addr == remote_addr
                &&& context.trace_id@ == "register-trace"@
                &&& fields.contains_key("authorization"@)
                &&& missing_param(digest_params(fields["authorization"@])) is None
                &&& credentials.holds(digest_params(fields["authorization"@]))
            },
        },
{
    let context = match CallContext::from_request(
        request_str,
        remote_addr,
        String::from_str("register-trace"),
    ) {
        Ok(context) => context,
        Err(e) => {
            return RegisterStart::Refused(e);
        },
    };
    match context.headers.get_text("authorization") {
        Some(authorization) => match read_credentials(authorization.as_str()) {
            Ok(credentials) => RegisterStart::Verify { context, credentials },
            Err(e) => RegisterStart::Refused(e),
        },
        None => {
            let claim_key = register_claim_key(context.call_id.as_str());
            RegisterStart::Challenge { context, claim_key, ttl_secs: REGISTER_CLAIM_TTL_SECS }
        },
    }
}

/// The challenge for `realm` that carries `nonce`.
pub open spec fn challenge_value(realm: Seq<char>, nonce: Seq<char>) -> Seq<char> {
    "Digest realm=\""@ + realm + "\", qop=\"auth\", nonce=\""@ + nonce + "\""@
}

/// The `401 Unauthorized` that challenges the request in `context` with
/// `nonce`.
pub open spec fn challenge_response(
    context: CallContext,
    nonce: Seq<char>,
    config: AppConfig,
) -> Seq<char> {
    response_text(
        "401 Unauthorized"@,
        context.headers.texts().insert(
            "www-authenticate"@,
            challenge_value(config.sip_realm@, nonce),
        ),
        texts_of(context.via_headers@),
        None,
        config.sip_public_ip@,
        config.sip_listen_addr.port,
        config.service_version@,
        context.remote_addr.ip@,
    )
}

/// The `503 Service Unavailable` that answers the request in `context`
/// where the store the gateway depends on has failed.
pub open spec fn unavailable_response(context: CallContext, config: AppConfig) -> Seq<char> {
    response_for(
        "503 Service Unavailable"@,
        context.headers,
        context.via_headers@,
        None,
        config,
        context.remote_addr,
    )
}

/// What follows the claim of a REGISTER without credentials.
#[derive(Debug)]
pub enum ChallengeStep {
    /// The request is a retransmission: it gets no answer.
    Ignored,
    /// The claim could not be made, because the store failed.
    Unavailable { response: String },
    /// The request is the first: it is challenged.
    Challenged { response: String },
}

/// Answers a REGISTER without credentials, given what its claim gave: `None`
/// where the store failed, else whether the claim was the first. A failed
/// store is answered with `503 Service Unavailable`, a retransmission gets no
/// answer, and the first request is challenged with `nonce`.
pub fn challenge_client(
    context: &CallContext,
    claim: Option<bool>,
    nonce: &str,
    config: &AppConfig,
) -> (r: ChallengeStep)
    ensures
        match claim {
            None => r matches ChallengeStep::Unavailable { response } && response@
                == unavailable_response(*context, *config),
            Some(false) => r is Ignored,
            Some(true) => r matches ChallengeStep::Challenged { response } && response@
                == challenge_response(*context, nonce@, *config),
        },
{
    match claim {
        None => ChallengeStep::Unavailable {
            response: create_response_from_parts(
                "503 Service Unavailable",
                &context.headers,
                &context.via_headers,
                None,
                config,
                &context.remote_addr,
            ),
        },
        Some(false) => ChallengeStep::Ignored,
        Some(true) => {
            let mut value: Vec<char> = Vec::new();
            push_str(&mut value, "Digest realm=\"");
            push_str(&mut value, config.sip_realm.as_str());
            push_str(&mut value, "\", qop=\"auth\", nonce=\"");
            push_str(&mut value, nonce);
            push_str(&mut value, "\"");
            assert(value@ == challenge_value(config.sip_realm@, nonce@)) by {
                assert(Seq::<char>::empty() + "Digest realm=\""@ == "Digest realm=\""@);
            }
            let mut headers = context.headers.duplicate();
            headers.put(String::from_str("www-authenticate"), from_chars(&value));
            ChallengeStep::Challenged {
                response: create_response_from_parts(
                    "401 Unauthorized",
                    &headers,
                    &context.via_headers,
                    None,
                    config,
                    &context.remote_addr,
                ),
            }
        },
    }
}

/// Whether `nonce` is one the gateway may have drawn: thirty-two ASCII
/// letters and digits.
pub open spec fn is_nonce(nonce: Seq<char>) -> bool {
    nonce.len() == 32 && forall|i: int|
        0 <= i < nonce.len() ==> is_alphanumeric(#[trigger] nonce[i])
}

/// Whether `response` challenges the request in `context` with some nonce
/// the gateway may have drawn.
pub open spec fn drawn_challenge(
    response: Seq<char>,
    context: CallContext,
    config: AppConfig,
) -> bool {
    exists|nonce: Seq<char>|
        is_nonce(nonce) && response == #[trigger] challenge_response(context, nonce, config)
}

/// Answers a REGISTER without credentials; the nonce of a challenge is
/// drawn at random.
pub fn challenge_with_fresh_nonce(
    context: &CallContext,
    claim: Option<bool>,
    config: &AppConfig,
) -> (r: ChallengeStep)
    ensures
        match claim {
            None => r matches ChallengeStep::Unavailable { response } && response@
                == unavailable_response(*context, *config),
            Some(false) => r is Ignored,
            Some(true) => r matches ChallengeStep::Challenged { response } && drawn_challenge(
                response@,
                *context,
                *config,
            ),
        },
{
    let nonce = random_alphanumeric(32);
    assert(is_nonce(nonce@));
    challenge_client(context, claim, nonce.as_str(), config)
}

/// What is to be done with the binding of the user in the registration
/// store.
#[derive(Debug)]
pub enum BindingUpdate {
    /// Bind the address of record to `contact` for `ttl_secs` seconds.
    Store { key: String, contact: String, ttl_secs: u64 },
    /// Remove the binding.
    Delete { key: String },
}

/// How the verification of a REGISTER ends.
#[derive(Debug)]
pub enum RegisterVerdict {
    /// The user is unknown or the digest is wrong: `403 Forbidden`.
    Forbidden { response: String },
    /// The digest is right: `200 OK`, and the binding changes.
    Accepted { response: String, binding: BindingUpdate },
}

/// The seconds a request asks its binding to last: the value of Expires
/// where it is a number, else the default.
pub open spec fn expires_of(fields: Map<Seq<char>, Seq<char>>) -> u64 {
    if fields.contains_key("expires"@) {
        match parse_unsigned(fields["expires"@], u64::MAX as nat) {
            Some(v) => v as u64,
            None => DEFAULT_EXPIRES_SECS,
        }
    } else {
        DEFAULT_EXPIRES_SECS
    }
}

/// The Contact of the `200 OK`: that of the request, with the time the
/// binding lasts.
pub open spec fn echoed_contact(contact: Seq<char>, expires: u64) -> Seq<char> {
    contact + ";expires="@ + decimal(expires as nat)
}

/// Whether `binding` is what a request with `credentials`, the Contact
/// `contact` and the time `expires` asks for: no time removes the binding,
/// any other stores it for that time.
pub open spec fn binding_matches(
    binding: BindingUpdate,
    credentials: DigestCredentials,
    contact: Seq<char>,
    expires: u64,
) -> bool {
    match binding {
        BindingUpdate::Store { key, contact: c, ttl_secs } => {
            &&& expires > 0
            &&& key@ == credentials.binding_key()
            &&& c@ == contact
            &&& ttl_secs == expires
        },
        BindingUpdate::Delete { key } => expires == 0 && key@ == credentials.binding_key(),
    }
}

/// The text of an optional string slice.
pub open spec fn str_text(o: Option<&str>) -> Option<Seq<char>> {
    match o {
        Some(s) => Some(s@),
        None => None,
    }
}

/// Whether the response the client sent is the one it owes for the stored
/// hash of the user, `None` where the lookup found no user or failed.
pub open spec fn digest_matches(
    credentials: DigestCredentials,
    stored_ha1: Option<Seq<char>>,
) -> bool {
    match stored_ha1 {
        Some(ha1) => credentials.response@ == credentials.expected_response(ha1),
        None => false,
    }
}

/// Decides a REGISTER, given whether the digest of the client is right. A
/// wrong digest is answered with `403 Forbidden` and changes nothing; a right
/// one is answered with `200 OK`, and the binding is stored for the time the
/// request names, or removed where that time is zero.
pub fn verdict(
    context: &CallContext,
    credentials: &DigestCredentials,
    matches: bool,
    config: &AppConfig,
) -> (r: RegisterVerdict)
    ensures
        match r {
            RegisterVerdict::Forbidden { response } => {
                &&& !matches
                &&& response@ == response_for(
                    "403 Forbidden"@,
                    context.headers,
                    context.via_headers@,
                    None,
                    *config,
                    context.remote_addr,
                )
            },
            RegisterVerdict::Accepted { response, binding } => {
                let expires = expires_of(context.headers.texts());
                &&& matches
                &&& binding_matches(binding, *credentials, context.contact_header@, expires)
                &&& response@ == response_text_with_contact(
                    "200 OK"@,
                    context.headers.texts(),
                    texts_of(context.via_headers@),
                    None,
                    echoed_contact(context.contact_header@, expires),
                    config.service_version@,
                    context.remote_addr.ip@,
                )
            },
        },
{
    if !matches {
        return RegisterVerdict::Forbidden {
            response: create_response_from_parts(
                "403 Forbidden",
                &context.headers,
                &context.via_headers,
                None,
                config,
                &context.remote_addr,
            ),
        };
    }
    let expires: u64 = match context.headers.get("expires") {
        Some(value) => match parse_decimal(&to_chars(value.as_str()), u64::MAX) {
            Some(v) => v,
            None => DEFAULT_EXPIRES_SECS,
        },
        None => DEFAULT_EXPIRES_SECS,
    };
    let mut key: Vec<char> = Vec::new();
    push_str(&mut key, "sip_registration:sip:");
    push_str(&mut key, credentials.username.as_str());
    push_str(&mut key, "@");
    push_str(&mut key, credentials.realm.as_str());
    assert(key@ == credentials.binding_key()) by {
        assert(Seq::<char>::empty() + "sip_registration:sip:"@ == "sip_registration:sip:"@);
    }
    let binding = if expires > 0 {
        BindingUpdate::Store {
            key: from_chars(&key),
            contact: context.contact_header.clone(),
            ttl_secs: expires,
        }
    } else {
        BindingUpdate::Delete { key: from_chars(&key) }
    };
    let mut contact: Vec<char> = Vec::new();
    push_str(&mut contact, context.contact_header.as_str());
    push_str(&mut contact, ";expires=");
    push_decimal(&mut contact, expires);
    assert(contact@ == echoed_contact(context.contact_header@, expires)) by {
        assert(Seq::<char>::empty() + context.contact_header@ == context.contact_header@);
    }
    RegisterVerdict::Accepted {
        response: create_response_with_contact(
            "200 OK",
            &context.headers,
            &context.via_headers,
            None,
            from_chars(&contact).as_str(),
            config,
            &context.remote_addr,
        ),
        binding,
    }
}

/// Verifies the credentials of a REGISTER against the stored hash of the
/// user, `None` where the lookup found no user or failed, and decides the
/// request.
pub fn verify_authentication(
    context: &CallContext,
    credentials: &DigestCredentials,
    stored_ha1: Option<&str>,
    config: &AppConfig,
) -> (r: RegisterVerdict)
    ensures
        match r {
            RegisterVerdict::Forbidden { response } => {
                &&& !digest_matches(
                    *credentials,
                    str_text(stored_ha1),
                )
                &&& response@ == response_for(
                    "403 Forbidden"@,
                    context.headers,
                    context.via_headers@,
                    None,
                    *config,
                    context.remote_addr,
                )
            },
            RegisterVerdict::Accepted { response, binding } => {
                let expires = expires_of(context.headers.texts());
                &&& digest_matches(
                    *credentials,
                    str_text(stored_ha1),
                )
                &&& binding_matches(binding, *credentials, context.contact_header@, expires)
                &&& response@ == response_text_with_contact(
                    "200 OK"@,
                    context.headers.texts(),
                    texts_of(context.via_headers@),
                    None,
                    echoed_contact(context.contact_header@, expires),
                    config.service_version@,
                    context.remote_addr.ip@,
                )
            },
        },
{
    let matches = match stored_ha1 {
        Some(ha1) => {
            let expected = compute_digest_response(
                ha1,
                "REGISTER",
                credentials.uri.as_str(),
                credentials.nonce.as_str(),
                &credentials.nc,
                &credentials.cnonce,
                &credentials.qop,
            );
            str_eq(credentials.response.as_str(), expected.as_str())
        },
        None => false,
    };
    verdict(context, credentials, matches, config)
}

/// The answer to an accepted REGISTER, given whether the store took the
/// change of the binding: the `200 OK` where it did, and `503 Service
/// Unavailable` where it failed, so that no binding is confirmed that does
/// not exist.
pub fn after_binding(
    context: &CallContext,
    accepted: String,
    stored: bool,
    config: &AppConfig,
) -> (r: String)
    ensures
        stored ==> r@ == accepted@,
        !stored ==> r@ == unavailable_response(*context, *config),
{
    if stored {
        accepted
    } else {
        create_response_from_parts(
            "503 Service Unavailable",
            &context.headers,
            &context.via_headers,
            None,
            config,
            &context.remote_addr,
        )
    }
}

} // verus!
