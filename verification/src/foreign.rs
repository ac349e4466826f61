//! The calls this library makes into other crates and into the standard
//! library, each with the contract the library relies on.
use crate::events::{JsonGroup, JsonMember};
use crate::text::decimal;
use vstd::prelude::*;
use vstd::string::StringSliceAdditionalSpecFns;

verus! {

/// The error of `core::str::from_utf8`, as a value that is only passed on.
#[verifier::external_type_specification]
#[verifier::external_body]
pub struct ExUtf8Error(core::str::Utf8Error);

/// `core::str::from_utf8` succeeds exactly on valid UTF-8, and the string it
/// gives has the bytes it was given.
pub assume_specification[ core::str::from_utf8 ](v: &[u8]) -> (r: Result<
    &str,
    core::str::Utf8Error,
>)
    ensures
        r is Ok <==> vstd::utf8::valid_utf8(v@),
        r matches Ok(s) ==> s.spec_bytes() == v@,
;

/// `String::push` appends the character to the end of the string.
pub assume_specification[ String::push ](s: &mut String, c: char)
    ensures
        final(s)@ == old(s)@.push(c),
;

/// The result of `str::to_lowercase` on a string with the characters `s`.
pub uninterp spec fn lowercase_of(s: Seq<char>) -> Seq<char>;

/// Calls `str::to_lowercase`: the lowercase equivalent of `s` under the
/// Unicode rules, which is a function of the characters of `s` alone.
#[verifier::external_body]
pub(crate) fn lowercase(s: &str) -> (r: String)
    ensures
        r@ == lowercase_of(s@),
{
    s.to_lowercase()
}

/// The error of `regex::Regex::new`, as a value that is only passed on.
#[verifier::external_type_specification]
#[verifier::external_body]
pub struct ExRegexError(regex::Error);

/// Whether `regex::Regex::new` accepts `pattern`.
pub uninterp spec fn regex_compiles(pattern: Seq<char>) -> bool;

/// What `regex::Regex::captures` finds for the first capture group of an
/// accepted `pattern` in `text`: the text of group 1 in the leftmost match,
/// or `None` where nothing matches or the group took no part in the match.
pub uninterp spec fn regex_first_group(pattern: Seq<char>, text: Seq<char>) -> Option<Seq<char>>;

/// Compiles `pattern` with `regex::Regex::new` and searches `text` with
/// `Regex::captures`. The error is the one `Regex::new` gave. On success the
/// result is the text of capture group 1 of the leftmost match, which depends
/// on the pattern and the text alone.
#[verifier::external_body]
pub(crate) fn regex_capture(pattern: &str, text: &str) -> (r: Result<Option<String>, regex::Error>)
    ensures
        r is Ok <==> regex_compiles(pattern@),
        r matches Ok(group) ==> match group {
            Some(g) => regex_first_group(pattern@, text@) == Some(g@),
            None => regex_first_group(pattern@, text@) is None,
        },
{
    let re = regex::Regex::new(pattern)?;
    match re.captures(text) {
        Some(caps) => match caps.get(1) {
            Some(group) => Ok(Some(group.as_str().to_string())),
            None => Ok(None),
        },
        None => Ok(None),
    }
}

/// The bytes of the MD5 digest of `data`, as `md5::compute` gives them.
pub uninterp spec fn md5_of(data: Seq<u8>) -> Seq<u8>;

/// Calls `md5::compute` and hands out the bytes of the digest, which depend
/// on the input bytes alone.
#[verifier::external_body]
pub(crate) fn md5_digest(data: &[u8]) -> (r: Vec<u8>)
    ensures
        r@ == md5_of(data@),
{
    md5::compute(data).0.to_vec()
}

/// The characters that `rand::distributions::Alphanumeric` draws from.
pub open spec fn is_alphanumeric(c: char) -> bool {
    ('a' <= c <= 'z') || ('A' <= c <= 'Z') || ('0' <= c <= '9')
}

/// Draws `len` characters with `Alphanumeric::sample_string` from the
/// thread-local generator of `rand`. Which characters come is left open; each
/// is an ASCII letter or digit.
#[verifier::external_body]
pub(crate) fn random_alphanumeric(len: usize) -> (r: String)
    ensures
        r@.len() == len,
        forall|i: int| 0 <= i < r@.len() ==> is_alphanumeric(#[trigger] r@[i]),
{
    rand::distributions::DistString::sample_string(
        &rand::distributions::Alphanumeric,
        &mut rand::thread_rng(),
        len,
    )
}

/// Draws a `u32` with `rand::Rng::gen` from the thread-local generator.
/// Nothing is promised of the value.
#[verifier::external_body]
pub(crate) fn random_u32() -> u32 {
    rand::Rng::gen::<u32>(&mut rand::thread_rng())
}

/// Reads the clock with `chrono::Utc::now` and writes the instant with
/// `DateTime::to_rfc3339`. Nothing is promised of the text.
#[verifier::external_body]
pub(crate) fn clock_rfc3339() -> String {
    chrono::Utc::now().to_rfc3339()
}

/// The error of `serde_json::from_str`, as a value that is only passed on.
#[verifier::external_type_specification]
#[verifier::external_body]
pub struct ExJsonError(serde_json::Error);

/// Whether `serde_json::from_str` reads `text` as a JSON value.
pub uninterp spec fn json_parses(text: Seq<char>) -> bool;

/// The JSON text that `serde_json` writes for a string with the characters
/// `s`: the quoted and escaped string literal.
pub uninterp spec fn json_string_of(s: Seq<char>) -> Seq<char>;

/// The JSON text that `serde_json` writes for the object built from
/// `members`, each a name and the JSON text of its value, and from `groups`,
/// each a name and the members of an object of its own, entered in order.
pub uninterp spec fn json_object_of(
    members: Seq<(Seq<char>, Seq<char>)>,
    groups: Seq<(Seq<char>, Seq<(Seq<char>, Seq<char>)>)>,
) -> Seq<char>;

/// The names and value texts of `members`.
pub open spec fn member_pairs(members: Seq<JsonMember>) -> Seq<(Seq<char>, Seq<char>)> {
    Seq::new(members.len(), |i: int| (members[i].name@, members[i].value@))
}

/// The names of `groups`, each with the names and value texts of its members.
pub open spec fn group_pairs(groups: Seq<JsonGroup>) -> Seq<
    (Seq<char>, Seq<(Seq<char>, Seq<char>)>),
> {
    Seq::new(groups.len(), |i: int| (groups[i].name@, member_pairs(groups[i].members@)))
}

/// Whether each of `members` has a value that reads as JSON.
pub open spec fn all_parse(members: Seq<(Seq<char>, Seq<char>)>) -> bool {
    forall|i: int| 0 <= i < members.len() ==> json_parses(#[trigger] members[i].1)
}

/// Whether each member of each of `groups` has a value that reads as JSON.
pub open spec fn all_groups_parse(groups: Seq<(Seq<char>, Seq<(Seq<char>, Seq<char>)>)>) -> bool {
    forall|i: int| 0 <= i < groups.len() ==> all_parse(#[trigger] groups[i].1)
}

/// Whether every value among `members` and in `groups` reads as JSON.
pub open spec fn all_read(
    members: Seq<(Seq<char>, Seq<char>)>,
    groups: Seq<(Seq<char>, Seq<(Seq<char>, Seq<char>)>)>,
) -> bool {
    all_parse(members) && all_groups_parse(groups)
}

/// Writes `s` as a JSON string literal, through the `Display` of
/// `serde_json::Value::String`. The text depends on `s` alone, and is JSON
/// that `serde_json` reads back.
#[verifier::external_body]
pub(crate) fn json_string(s: &str) -> (r: String)
    ensures
        r@ == json_string_of(s@),
        json_parses(r@),
{
    serde_json::Value::String(s.to_string()).to_string()
}

/// Writes `n` as JSON, through the `Display` of a `serde_json::Value` made
/// from it: the number in decimal notation, which `serde_json` reads back.
#[verifier::external_body]
pub(crate) fn json_number(n: u64) -> (r: String)
    ensures
        r@ == decimal(n as nat),
        json_parses(r@),
{
    serde_json::Value::from(n).to_string()
}

/// Writes the JSON value null, through the `Display` of
/// `serde_json::Value::Null`: the word `null`, which `serde_json` reads back.
#[verifier::external_body]
pub(crate) fn json_null() -> (r: String)
    ensures
        r@ == "null"@,
        json_parses(r@),
{
    serde_json::Value::Null.to_string()
}

/// Builds a `serde_json::Map` and writes it through the `Display` of
/// `serde_json::Value`. Each of `members` is read with
/// `serde_json::from_str` and entered under its name with `Map::insert`;
/// each of `groups` becomes a map of its own, built in the same way and
/// entered under the name of the group. It fails exactly where a value does
/// not read as JSON, with the error of `from_str`. The text depends on the
/// names and value texts alone.
#[verifier::external_body]
pub(crate) fn json_object(members: &Vec<JsonMember>, groups: &Vec<JsonGroup>) -> (r: Result<
    String,
    serde_json::Error,
>)
    ensures
        r is Ok <==> all_read(member_pairs(members@), group_pairs(groups@)),
        r matches Ok(text) ==> text@ == json_object_of(
            member_pairs(members@),
            group_pairs(groups@),
        ),
{
    let mut map = serde_json::Map::new();
    for m in members.iter() {
        map.insert(m.name.clone(), serde_json::from_str(&m.value)?);
    }
    for g in groups.iter() {
        let mut inner = serde_json::Map::new();
        for m in g.members.iter() {
            inner.insert(m.name.clone(), serde_json::from_str(&m.value)?);
        }
        map.insert(g.name.clone(), serde_json::Value::Object(inner));
    }
    Ok(serde_json::Value::Object(map).to_string())
}

} // verus!
