//! The few JSON facts the registry reads from a manifest, taken from
//! serde_json.
use vstd::prelude::*;

verus! {

#[verifier::external_type_specification]
#[verifier::external_body]
pub struct ExJsonValue(serde_json::Value);

/// Whether `text` is one well-formed JSON document, as serde_json reads it.
pub uninterp spec fn is_json_text(text: Seq<char>) -> bool;

/// Relies on `serde_json::from_str::<Value>`: it succeeds exactly on
/// well-formed JSON, which depends on the text alone.
#[verifier::external_body]
pub(crate) fn parse_json(text: &str) -> (r: Option<serde_json::Value>)
    ensures
        r is Some == is_json_text(text@),
{
    serde_json::from_str::<serde_json::Value>(text).ok()
}

/// The text of the string member `key` of the JSON object `text`, as
/// serde_json reads it.
pub uninterp spec fn json_str_member(text: Seq<char>, key: Seq<char>) -> Option<Seq<char>>;

/// The integer member `key` of the JSON object `text`, when it fits in
/// `i64`, as serde_json reads it.
pub uninterp spec fn json_i64_member(text: Seq<char>, key: Seq<char>) -> Option<i64>;

/// Relies on `serde_json::from_str::<Value>`, `Value::get` and
/// `Value::as_str`: the string member of that name of a JSON object, which
/// depends on the text and the key alone; nothing when the text is not JSON.
#[verifier::external_body]
fn str_member(text: &str, key: &str) -> (r: Option<String>)
    ensures
        option_text(r) == json_str_member(text@, key@),
        !is_json_text(text@) ==> r is None,
{
    let v = serde_json::from_str::<serde_json::Value>(text).ok()?;
    v.get(key)?.as_str().map(|s| s.to_string())
}

/// Relies on `serde_json::from_str::<Value>`, `Value::get` and
/// `Value::as_i64`: the integer member of that name of a JSON object, which
/// depends on the text and the key alone; nothing when the text is not JSON.
#[verifier::external_body]
fn i64_member(text: &str, key: &str) -> (r: Option<i64>)
    ensures
        r == json_i64_member(text@, key@),
        !is_json_text(text@) ==> r is None,
{
    let v = serde_json::from_str::<serde_json::Value>(text).ok()?;
    v.get(key)?.as_i64()
}

pub open spec fn option_text(o: Option<String>) -> Option<Seq<char>> {
    match o {
        Some(s) => Some(s@),
        None => None,
    }
}

/// The fields of a manifest that the cache keeps beside its raw text.
#[derive(Clone, Debug, PartialEq, Eq)]
pub struct ManifestFields {
    pub digest: String,
    pub media_type: String,
    pub size: i64,
}

/// Fills the cached fields from the members found in a manifest: a missing
/// media type is empty, a missing size is zero, and a missing digest member
/// leaves the digest the manifest was resolved by.
pub fn fields_from_members(
    digest: Option<String>,
    media_type: Option<String>,
    size: Option<i64>,
    resolved_digest: &str,
) -> (r: ManifestFields)
    ensures
        r.digest@ == (match digest {
            Some(d) => d@,
            None => resolved_digest@,
        }),
        r.media_type@ == (match media_type {
            Some(m) => m@,
            None => Seq::<char>::empty(),
        }),
        r.size == (match size {
            Some(n) => n,
            None => 0,
        }),
{
    let digest = match digest {
        Some(d) => d,
        None => String::from_str(resolved_digest),
    };
    let media_type = match media_type {
        Some(m) => m,
        None => String::new(),
    };
    let size = match size {
        Some(n) => n,
        None => 0,
    };
    ManifestFields { digest, media_type, size }
}

/// The fields cached for the manifest `raw`: its `digest` member, else
/// the digest it was resolved by; its `mediaType` member, else empty; its
/// `size` member, else zero.
pub open spec fn fields_spec(raw: Seq<char>, resolved_digest: Seq<char>) -> (Seq<char>, Seq<char>, i64) {
    (
        match json_str_member(raw, "digest"@) {
            Some(d) => d,
            None => resolved_digest,
        },
        match json_str_member(raw, "mediaType"@) {
            Some(m) => m,
            None => Seq::empty(),
        },
        match json_i64_member(raw, "size"@) {
            Some(n) => n,
            None => 0,
        },
    )
}

/// The cached fields of a manifest given as text; text that is not JSON
/// has all of them at their defaults.
pub fn manifest_fields(raw: &str, resolved_digest: &str) -> (r: ManifestFields)
    ensures
        (r.digest@, r.media_type@, r.size) == fields_spec(raw@, resolved_digest@),
        !is_json_text(raw@) ==> r.digest@ == resolved_digest@ && r.media_type@.len() == 0
            && r.size == 0,
{
    let digest = str_member(raw, "digest");
    let media_type = str_member(raw, "mediaType");
    let size = i64_member(raw, "size");
    fields_from_members(digest, media_type, size, resolved_digest)
}

} // verus!
