//! Read-through resolution: the decisions of a manifest lookup and of a
//! blob location, with the object store and the cache left to the caller.
use vstd::prelude::*;
use vstd::string::*;

use crate::digest::{link_is_valid, parse_link, parse_reference, reference_parts, Digest};
use crate::error::RegistryError;
use crate::json::{fields_spec, is_json_text, manifest_fields, option_text, parse_json, ManifestFields};
use crate::keys::{blob_key, blob_key_spec, tag_link_key, tag_link_key_spec};
use crate::text::{head_before, tail_after, trim};

verus! {

/// How long a delegated blob URL stays valid, in seconds.
pub const BLOB_URL_EXPIRY_SECS: u64 = 300;

/// Why fetching an object gave no text.
#[derive(Clone, Copy, Debug, PartialEq, Eq, Structural)]
pub enum FetchError {
    /// The store could not deliver the object.
    Unavailable,
    /// The object's bytes are not UTF-8 text.
    NotText,
}

pub open spec fn fetch_error_kind(e: FetchError) -> RegistryError {
    match e {
        FetchError::Unavailable => RegistryError::NotFound,
        FetchError::NotText => RegistryError::MalformedData,
    }
}

/// Whether text can be served as a manifest: non-empty, well-formed JSON.
pub open spec fn is_manifest_text(t: Seq<char>) -> bool {
    t.len() > 0 && is_json_text(t)
}

/// The manifest text that a cache answer serves without touching the
/// object store, if any.
pub open spec fn cache_serves(cached: Option<Seq<char>>) -> Option<Seq<char>> {
    match cached {
        Some(t) => if is_manifest_text(t) {
            Some(t)
        } else {
            None
        },
        None => None,
    }
}

/// A manifest to hand to the client, with the fields to cache it under
/// when it came from the object store.
#[derive(Clone, Debug, PartialEq, Eq)]
pub struct ServedManifest {
    pub raw: String,
    pub fields: ManifestFields,
    pub write_back: bool,
}

/// What the driver of a lookup does next.
#[derive(Clone, Debug, PartialEq, Eq)]
pub enum ManifestAction {
    /// Fetch the object under this key and report its text.
    Fetch(String),
    /// Answer with this manifest (and write it back when it says so).
    Serve(ServedManifest),
    /// Answer with this failure.
    Fail(RegistryError),
}

/// Where a lookup stands.
#[derive(Clone, Debug, PartialEq, Eq)]
pub enum Stage {
    AwaitCache,
    AwaitLink,
    AwaitBlob(Digest),
    Finished,
}

/// One manifest lookup of `repo:tag`: cache first, then the tag's link
/// object, then the manifest blob it names.
#[derive(Clone, Debug)]
pub struct ManifestLookup {
    pub repo: String,
    pub tag: String,
    pub stage: Stage,
}

impl ManifestLookup {
    /// A lookup that waits for the cache's answer.
    pub fn new(repo: &str, tag: &str) -> (r: ManifestLookup)
        ensures
            r.repo@ == repo@,
            r.tag@ == tag@,
            r.stage == Stage::AwaitCache,
    {
        ManifestLookup { repo: String::from_str(repo), tag: String::from_str(tag), stage: Stage::AwaitCache }
    }

    /// Takes the cache's answer. A cached manifest is served as it is,
    /// with nothing written back; otherwise the tag's link object is fetched.
    pub fn cache_answered(&mut self, cached: Option<String>) -> (r: ManifestAction)
        requires
            old(self).stage == Stage::AwaitCache,
        ensures
            final(self).repo == old(self).repo,
            final(self).tag == old(self).tag,
            r matches ManifestAction::Serve(m) ==> is_manifest_text(m.raw@),
            match cache_serves(option_text(cached)) {
                Some(t) => final(self).stage == Stage::Finished && (r matches ManifestAction::Serve(
                    m,
                ) && m.raw@ == t && !m.write_back && (
                    m.fields.digest@,
                    m.fields.media_type@,
                    m.fields.size,
                ) == fields_spec(t, ""@)),
                None => final(self).stage == Stage::AwaitLink && (r matches ManifestAction::Fetch(k)
                    && k@ == tag_link_key_spec(old(self).repo@, old(self).tag@)),
            },
    {
        if let Some(text) = cached {
            if text.unicode_len() > 0 {
                if parse_json(text.as_str()).is_some() {
                    let fields = manifest_fields(text.as_str(), "");
                    self.stage = Stage::Finished;
                    return ManifestAction::Serve(ServedManifest { raw: text, fields, write_back: false });
                }
            }
        }
        self.stage = Stage::AwaitLink;
        ManifestAction::Fetch(tag_link_key(self.repo.as_str(), self.tag.as_str()))
    }

    /// Takes the text of the object that was fetched last: the link object
    /// leads to the manifest blob, and the blob is served and written back.
    pub fn object_fetched(&mut self, body: Result<String, FetchError>) -> (r: ManifestAction)
        requires
            old(self).stage is AwaitLink || old(self).stage is AwaitBlob,
        ensures
            final(self).repo == old(self).repo,
            final(self).tag == old(self).tag,
            r is Fail ==> final(self).stage == Stage::Finished,
            r matches ManifestAction::Serve(m) ==> is_manifest_text(m.raw@) && m.write_back,
            body matches Err(e) ==> r == ManifestAction::Fail(fetch_error_kind(e)),
            old(self).stage is AwaitLink ==> (body matches Ok(c) ==> (if link_is_valid(c@) {
                final(self).stage matches Stage::AwaitBlob(d) && d.algorithm@ == head_before(
                    trim(c@),
                    ':',
                ) && d.hex@ == tail_after(trim(c@), ':') && (r matches ManifestAction::Fetch(k)
                    && k@ == blob_key_spec(d.algorithm@, d.hex@))
            } else {
                r == ManifestAction::Fail(RegistryError::MalformedData)
            })),
            old(self).stage matches Stage::AwaitBlob(d) ==> (body matches Ok(t) ==> (if is_manifest_text(
                t@,
            ) {
                final(self).stage == Stage::Finished && (r matches ManifestAction::Serve(m)
                    && m.raw@ == t@ && m.write_back && (
                    m.fields.digest@,
                    m.fields.media_type@,
                    m.fields.size,
                ) == fields_spec(t@, d.hex@))
            } else {
                r == ManifestAction::Fail(RegistryError::MalformedData)
            })),
    {
        let text = match body {
            Ok(t) => t,
            Err(e) => {
                self.stage = Stage::Finished;
                return ManifestAction::Fail(
                    match e {
                        FetchError::Unavailable => RegistryError::NotFound,
                        FetchError::NotText => RegistryError::MalformedData,
                    },
                );
            },
        };
        match &self.stage {
            Stage::AwaitLink => match parse_link(text.as_str()) {
                Ok(d) => {
                    let k = blob_key(d.algorithm.as_str(), d.hex.as_str());
                    self.stage = Stage::AwaitBlob(d);
                    ManifestAction::Fetch(k)
                },
                Err(e) => {
                    self.stage = Stage::Finished;
                    ManifestAction::Fail(e)
                },
            },
            Stage::AwaitBlob(d) => {
                let parsed = if text.unicode_len() > 0 {
                    parse_json(text.as_str())
                } else {
                    None
                };
                match parsed {
                    Some(_) => {
                        let fields = manifest_fields(text.as_str(), d.hex.as_str());
                        self.stage = Stage::Finished;
                        ManifestAction::Serve(ServedManifest { raw: text, fields, write_back: true })
                    },
                    None => {
                        self.stage = Stage::Finished;
                        ManifestAction::Fail(RegistryError::MalformedData)
                    },
                }
            },
            _ => {
                self.stage = Stage::Finished;
                ManifestAction::Fail(RegistryError::NotFound)
            },
        }
    }
}

/// A request for a delegated URL to one object.
#[derive(Clone, Debug, PartialEq, Eq)]
pub struct PresignRequest {
    pub key: String,
    pub expires_in_secs: u64,
}

/// The delegated-URL request that locates the blob a reference designates
/// (`<algorithm>:<hex>` or a bare sha256 hex value). A value too short to
/// shard on is malformed.
pub fn blob_location(reference: &str) -> (r: Result<PresignRequest, RegistryError>)
    ensures
        r is Ok <==> reference_parts(reference@).1.len() >= 2,
        r matches Ok(q) ==> q.key@ == blob_key_spec(
            reference_parts(reference@).0,
            reference_parts(reference@).1,
        ) && q.expires_in_secs == 300,
        r matches Err(e) ==> e == RegistryError::MalformedData,
{
    let d = parse_reference(reference);
    if d.hex.unicode_len() < 2 {
        Err(RegistryError::MalformedData)
    } else {
        Ok(PresignRequest { key: blob_key(d.algorithm.as_str(), d.hex.as_str()), expires_in_secs: BLOB_URL_EXPIRY_SECS })
    }
}

/// A blob reference with the `sha256:` prefix and its bare hex value are
/// both located, or both refused, and are located under the same object key.
pub proof fn lemma_blob_location_prefix_optional(hex: Seq<char>)
    requires
        !hex.contains(':'),
    ensures
        reference_parts("sha256:"@ + hex).1.len() >= 2 <==> reference_parts(hex).1.len() >= 2,
        blob_key_spec(reference_parts("sha256:"@ + hex).0, reference_parts("sha256:"@ + hex).1)
            == blob_key_spec(reference_parts(hex).0, reference_parts(hex).1),
{
    crate::digest::lemma_reference_prefix_optional(hex);
}

/// Every manifest a lookup serves is valid manifest text; so what the
/// object store served and was written back is served from the cache on the
/// next lookup of the same tag, unchanged and without a fetch.
pub proof fn lemma_write_back_then_hit(served: Seq<char>)
    requires
        is_manifest_text(served),
    ensures
        cache_serves(Some(served)) == Some(served),
{
}

/// Any manifest text that the cache holds comes back from a lookup exactly
/// as it was saved.
pub proof fn lemma_cache_round_trip(saved: Seq<char>, cached: Option<Seq<char>>)
    requires
        cached == Some(saved),
        is_json_text(saved),
        saved.len() > 0,
    ensures
        cache_serves(cached) == Some(saved),
{
}

} // verus!
