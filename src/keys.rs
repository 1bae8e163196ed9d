//! Object-store key conventions of the registry storage layout.
use vstd::prelude::*;
use vstd::string::*;

verus! {

/// Key of the directory that holds one directory per tag of `repo`.
pub open spec fn tags_prefix_spec(repo: Seq<char>) -> Seq<char> {
    "docker/registry/v2/repositories/"@ + repo + "/_manifests/tags"@
}

/// Key of the link object that names the manifest digest of `repo:tag`.
pub open spec fn tag_link_key_spec(repo: Seq<char>, tag: Seq<char>) -> Seq<char> {
    tags_prefix_spec(repo) + "/"@ + tag + "/current/link"@
}

/// Key of the content object of a blob, sharded by the first two digest characters.
pub open spec fn blob_key_spec(algorithm: Seq<char>, hex: Seq<char>) -> Seq<char> {
    "docker/registry/v2/blobs/"@ + algorithm + "/"@ + hex.subrange(0, 2) + "/"@ + hex + "/data"@
}

/// The listing prefix under which the tags of `repo` are found.
pub fn tags_prefix(repo: &str) -> (r: String)
    ensures
        r@ == tags_prefix_spec(repo@),
{
    let mut k = String::from_str("docker/registry/v2/repositories/");
    k.append(repo);
    k.append("/_manifests/tags");
    k
}

/// The key of the link object of `repo:tag`.
pub fn tag_link_key(repo: &str, tag: &str) -> (r: String)
    ensures
        r@ == tag_link_key_spec(repo@, tag@),
{
    let mut k = tags_prefix(repo);
    k.append("/");
    k.append(tag);
    k.append("/current/link");
    k
}

/// The key of the content object of the blob `algorithm:hex`.
pub fn blob_key(algorithm: &str, hex: &str) -> (r: String)
    requires
        hex@.len() >= 2,
    ensures
        r@ == blob_key_spec(algorithm@, hex@),
{
    let mut k = String::from_str("docker/registry/v2/blobs/");
    k.append(algorithm);
    k.append("/");
    k.append(hex.substring_char(0, 2));
    k.append("/");
    k.append(hex);
    k.append("/data");
    k
}

} // verus!
