//! Content digests: the `<algorithm>:<hex>` form found in link objects and
//! in blob references.
use vstd::prelude::*;
use vstd::string::*;

use crate::error::RegistryError;
use crate::text::{find_char, head_before, is_first, lemma_first_index, tail_after, trim, trimmed};

verus! {

/// A digest split into its algorithm and its hexadecimal value.
#[derive(Clone, Debug, PartialEq, Eq)]
pub struct Digest {
    pub algorithm: String,
    pub hex: String,
}

/// Whether link content names a digest: after trimming it holds a colon,
/// followed by at least the two characters that a content key shards on.
pub open spec fn link_is_valid(content: Seq<char>) -> bool {
    trim(content).contains(':') && tail_after(trim(content), ':').len() >= 2
}

/// The algorithm and the digest value that a blob reference designates; a
/// reference without an algorithm prefix is a sha256 digest.
pub open spec fn reference_parts(reference: Seq<char>) -> (Seq<char>, Seq<char>) {
    if reference.contains(':') {
        (head_before(reference, ':'), tail_after(reference, ':'))
    } else {
        ("sha256"@, reference)
    }
}

/// Splits `s` at its first colon.
fn split_first_colon(s: &str, i: usize) -> (r: (String, String))
    requires
        is_first(s@, ':', i as int),
    ensures
        r.0@ == head_before(s@, ':'),
        r.1@ == tail_after(s@, ':'),
{
    proof {
        lemma_first_index(s@, ':', i as int);
    }
    let n = s.unicode_len();
    let a = String::from_str(s.substring_char(0, i));
    let b = String::from_str(s.substring_char(i + 1, n));
    (a, b)
}

/// Reads the content of a link object (`<algorithm>:<hex>`, surrounding
/// whitespace ignored).
pub fn parse_link(content: &str) -> (r: Result<Digest, RegistryError>)
    ensures
        r is Ok <==> link_is_valid(content@),
        r matches Ok(d) ==> d.algorithm@ == head_before(trim(content@), ':') && d.hex@ == tail_after(
            trim(content@),
            ':',
        ),
        r matches Err(e) ==> e == RegistryError::MalformedData,
{
    let t = trimmed(content);
    match find_char(t, ':') {
        Some(i) => {
            let (algorithm, hex) = split_first_colon(t, i);
            if hex.unicode_len() < 2 {
                Err(RegistryError::MalformedData)
            } else {
                Ok(Digest { algorithm, hex })
            }
        },
        None => Err(RegistryError::MalformedData),
    }
}

/// Normalises a blob reference: an optional `<algorithm>:` prefix is split
/// off, and sha256 is assumed without one.
pub fn parse_reference(reference: &str) -> (r: Digest)
    ensures
        (r.algorithm@, r.hex@) == reference_parts(reference@),
{
    match find_char(reference, ':') {
        Some(i) => {
            let (algorithm, hex) = split_first_colon(reference, i);
            Digest { algorithm, hex }
        },
        None => Digest { algorithm: String::from_str("sha256"), hex: String::from_str(reference) },
    }
}

/// Link content that holds no colon never names a digest.
pub proof fn lemma_link_without_colon_is_malformed(content: Seq<char>)
    requires
        !trim(content).contains(':'),
    ensures
        !link_is_valid(content),
{
}

/// A reference with the `sha256:` prefix and the bare hex value designate
/// the same blob.
pub proof fn lemma_reference_prefix_optional(hex: Seq<char>)
    requires
        !hex.contains(':'),
    ensures
        reference_parts("sha256:"@ + hex) == reference_parts(hex),
{
    reveal_strlit("sha256:");
    reveal_strlit("sha256");
    let s = "sha256:"@ + hex;
    assert(s[6] == ':');
    assert forall|j: int| 0 <= j < 6 implies s[j] != ':' by {}
    assert(is_first(s, ':', 6));
    lemma_first_index(s, ':', 6);
    assert(s.subrange(0, 6) =~= "sha256"@);
    assert(s.subrange(7, s.len() as int) =~= hex);
}

} // verus!
