use s3_registry::digest::{parse_link, parse_reference, Digest};
use s3_registry::error::RegistryError;
use s3_registry::json::{fields_from_members, manifest_fields};
use s3_registry::keys::{blob_key, tag_link_key, tags_prefix};
use s3_registry::resolve::{blob_location, FetchError, ManifestAction, ManifestLookup, Stage};
use s3_registry::route::{parse_repo_ref, route, split_path, str_eq, Route};
use s3_registry::tag_scan::{tag_from_key, tags_from_cache, ListPage, TagScan};
use s3_registry::text::{ends_with, find_char, starts_with, trimmed};

const MANIFEST: &str = "{\"mediaType\":\"application/vnd.oci.image.manifest.v1+json\",\"size\":100,\"layers\":[]}";

fn digest(a: &str, h: &str) -> Digest {
    Digest { algorithm: a.to_string(), hex: h.to_string() }
}

#[test]
fn text_helpers() {
    assert_eq!(find_char("ab:c:d", ':'), Some(2));
    assert_eq!(find_char("abc", ':'), None);
    assert!(starts_with("repositories/x", "repositories/"));
    assert!(!starts_with("rep", "repositories/"));
    assert!(ends_with("a/current/link", "current/link"));
    assert!(!ends_with("a/current/lin", "current/link"));
    assert_eq!(trimmed("  sha256:ab \n"), "sha256:ab");
    assert_eq!(trimmed(" \t\r\n"), "");
}

#[test]
fn key_conventions() {
    assert_eq!(tags_prefix("myapp"), "docker/registry/v2/repositories/myapp/_manifests/tags");
    assert_eq!(
        tag_link_key("myapp", "v1"),
        "docker/registry/v2/repositories/myapp/_manifests/tags/v1/current/link"
    );
    assert_eq!(blob_key("sha256", "abc123"), "docker/registry/v2/blobs/sha256/ab/abc123/data");
}

#[test]
fn link_content_is_parsed() {
    assert_eq!(parse_link("sha256:abc123"), Ok(digest("sha256", "abc123")));
    assert_eq!(parse_link("  sha256:abc123\n"), Ok(digest("sha256", "abc123")));
    assert_eq!(parse_link("sha512:ff00"), Ok(digest("sha512", "ff00")));
}

#[test]
fn malformed_link_content_is_rejected() {
    assert_eq!(parse_link("notadigest"), Err(RegistryError::MalformedData));
    assert_eq!(parse_link("sha256:"), Err(RegistryError::MalformedData));
    assert_eq!(parse_link("sha256:a"), Err(RegistryError::MalformedData));
    assert_eq!(parse_link(""), Err(RegistryError::MalformedData));
}

#[test]
fn digest_prefix_is_optional() {
    assert_eq!(parse_reference("sha256:deadbeef"), digest("sha256", "deadbeef"));
    assert_eq!(parse_reference("deadbeef"), digest("sha256", "deadbeef"));
    let a = blob_location("sha256:deadbeef").unwrap();
    let b = blob_location("deadbeef").unwrap();
    assert_eq!(a.key, b.key);
}

#[test]
fn blob_location_key_and_expiry() {
    let q = blob_location("sha256:deadbeef").unwrap();
    assert!(q.key.contains("blobs/sha256/de/deadbeef/data"));
    assert_eq!(q.key, "docker/registry/v2/blobs/sha256/de/deadbeef/data");
    assert_eq!(q.expires_in_secs, 300);
}

#[test]
fn blob_location_of_short_digest_is_malformed() {
    assert_eq!(blob_location("sha256:d"), Err(RegistryError::MalformedData));
    assert_eq!(blob_location(""), Err(RegistryError::MalformedData));
}

#[test]
fn tag_names_from_listed_keys() {
    let p = tags_prefix("myapp");
    assert_eq!(tag_from_key(&p, &format!("{p}/v1/current/link")), Some("v1".to_string()));
    assert_eq!(tag_from_key(&p, &format!("{p}/v1/index/sha256/ab/link")), None);
    assert_eq!(tag_from_key(&p, &format!("{p}/v1/x/current/link")), Some("v1".to_string()));
    assert_eq!(tag_from_key(&p, &format!("{p}/current/link")), None);
    assert_eq!(tag_from_key(&p, &format!("{p}//current/link")), None);
    assert_eq!(tag_from_key(&p, &format!("{p}x/v1/current/link")), None);
    assert_eq!(tag_from_key(&p, "elsewhere/v1/current/link"), None);
}

fn page(keys: Vec<String>, truncated: Option<bool>, next: Option<&str>) -> ListPage {
    ListPage { keys, is_truncated: truncated, next_token: next.map(|t| t.to_string()) }
}

fn run_scan(repo: &str, pages: &[ListPage]) -> (Vec<String>, usize) {
    let mut scan = TagScan::new(repo);
    let mut calls = 0usize;
    while let Some(req) = scan.next_request() {
        let expected_token = if calls == 0 { None } else { pages[calls - 1].next_token.clone() };
        assert_eq!(req.continuation_token, expected_token);
        assert_eq!(req.prefix, tags_prefix(repo));
        scan.absorb(&pages[calls]);
        calls += 1;
    }
    (scan.tags, calls)
}

#[test]
fn tag_scan_over_three_pages() {
    let p = tags_prefix("big");
    let keys: Vec<String> = (0..250).map(|i| format!("{p}/tag{i}/current/link")).collect();
    let pages = vec![
        page(keys[0..100].to_vec(), Some(true), Some("t1")),
        page(keys[100..200].to_vec(), Some(true), Some("t2")),
        page(keys[200..250].to_vec(), Some(false), None),
    ];
    let (tags, calls) = run_scan("big", &pages);
    assert_eq!(calls, 3);
    assert_eq!(tags.len(), 250);
    let mut distinct = tags.clone();
    distinct.sort();
    distinct.dedup();
    assert_eq!(distinct.len(), 250);
    assert_eq!(tags[0], "tag0");
    assert_eq!(tags[249], "tag249");
}

#[test]
fn tag_scan_independent_of_page_boundaries() {
    let p = tags_prefix("r");
    let mut keys: Vec<String> = Vec::new();
    for i in 0..10 {
        keys.push(format!("{p}/t{i}/current/link"));
        keys.push(format!("{p}/t{i}/index/sha256/ab/link"));
    }
    let one = vec![page(keys.clone(), Some(false), None)];
    let three = vec![
        page(keys[0..3].to_vec(), Some(true), Some("a")),
        page(keys[3..11].to_vec(), Some(true), Some("b")),
        page(keys[11..20].to_vec(), None, None),
    ];
    let (a, ca) = run_scan("r", &one);
    let (b, cb) = run_scan("r", &three);
    assert_eq!(ca, 1);
    assert_eq!(cb, 3);
    assert_eq!(a, b);
    assert_eq!(a.len(), 10);
}

#[test]
fn tag_scan_of_empty_listing() {
    let (tags, calls) = run_scan("none", &[page(vec![], Some(false), None)]);
    assert!(tags.is_empty());
    assert_eq!(calls, 1);
}

#[test]
fn manifest_fields_with_defaults() {
    let f = manifest_fields(MANIFEST, "abc123");
    assert_eq!(f.digest, "abc123");
    assert_eq!(f.media_type, "application/vnd.oci.image.manifest.v1+json");
    assert_eq!(f.size, 100);
    let g = manifest_fields("{\"digest\":\"sha256:ff\"}", "abc123");
    assert_eq!(g.digest, "sha256:ff");
    assert_eq!(g.media_type, "");
    assert_eq!(g.size, 0);
    let h = manifest_fields("not json", "x");
    assert_eq!((h.digest.as_str(), h.media_type.as_str(), h.size), ("x", "", 0));
    let k = fields_from_members(None, Some("m".to_string()), Some(7), "d");
    assert_eq!((k.digest.as_str(), k.media_type.as_str(), k.size), ("d", "m", 7));
}

fn resolve_cold(link: &str, blob: &str) -> (ManifestAction, Vec<String>) {
    let mut fetched = Vec::new();
    let mut l = ManifestLookup::new("myapp", "v1");
    let mut act = l.cache_answered(None);
    while let ManifestAction::Fetch(key) = act.clone() {
        fetched.push(key.clone());
        let body = if fetched.len() == 1 { link } else { blob };
        act = l.object_fetched(Ok(body.to_string()));
    }
    assert_eq!(l.stage, Stage::Finished);
    (act, fetched)
}

#[test]
fn cold_then_warm_manifest_lookup() {
    let (first, fetched) = resolve_cold("sha256:abc123", MANIFEST);
    assert_eq!(
        fetched,
        vec![
            "docker/registry/v2/repositories/myapp/_manifests/tags/v1/current/link".to_string(),
            "docker/registry/v2/blobs/sha256/ab/abc123/data".to_string(),
        ]
    );
    let served = match first {
        ManifestAction::Serve(m) => m,
        other => panic!("unexpected {other:?}"),
    };
    assert_eq!(served.raw, MANIFEST);
    assert!(served.write_back);
    assert_eq!(served.fields.digest, "abc123");
    assert_eq!(served.fields.media_type, "application/vnd.oci.image.manifest.v1+json");
    assert_eq!(served.fields.size, 100);

    let mut again = ManifestLookup::new("myapp", "v1");
    match again.cache_answered(Some(served.raw.clone())) {
        ManifestAction::Serve(m) => {
            assert_eq!(m.raw, served.raw);
            assert!(!m.write_back);
        }
        other => panic!("unexpected {other:?}"),
    }
    assert_eq!(again.stage, Stage::Finished);
}

#[test]
fn unusable_cache_entry_falls_back_to_store() {
    for cached in [None, Some(String::new()), Some("{broken".to_string())] {
        let mut l = ManifestLookup::new("myapp", "v1");
        assert_eq!(
            l.cache_answered(cached),
            ManifestAction::Fetch(tag_link_key("myapp", "v1"))
        );
        assert_eq!(l.stage, Stage::AwaitLink);
    }
}

#[test]
fn malformed_link_fails_manifest_lookup() {
    let (act, fetched) = resolve_cold("notadigest", MANIFEST);
    assert_eq!(act, ManifestAction::Fail(RegistryError::MalformedData));
    assert_eq!(fetched.len(), 1);
}

#[test]
fn malformed_blob_fails_manifest_lookup() {
    let (act, fetched) = resolve_cold("sha256:abc123", "{not json");
    assert_eq!(act, ManifestAction::Fail(RegistryError::MalformedData));
    assert_eq!(fetched.len(), 2);
    let (act, _) = resolve_cold("sha256:abc123", "");
    assert_eq!(act, ManifestAction::Fail(RegistryError::MalformedData));
}

#[test]
fn fetch_failures_map_to_errors() {
    let mut l = ManifestLookup::new("a", "b");
    l.cache_answered(None);
    assert_eq!(l.object_fetched(Err(FetchError::Unavailable)), ManifestAction::Fail(RegistryError::NotFound));
    let mut l = ManifestLookup::new("a", "b");
    l.cache_answered(None);
    l.object_fetched(Ok("sha256:abc123".to_string()));
    assert_eq!(l.object_fetched(Err(FetchError::NotText)), ManifestAction::Fail(RegistryError::MalformedData));
    assert_eq!(l.stage, Stage::Finished);
}

#[test]
fn path_segments_and_repo_refs() {
    let segs = split_path("library/ubuntu/manifests/latest");
    assert_eq!(segs, vec!["library", "ubuntu", "manifests", "latest"]);
    assert_eq!(split_path(""), vec![""]);
    assert_eq!(split_path("a//b/"), vec!["a", "", "b", ""]);
    assert_eq!(
        parse_repo_ref(&segs, "manifests"),
        Some(("library/ubuntu".to_string(), "latest".to_string()))
    );
    assert_eq!(parse_repo_ref(&["manifests", "x"], "manifests"), None);
    assert_eq!(parse_repo_ref(&["a", "manifests"], "manifests"), None);
    assert_eq!(parse_repo_ref(&["a", "b"], "manifests"), None);
    assert!(str_eq("list", "list"));
    assert!(!str_eq("list", "lists"));
}

#[test]
fn request_paths_are_routed() {
    assert_eq!(
        route("myapp/manifests/v1"),
        Route::Manifest { name: "myapp".to_string(), reference: "v1".to_string() }
    );
    assert_eq!(
        route("org/app/blobs/sha256:deadbeef"),
        Route::Blob { name: "org/app".to_string(), digest: "sha256:deadbeef".to_string() }
    );
    assert_eq!(route("big/tags/list"), Route::TagList { name: "big".to_string() });
    assert_eq!(route("big/tags/other"), Route::Unsupported);
    assert_eq!(route("manifests/v1"), Route::Unsupported);
    assert_eq!(route(""), Route::Unsupported);
}

#[test]
fn empty_cached_tag_list_is_a_miss() {
    assert_eq!(tags_from_cache(None), None);
    assert_eq!(tags_from_cache(Some(vec![])), None);
    assert_eq!(tags_from_cache(Some(vec!["v1".to_string()])), Some(vec!["v1".to_string()]));
}

#[test]
fn empty_object_has_default_fields() {
    let f = manifest_fields("{}", "");
    assert_eq!((f.digest.as_str(), f.media_type.as_str(), f.size), ("", "", 0));
    let g = manifest_fields("{\"mediaType\":7,\"size\":\"big\"}", "d");
    assert_eq!((g.digest.as_str(), g.media_type.as_str(), g.size), ("d", "", 0));
    let h = manifest_fields("[1,2]", "d");
    assert_eq!((h.digest.as_str(), h.media_type.as_str(), h.size), ("d", "", 0));
}

#[test]
fn cached_manifest_carries_its_fields() {
    let mut l = ManifestLookup::new("myapp", "v1");
    match l.cache_answered(Some(MANIFEST.to_string())) {
        ManifestAction::Serve(m) => {
            assert_eq!(m.fields.digest, "");
            assert_eq!(m.fields.media_type, "application/vnd.oci.image.manifest.v1+json");
            assert_eq!(m.fields.size, 100);
        }
        other => panic!("unexpected {other:?}"),
    }
}
