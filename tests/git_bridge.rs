use silk_road::error::SkrdError;
use silk_road::git_http::{
    cache_forever_control, cache_forever_expires, download_location,
    info_refs_mode, is_loose_object_path, no_cache_headers, pack_file_kind,
    pack_request_allowed, unmatched_status, CachePolicy, GitFile, RefsMode, Service,
};
use silk_road::query::get_service_from_query_string;
use silk_road::registry::AccessControl;

fn access(upload: bool, receive: bool) -> AccessControl {
    AccessControl { receive, upload }
}

#[test]
fn service_from_query_string() {
    assert_eq!(get_service_from_query_string("service=git-upload-pack"), Some("upload-pack"));
    assert_eq!(get_service_from_query_string("service=git-upload-pack&x=1"), Some("upload-pack"));
    assert_eq!(
        get_service_from_query_string("a=1&service=git-receive-pack"),
        Some("receive-pack")
    );
    assert_eq!(get_service_from_query_string("service=git-"), Some(""));
    assert_eq!(get_service_from_query_string(""), None);
    assert_eq!(get_service_from_query_string("service=upload-pack"), None);
    assert_eq!(get_service_from_query_string("foo=bar"), None);
}

#[test]
fn refs_mode_follows_query_and_access() {
    let q = "service=git-upload-pack";
    assert_eq!(info_refs_mode(q, &access(true, true)), RefsMode::Smart(Service::UploadPack));
    assert_eq!(info_refs_mode(q, &access(false, true)), RefsMode::Dumb);
    let q = "service=git-receive-pack";
    assert_eq!(info_refs_mode(q, &access(true, true)), RefsMode::Smart(Service::ReceivePack));
    assert_eq!(info_refs_mode(q, &access(true, false)), RefsMode::Dumb);
    assert_eq!(info_refs_mode("service=git-other", &access(true, true)), RefsMode::Dumb);
    assert_eq!(info_refs_mode("", &access(true, true)), RefsMode::Dumb);
}

#[test]
fn service_names() {
    assert_eq!(Service::from_name("upload-pack"), Some(Service::UploadPack));
    assert_eq!(Service::from_name("receive-pack"), Some(Service::ReceivePack));
    assert_eq!(Service::from_name("upload"), None);
    assert_eq!(Service::UploadPack.name(), "upload-pack");
}

#[test]
fn advertisement_preface_is_a_pkt_line_and_flush() {
    assert_eq!(
        Service::UploadPack.advertisement_preface(),
        "001e# service=git-upload-pack\n0000"
    );
    assert_eq!(
        Service::ReceivePack.advertisement_preface(),
        "001f# service=git-receive-pack\n0000"
    );
    assert_eq!(
        Service::UploadPack.advertisement_body("abc"),
        "001e# service=git-upload-pack\n0000abc"
    );
    assert_eq!(
        Service::UploadPack.advertisement_content_type(),
        "application/x-git-upload-pack-advertisement"
    );
}

#[test]
fn pack_post_gate() {
    let ct = "application/x-git-upload-pack-request";
    assert_eq!(Service::UploadPack.request_content_type(), ct);
    assert_eq!(
        Service::UploadPack.result_content_type(),
        "application/x-git-upload-pack-result"
    );
    assert!(!pack_request_allowed(Service::UploadPack, "text/plain", &access(true, true)));
    assert!(!pack_request_allowed(Service::UploadPack, ct, &access(false, true)));
    assert!(pack_request_allowed(Service::UploadPack, ct, &access(true, false)));
    let rct = "application/x-git-receive-pack-request";
    assert!(pack_request_allowed(Service::ReceivePack, rct, &access(false, true)));
    assert!(!pack_request_allowed(Service::ReceivePack, rct, &access(true, false)));
    assert!(!pack_request_allowed(Service::ReceivePack, ct, &access(true, true)));
}

#[test]
fn download_redirect_location() {
    assert_eq!(
        download_location("r", "serde", "1.0.0"),
        "/r/crates/se/rd/serde/serde-1.0.0.crate"
    );
    assert_eq!(download_location("r", "a", "1"), "/r/crates/1/a/a-1.crate");
}

#[test]
fn pack_index_is_cached_for_a_year() {
    let name = "pack-63c9d4a58e9d4e29c97b1afdd26c1d39be6c7d10.idx";
    let kind = pack_file_kind(name).unwrap();
    assert_eq!(kind, GitFile::PackIndex);
    assert_eq!(kind.content_type(), "application/x-git-packed-objects-toc");
    assert_eq!(kind.cache_policy(), CachePolicy::Forever);
    assert_eq!(cache_forever_control(), "public, max-age=31536000");
    assert_eq!(cache_forever_expires(1_000), Some(1_000 + 31_536_000));
    assert_eq!(cache_forever_expires(u64::MAX), None);
}

#[test]
fn pack_file_kinds() {
    let kind = pack_file_kind("pack-1.pack").unwrap();
    assert_eq!(kind, GitFile::Pack);
    assert_eq!(kind.content_type(), "application/x-git-packed-objects");
    match pack_file_kind("pack-1.txt") {
        Err(SkrdError::Custom(m)) => assert_eq!(m, "error file extension: pack-1.txt"),
        _ => panic!("a .txt file is not a pack file"),
    }
}

#[test]
fn git_file_types_and_caching() {
    assert_eq!(GitFile::Head.content_type(), "text/plain");
    assert_eq!(GitFile::Head.cache_policy(), CachePolicy::NoCache);
    assert_eq!(GitFile::InfoPacks.content_type(), "text/plain; charset=utf-8");
    assert_eq!(GitFile::InfoPacks.cache_policy(), CachePolicy::Forever);
    assert_eq!(GitFile::LooseObject.content_type(), "application/x-git-loose-object");
    assert_eq!(GitFile::LooseObject.cache_policy(), CachePolicy::Forever);
    assert_eq!(GitFile::Alternates.cache_policy(), CachePolicy::NoCache);
}

#[test]
fn no_cache_header_values() {
    let h = no_cache_headers();
    assert_eq!(
        h,
        vec![
            ("Expires", "Fri, 01 Jan 1980 00:00:00 GMT"),
            ("Pragma", "no-cache"),
            ("Cache-Control", "no-cache, max-age=0, must-revalidate"),
        ]
    );
}

#[test]
fn loose_object_paths() {
    assert!(is_loose_object_path("2f", "d95367332005518f56b336634d85c099e2678a"));
    assert!(!is_loose_object_path("2F", "d95367332005518f56b336634d85c099e2678a"));
    assert!(!is_loose_object_path("2f", "d95367332005518f56b336634d85c099e2678"));
    assert!(!is_loose_object_path("2g", "d95367332005518f56b336634d85c099e2678a"));
}

#[test]
fn unmatched_requests() {
    assert_eq!(unmatched_status(true), 404);
    assert_eq!(unmatched_status(false), 405);
}
