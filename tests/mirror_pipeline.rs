use silk_road::error::SkrdError;
use silk_road::mirror::{
    accept_download, check_digest, crate_destination, download_url, is_index_record_file,
    missing_records, mirror_for_download, tally_outcomes, CrateMeta, Outcome, Tally,
};
use silk_road::registry::{Mirror, Registry, UrlConfig};

const HELLO_SHA: &str = "2cf24dba5fb0a30e26e83b2ac5b9e29e1b161e5c1fa7425e73043362938b9824";
const FOO_SHA: &str = "680c7e9b7173cbff43a04e32d79cd9953cb65eac1aa0efbe6020ffe3427d1c42";

fn meta(name: &str, version: &str, cksum: &str) -> CrateMeta {
    CrateMeta::from_fields(name, version, cksum, false).unwrap()
}

#[test]
fn record_fields_are_checked() {
    let m = meta("hello", "1.0.0", HELLO_SHA);
    assert_eq!(m.checksum[0], 0x2c);
    assert_eq!(m.checksum[31], 0x24);
    assert_eq!(m.label(), "hello-1.0.0");
    let upper = CrateMeta::from_fields("hello", "1", &HELLO_SHA.to_uppercase(), true).unwrap();
    assert_eq!(upper.checksum, m.checksum);
    assert!(upper.yanked);
    assert!(matches!(CrateMeta::from_fields("hello", "1", "abc", false), Err(SkrdError::Json(_))));
    assert!(matches!(CrateMeta::from_fields("", "1", HELLO_SHA, false), Err(SkrdError::Json(_))));
    let bad = format!("{}g", &HELLO_SHA[..63]);
    assert!(CrateMeta::from_fields("hello", "1", &bad, false).is_err());
}

#[test]
fn kept_only_when_checksum_matches() {
    let m = meta("hello", "1.0.0", HELLO_SHA);
    assert!(accept_download(&m, 200, b"hello").is_ok());
    match accept_download(&m, 200, b"hellO") {
        Err(SkrdError::Custom(msg)) => {
            assert!(msg.starts_with(&format!("Crate hello-1.0.0 checksum error: expected={}, actual=", HELLO_SHA)));
            assert_eq!(msg.len(), "Crate hello-1.0.0 checksum error: expected=, actual=".len() + 128);
        }
        _ => panic!("a changed body must be refused"),
    }
}

#[test]
fn unsuccessful_status_is_refused() {
    let m = meta("hello", "1.0.0", HELLO_SHA);
    match accept_download(&m, 404, b"hello") {
        Err(SkrdError::Custom(msg)) => assert_eq!(msg, "Http Response status: 404"),
        _ => panic!("404 must be refused"),
    }
    assert!(accept_download(&m, 302, b"hello").is_err());
    assert!(accept_download(&m, 204, b"hello").is_ok());
}

#[test]
fn digest_comparison() {
    let m = meta("hello", "1.0.0", HELLO_SHA);
    assert!(check_digest(&m, &m.checksum).is_ok());
    assert!(check_digest(&m, &[0u8; 32]).is_err());
    assert!(check_digest(&m, &m.checksum[..31]).is_err());
}

#[test]
fn mirror_scenario_places_and_verifies_foo() {
    let origin = UrlConfig {
        dl: "https://example.test/api/v1/crates".to_string(),
        api: "https://example.test".to_string(),
    };
    let r = Registry::mirror("/tmp/m", "m", Mirror::from_origin("https://example.test/idx", origin));
    let mirror = mirror_for_download(&r).unwrap();
    let foo = meta("foo", "0.1.0", FOO_SHA);
    assert_eq!(crate_destination(r.crates_path(), &foo), "/tmp/m/crates/3/f/foo/foo-0.1.0.crate");
    assert_eq!(
        download_url(&mirror.origin_urls.dl, &foo),
        "https://example.test/api/v1/crates/foo/0.1.0/download"
    );
    assert!(accept_download(&foo, 200, b"foo crate body").is_ok());
    assert!(accept_download(&foo, 200, b"other body").is_err());
}

#[test]
fn non_mirror_is_refused() {
    let r = Registry::create("/tmp/r", "r");
    match mirror_for_download(&r) {
        Err(SkrdError::Custom(m)) => assert_eq!(m, "Registry 'r' does not seem to be a mirror."),
        _ => panic!("a private registry is not a mirror"),
    }
}

#[test]
fn index_files_exclude_git_and_config() {
    assert!(is_index_record_file("se/rd/serde"));
    assert!(is_index_record_file("3/f/foo"));
    assert!(is_index_record_file(".github/workflows"));
    assert!(!is_index_record_file(".git"));
    assert!(!is_index_record_file(".git/HEAD"));
    assert!(!is_index_record_file("config.json"));
    assert!(!is_index_record_file("co/nf/config.json"));
    assert!(is_index_record_file("co/nf/config.jsonx"));
}

#[test]
fn outcomes_are_counted() {
    let t = tally_outcomes(&vec![Outcome::Present, Outcome::Downloaded, Outcome::Failed, Outcome::Downloaded]);
    assert_eq!(t, Tally { checked: 4, downloaded: 2, failed: 1 });
    let u = tally_outcomes(&vec![Outcome::Present]);
    assert_eq!(t.merge(&u), Tally { checked: 5, downloaded: 2, failed: 1 });
    assert_eq!(tally_outcomes(&vec![]), Tally::new());
    let mut v = Tally::new();
    v.record(Outcome::Failed);
    assert_eq!(v, Tally { checked: 1, downloaded: 0, failed: 1 });
}

#[test]
fn missing_archives_are_selected() {
    assert_eq!(missing_records(&vec![true, false, true, false]), vec![1, 3]);
    assert_eq!(missing_records(&vec![]), Vec::<usize>::new());
}

#[test]
fn second_update_downloads_nothing() {
    let first = vec![false, true, false];
    let missing = missing_records(&first);
    assert_eq!(missing, vec![0, 2]);
    let mut after = first.clone();
    for k in missing {
        after[k] = true;
    }
    assert!(missing_records(&after).is_empty());
}
