use silk_road::command::{Command, Create, Execute, Package, Serve};
use silk_road::error::SkrdError;
use silk_road::layout::{get_crate_path, join};
use silk_road::registry::{
    config_json_needs_write, is_default_port, registry_name_from_path, IpAddress, Mirror,
    Registry, RegistryConfig, UrlConfig,
};
use silk_road::text::{decimal, hex4, split_slash};

fn urls(dl: &str, api: &str) -> UrlConfig {
    UrlConfig { dl: dl.to_string(), api: api.to_string() }
}

#[test]
fn crate_path_follows_the_sharding_rule() {
    assert_eq!(get_crate_path("a", "1.0.0"), "1/a/a-1.0.0.crate");
    assert_eq!(get_crate_path("ab", "1"), "2/ab/ab-1.crate");
    assert_eq!(get_crate_path("abc", "1"), "3/a/abc/abc-1.crate");
    assert_eq!(get_crate_path("serde", "1.0"), "se/rd/serde/serde-1.0.crate");
    assert_eq!(get_crate_path("abcd", "0.1.0"), "ab/cd/abcd/abcd-0.1.0.crate");
}

#[test]
fn crate_path_is_deterministic() {
    assert_eq!(get_crate_path("tokio", "0.1.21"), get_crate_path("tokio", "0.1.21"));
}

#[test]
fn join_puts_one_separator() {
    assert_eq!(join("/tmp/r", "index"), "/tmp/r/index");
    assert_eq!(join("/tmp/r/", "index"), "/tmp/r/index");
}

#[test]
fn numbers_are_formatted() {
    assert_eq!(decimal(0), "0");
    assert_eq!(decimal(8080), "8080");
    assert_eq!(decimal(65535), "65535");
    assert_eq!(hex4(30), "001e");
    assert_eq!(hex4(0xffff), "ffff");
}

#[test]
fn default_ports() {
    assert!(is_default_port(80, false));
    assert!(is_default_port(443, true));
    assert!(!is_default_port(443, false));
    assert!(!is_default_port(80, true));
    assert!(!is_default_port(8080, false));
}

#[test]
fn created_registry_has_defaults_and_no_mirror() {
    let r = Registry::create("/tmp/r", "r");
    assert_eq!(r.root(), "/tmp/r");
    assert_eq!(r.index_path(), "/tmp/r/index");
    assert_eq!(r.index_git_path(), "/tmp/r/index/.git");
    assert_eq!(r.crates_path(), "/tmp/r/crates");
    let c = r.config();
    assert_eq!(c.name(), "r");
    assert!(c.mirror.is_none());
    assert!(r.mirror_config().is_none());
    assert_eq!(c.domain(), "localhost");
    assert_eq!(c.ip(), IpAddress::V4(0, 0, 0, 0));
    assert_eq!(c.port(), 80);
    assert!(!c.ssl());
    assert!(c.receive_on());
    assert!(c.upload_on());
    assert_eq!(c.http.cert, "");
    assert_eq!(c.http.key, "");
}

#[test]
fn base_url_omits_default_port() {
    let r = Registry::create("/tmp/r", "r");
    assert_eq!(r.base_url(), "http://localhost/r");
    let mut c = RegistryConfig::create("goe2");
    c.http.domain = "goe2.net".to_string();
    c.http.ssl = true;
    c.http.port = 443;
    assert_eq!(Registry::open("/srv/goe2", c.clone()).base_url(), "https://goe2.net/goe2");
    c.http.port = 80;
    assert_eq!(Registry::open("/srv/goe2", c.clone()).base_url(), "https://goe2.net:80/goe2");
    c.http.ssl = false;
    c.http.port = 8080;
    assert_eq!(Registry::open("/srv/goe2", c).base_url(), "http://goe2.net:8080/goe2");
}

#[test]
fn url_config_is_derived_from_base_url() {
    let r = Registry::create("/tmp/r", "r");
    let u = r.url_config();
    assert_eq!(u.dl, "http://localhost/r/api/v1/crates");
    assert_eq!(u.api, "http://localhost/r");
}

#[test]
fn mirror_registry_records_its_upstream() {
    let m = Mirror::from_origin("https://example.test/idx", urls("https://dl.test", "https://api.test"));
    assert!(m.sync);
    assert_eq!(m.index_update_interval, 30);
    assert_eq!(m.source, "https://example.test/idx");
    let r = Registry::mirror("/tmp/m", "m", m);
    let mc = r.mirror_config().unwrap();
    assert_eq!(mc.origin_urls.dl, "https://dl.test");
    assert_eq!(mc.origin_urls.api, "https://api.test");
    assert_eq!(r.config().name(), "m");
}

#[test]
fn config_json_rewritten_only_when_needed() {
    let want = urls("http://localhost/r/api/v1/crates", "http://localhost/r");
    assert!(config_json_needs_write(None, &want));
    let other = urls("https://crates.io/api/v1/crates", "https://crates.io");
    assert!(config_json_needs_write(Some(&other), &want));
    assert!(!config_json_needs_write(Some(&want.clone()), &want));
}

#[test]
fn config_json_second_write_is_no_change() {
    let r = Registry::create("/tmp/r", "r");
    let want = r.url_config();
    let written = want.clone();
    assert!(!config_json_needs_write(Some(&written), &r.url_config()));
}

#[test]
fn name_from_path() {
    assert_eq!(registry_name_from_path("/tmp/r").unwrap(), "r");
    assert_eq!(registry_name_from_path("/tmp/r//").unwrap(), "r");
    assert_eq!(registry_name_from_path("reg").unwrap(), "reg");
    assert!(matches!(
        registry_name_from_path("/"),
        Err(SkrdError::StaticCustom("the registry path provided is invalid"))
    ));
    assert!(registry_name_from_path("").is_err());
    assert!(registry_name_from_path("/tmp/..").is_err());
}

#[test]
fn create_command_name() {
    let c = Create { name: None, path: "/tmp/r".to_string() };
    assert_eq!(c.registry_name().unwrap(), "r");
    let c = Create { name: Some("x".to_string()), path: "/".to_string() };
    assert_eq!(c.registry_name().unwrap(), "x");
    let c = Create { name: None, path: "/".to_string() };
    assert!(c.registry_name().is_err());
}

#[test]
fn reserved_commands_fail() {
    let p = Command::Package(Package {});
    assert!(matches!(
        p.reserved_error(),
        Some(SkrdError::StaticCustom("Subcommand pack is unimplemented!"))
    ));
    let e = Command::Execute(Execute { toml: "a.toml".to_string() });
    assert!(matches!(
        e.reserved_error(),
        Some(SkrdError::StaticCustom("Subcommand exec is unimplemented"))
    ));
    assert!(Command::Serve(Serve { registry: None }).reserved_error().is_none());
}

#[test]
fn error_messages() {
    assert_eq!(SkrdError::Io("gone".to_string()).message(), "IO error: gone");
    assert_eq!(SkrdError::Custom("x".to_string()).message(), "Custom error: x");
    assert_eq!(SkrdError::StaticCustom("y").message(), "Custom error: y");
    assert_eq!(SkrdError::Walk("z".to_string()).message(), "Walk dir error: z");
}

#[test]
fn paths_split_on_slashes() {
    assert_eq!(split_slash("/r/index"), vec!["", "r", "index"]);
    assert_eq!(split_slash(""), vec![""]);
    assert_eq!(split_slash("a//b/"), vec!["a", "", "b", ""]);
}

#[test]
fn empty_root_keeps_paths_relative() {
    assert_eq!(join("", "index"), "index");
    let r = Registry::open("", RegistryConfig::create("r"));
    assert_eq!(r.index_path(), "index");
    assert_eq!(r.index_git_path(), "index/.git");
    assert_eq!(r.crates_path(), "crates");
}
