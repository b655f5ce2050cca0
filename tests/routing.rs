use silk_road::git_http::GitFile;
use silk_road::router::{route, HttpMethod, Route};

fn get(path: &str) -> Route {
    route("r", HttpMethod::Get, path)
}

#[test]
fn download_route_names_crate_and_version() {
    match get("/r/api/v1/crates/serde/1.0.0/download") {
        Route::Download { name, version } => {
            assert_eq!(name, "serde");
            assert_eq!(version, "1.0.0");
        }
        other => panic!("unexpected route {:?}", other),
    }
    assert!(matches!(route("r", HttpMethod::Post, "/r/api/v1/crates/serde/1.0.0/download"), Route::MethodNotAllowed));
    assert!(matches!(get("/r/api/v1/crates//1.0.0/download"), Route::NotFound));
}

#[test]
fn api_stubs() {
    assert!(matches!(get("/r/api/v1/crates"), Route::Search));
    assert!(matches!(route("r", HttpMethod::Put, "/r/api/v1/crates/new"), Route::Publish));
    assert!(matches!(get("/r/api/v1/crates/new"), Route::MethodNotAllowed));
    assert!(matches!(route("r", HttpMethod::Delete, "/r/api/v1/crates/serde/owners"), Route::Owners));
    assert!(matches!(route("r", HttpMethod::Put, "/r/api/v1/crates/serde/1.0.0/yank"), Route::Yank));
    assert!(matches!(route("r", HttpMethod::Put, "/r/api/v1/crates/serde/1.0.0/unyank"), Route::Unyank));
    assert!(matches!(get("/r/api/v2/crates"), Route::NotFound));
}

#[test]
fn git_protocol_routes() {
    assert!(matches!(route("r", HttpMethod::Post, "/r/index/git-upload-pack"), Route::UploadPack));
    assert!(matches!(route("r", HttpMethod::Post, "/r/index/git-receive-pack"), Route::ReceivePack));
    assert!(matches!(get("/r/index/git-upload-pack"), Route::MethodNotAllowed));
    assert!(matches!(get("/r/index/info/refs"), Route::InfoRefs));
    match get("/r/index/HEAD") {
        Route::GitFile(GitFile::Head, p) => assert_eq!(p, "HEAD"),
        other => panic!("unexpected route {:?}", other),
    }
}

#[test]
fn object_routes() {
    match get("/r/index/objects/info/packs") {
        Route::GitFile(GitFile::InfoPacks, p) => assert_eq!(p, "objects/info/packs"),
        other => panic!("unexpected route {:?}", other),
    }
    match get("/r/index/objects/info/http-alternates") {
        Route::GitFile(GitFile::HttpAlternates, p) => assert_eq!(p, "objects/info/http-alternates"),
        other => panic!("unexpected route {:?}", other),
    }
    match get("/r/index/objects/info/other") {
        Route::GitFile(GitFile::InfoFile, p) => assert_eq!(p, "objects/info/other"),
        other => panic!("unexpected route {:?}", other),
    }
    match get("/r/index/objects/pack/pack-63c9d4a58e9d4e29c97b1afdd26c1d39be6c7d10.idx") {
        Route::PackFile(f) => assert_eq!(f, "pack-63c9d4a58e9d4e29c97b1afdd26c1d39be6c7d10.idx"),
        other => panic!("unexpected route {:?}", other),
    }
    match get("/r/index/objects/2f/d95367332005518f56b336634d85c099e2678a") {
        Route::GitFile(GitFile::LooseObject, p) => {
            assert_eq!(p, "objects/2f/d95367332005518f56b336634d85c099e2678a")
        }
        other => panic!("unexpected route {:?}", other),
    }
}

#[test]
fn static_trees() {
    match get("/r/index/se/rd/serde") {
        Route::IndexFile(p) => assert_eq!(p, "se/rd/serde"),
        other => panic!("unexpected route {:?}", other),
    }
    match get("/r/index") {
        Route::IndexFile(p) => assert_eq!(p, ""),
        other => panic!("unexpected route {:?}", other),
    }
    match get("/r/crates/se/rd/serde/serde-1.0.0.crate") {
        Route::CrateFile(p) => assert_eq!(p, "se/rd/serde/serde-1.0.0.crate"),
        other => panic!("unexpected route {:?}", other),
    }
    assert!(matches!(get("/r/crates/../registry.toml"), Route::NotFound));
    assert!(matches!(get("/r/index/a/../../registry.toml"), Route::NotFound));
    assert!(matches!(route("r", HttpMethod::Put, "/r/crates/x"), Route::MethodNotAllowed));
}

#[test]
fn unmatched_paths() {
    assert!(matches!(get("/other/index/HEAD"), Route::NotFound));
    assert!(matches!(route("r", HttpMethod::Post, "/nowhere"), Route::MethodNotAllowed));
    assert!(matches!(get("/r"), Route::NotFound));
    assert!(matches!(get("/r/elsewhere"), Route::NotFound));
    assert!(matches!(route("r", HttpMethod::Other, "/r/elsewhere"), Route::MethodNotAllowed));
}
