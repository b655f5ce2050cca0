//! Routing of requests under `/<registry>`: the `api`, `index` and `crates`
//! URL families, and 404/405 for everything else.

use crate::git_http::{
    download_location_spec,
    cache_forever_expires_spec, git_file_cache_policy, git_file_content_type, has_suffix,
    is_loose_object_path, is_lower_hex_of_len, pack_kind_spec, CachePolicy, GitFile,
    CACHE_FOREVER_SECONDS,
};
use crate::layout::crate_path_spec;
use crate::text::{
    lemma_split_concat, lemma_split_no_slash, lemma_split_nonempty, no_slash, same_text,
    split_slash, split_spec, views,
};
use vstd::prelude::*;
use vstd::string::*;

verus! {

/// The request methods that routing tells apart.
#[derive(Debug, Clone, Copy, PartialEq, Eq, Structural)]
pub enum HttpMethod {
    Get,
    Post,
    Put,
    Delete,
    Other,
}

/// Where a request goes.
#[derive(Debug, Clone)]
pub enum Route {
    /// `GET api/v1/crates`.
    Search,
    /// `PUT api/v1/crates/new`.
    Publish,
    /// `GET|PUT|DELETE api/v1/crates/<name>/owners`.
    Owners,
    /// `GET api/v1/crates/<name>/<version>/download`.
    Download { name: String, version: String },
    /// `PUT api/v1/crates/<name>/<version>/yank`.
    Yank,
    /// `PUT api/v1/crates/<name>/<version>/unyank`.
    Unyank,
    /// `POST index/git-upload-pack`.
    UploadPack,
    /// `POST index/git-receive-pack`.
    ReceivePack,
    /// `GET index/info/refs`.
    InfoRefs,
    /// A file of the Git directory, of the given kind, at the given path
    /// inside it.
    GitFile(GitFile, String),
    /// `GET index/objects/pack/<file>`.
    PackFile(String),
    /// Any other `GET` under `index`: a file of the working tree.
    IndexFile(String),
    /// A `GET` under `crates`: a file of the archive tree.
    CrateFile(String),
    /// A `GET` that matches nothing.
    NotFound,
    /// A known path with another method, or a non-`GET` that matches nothing.
    MethodNotAllowed,
}

/// A route with its strings seen as character sequences.
pub enum RouteView {
    Search,
    Publish,
    Owners,
    Download(Seq<char>, Seq<char>),
    Yank,
    Unyank,
    UploadPack,
    ReceivePack,
    InfoRefs,
    GitFile(GitFile, Seq<char>),
    PackFile(Seq<char>),
    IndexFile(Seq<char>),
    CrateFile(Seq<char>),
    NotFound,
    MethodNotAllowed,
}

impl Route {
    pub open spec fn view(&self) -> RouteView {
        match self {
            Route::Search => RouteView::Search,
            Route::Publish => RouteView::Publish,
            Route::Owners => RouteView::Owners,
            Route::Download { name, version } => RouteView::Download(name@, version@),
            Route::Yank => RouteView::Yank,
            Route::Unyank => RouteView::Unyank,
            Route::UploadPack => RouteView::UploadPack,
            Route::ReceivePack => RouteView::ReceivePack,
            Route::InfoRefs => RouteView::InfoRefs,
            Route::GitFile(k, p) => RouteView::GitFile(*k, p@),
            Route::PackFile(f) => RouteView::PackFile(f@),
            Route::IndexFile(p) => RouteView::IndexFile(p@),
            Route::CrateFile(p) => RouteView::CrateFile(p@),
            Route::NotFound => RouteView::NotFound,
            Route::MethodNotAllowed => RouteView::MethodNotAllowed,
        }
    }
}

/// Nothing matched: 404 for `GET`, 405 otherwise.
pub open spec fn unmatched_spec(m: HttpMethod) -> RouteView {
    if m == HttpMethod::Get {
        RouteView::NotFound
    } else {
        RouteView::MethodNotAllowed
    }
}

/// A path served for method `want` alone.
pub open spec fn only(m: HttpMethod, want: HttpMethod, r: RouteView) -> RouteView {
    if m == want {
        r
    } else {
        RouteView::MethodNotAllowed
    }
}

/// The routes of `api`; `s` are the segments after it.
pub open spec fn api_route_spec(m: HttpMethod, s: Seq<Seq<char>>) -> RouteView {
    if !(s.len() >= 2 && s[0] == "v1"@ && s[1] == "crates"@) {
        unmatched_spec(m)
    } else if s.len() == 2 {
        only(m, HttpMethod::Get, RouteView::Search)
    } else if s.len() == 3 && s[2] == "new"@ {
        only(m, HttpMethod::Put, RouteView::Publish)
    } else if s.len() == 4 && s[2].len() > 0 && s[3] == "owners"@ {
        if m == HttpMethod::Get || m == HttpMethod::Put || m == HttpMethod::Delete {
            RouteView::Owners
        } else {
            RouteView::MethodNotAllowed
        }
    } else if s.len() == 5 && s[2].len() > 0 && s[3].len() > 0 && s[4] == "download"@ {
        only(m, HttpMethod::Get, RouteView::Download(s[2], s[3]))
    } else if s.len() == 5 && s[2].len() > 0 && s[3].len() > 0 && s[4] == "yank"@ {
        only(m, HttpMethod::Put, RouteView::Yank)
    } else if s.len() == 5 && s[2].len() > 0 && s[3].len() > 0 && s[4] == "unyank"@ {
        only(m, HttpMethod::Put, RouteView::Unyank)
    } else {
        unmatched_spec(m)
    }
}

/// The kind of a file under `objects/info/`.
pub open spec fn info_kind_spec(name: Seq<char>) -> GitFile {
    if name == "alternates"@ {
        GitFile::Alternates
    } else if name == "http-alternates"@ {
        GitFile::HttpAlternates
    } else if name == "packs"@ {
        GitFile::InfoPacks
    } else {
        GitFile::InfoFile
    }
}

/// The routes of `index`; `s` are the segments after it and `tail` the path
/// after `index/`.
pub open spec fn index_route_spec(m: HttpMethod, s: Seq<Seq<char>>, tail: Seq<char>) -> RouteView {
    if s.len() == 1 && s[0] == "git-upload-pack"@ {
        only(m, HttpMethod::Post, RouteView::UploadPack)
    } else if s.len() == 1 && s[0] == "git-receive-pack"@ {
        only(m, HttpMethod::Post, RouteView::ReceivePack)
    } else if s.len() == 2 && s[0] == "info"@ && s[1] == "refs"@ {
        only(m, HttpMethod::Get, RouteView::InfoRefs)
    } else if s.len() == 1 && s[0] == "HEAD"@ {
        only(m, HttpMethod::Get, RouteView::GitFile(GitFile::Head, "HEAD"@))
    } else if s.len() == 3 && s[0] == "objects"@ && s[1] == "info"@ && s[2].len() > 0 {
        only(m, HttpMethod::Get, RouteView::GitFile(info_kind_spec(s[2]), "objects/info/"@ + s[2]))
    } else if s.len() == 3 && s[0] == "objects"@ && s[1] == "pack"@ && s[2].len() > 0 {
        only(m, HttpMethod::Get, RouteView::PackFile(s[2]))
    } else if s.len() == 3 && s[0] == "objects"@ && is_lower_hex_of_len(s[1], 2)
        && is_lower_hex_of_len(s[2], 38) {
        only(
            m,
            HttpMethod::Get,
            RouteView::GitFile(GitFile::LooseObject, "objects/"@ + s[1] + seq!['/'] + s[2]),
        )
    } else if no_parent_segment(s) {
        only(m, HttpMethod::Get, RouteView::IndexFile(tail))
    } else {
        unmatched_spec(m)
    }
}

/// No segment climbs out of the tree being served.
pub open spec fn no_parent_segment(s: Seq<Seq<char>>) -> bool {
    forall|i: int| 0 <= i < s.len() ==> #[trigger] s[i] != seq!['.', '.']
}

/// What follows the first `k` characters of `path`, or nothing.
pub open spec fn tail_spec(path: Seq<char>, k: int) -> Seq<char> {
    if k <= path.len() {
        path.subrange(k, path.len() as int)
    } else {
        Seq::empty()
    }
}

/// Where a request with method `m` for `path` goes, in a registry named
/// `registry`.
pub open spec fn route_spec(registry: Seq<char>, m: HttpMethod, path: Seq<char>) -> RouteView {
    let segs = split_spec(path);
    if segs.len() >= 3 && segs[0].len() == 0 && segs[1] == registry {
        let s = segs.subrange(3, segs.len() as int);
        if segs[2] == "api"@ {
            api_route_spec(m, s)
        } else if segs[2] == "index"@ {
            index_route_spec(m, s, tail_spec(path, registry.len() + 8int))
        } else if segs[2] == "crates"@ && no_parent_segment(s) {
            only(m, HttpMethod::Get, RouteView::CrateFile(tail_spec(path, registry.len() + 9int)))
        } else {
            unmatched_spec(m)
        }
    } else {
        unmatched_spec(m)
    }
}

/// Whether no segment after the third is `..`.
fn no_parent(segs: &Vec<String>) -> (r: bool)
    requires
        segs@.len() >= 3,
    ensures
        r == no_parent_segment(views(segs@).subrange(3, segs@.len() as int)),
{
    proof {
        reveal_strlit("..");
        assert(seq!['.', '.'] =~= ".."@);
    }
    let ghost s = views(segs@).subrange(3, segs@.len() as int);
    let mut i: usize = 3;
    while i < segs.len()
        invariant
            3 <= i <= segs@.len(),
            s == views(segs@).subrange(3, segs@.len() as int),
            seq!['.', '.'] == ".."@,
            forall|j: int| 0 <= j < i - 3 ==> #[trigger] s[j] != seq!['.', '.'],
        decreases segs@.len() - i,
    {
        if segment_is(segs, i, "..") {
            assert(s[i - 3] == seq!['.', '.']);
            return false;
        }
        i = i + 1;
    }
    true
}

/// A `GET` of `/<registry>/index/objects/pack/<file>` for a pack index is
/// answered from that file, as a table of contents of packed objects, cached
/// for a year from the moment `now` it is sent (where that moment plus a year
/// can be written in seconds).
pub proof fn lemma_pack_index_request(registry: Seq<char>, file: Seq<char>, now: u64)
    requires
        no_slash(registry),
        no_slash(file),
        has_suffix(file, ".idx"@),
        now + CACHE_FOREVER_SECONDS <= u64::MAX,
    ensures
        route_spec(registry, HttpMethod::Get, seq!['/'] + registry + "/index/objects/pack/"@ + file)
            == RouteView::PackFile(file),
        pack_kind_spec(file) == Some(GitFile::PackIndex),
        git_file_content_type(GitFile::PackIndex) == "application/x-git-packed-objects-toc"@,
        git_file_cache_policy(GitFile::PackIndex) == CachePolicy::Forever,
        cache_forever_expires_spec(now) == Some((now + 31536000) as u64),
{
    reveal_strlit("/index/objects/pack/");
    reveal_strlit("index");
    reveal_strlit("objects");
    reveal_strlit("pack");
    reveal_strlit("info");
    reveal_strlit("api");
    reveal_strlit(".idx");
    let e = Seq::<char>::empty();
    let idx = "index"@;
    let obj = "objects"@;
    let pck = "pack"@;
    let path = seq!['/'] + registry + "/index/objects/pack/"@ + file;
    assert(path =~= (((((e + seq!['/'] + registry) + seq!['/'] + idx) + seq!['/'] + obj) + seq!['/']
        + pck) + seq!['/'] + file));
    assert(no_slash(e));
    assert(no_slash(idx));
    assert(no_slash(obj));
    assert(no_slash(pck));
    lemma_split_no_slash(e);
    lemma_split_no_slash(registry);
    lemma_split_no_slash(idx);
    lemma_split_no_slash(obj);
    lemma_split_no_slash(pck);
    lemma_split_no_slash(file);
    lemma_split_concat(e, registry);
    lemma_split_concat(e + seq!['/'] + registry, idx);
    lemma_split_concat((e + seq!['/'] + registry) + seq!['/'] + idx, obj);
    lemma_split_concat(((e + seq!['/'] + registry) + seq!['/'] + idx) + seq!['/'] + obj, pck);
    lemma_split_concat(
        (((e + seq!['/'] + registry) + seq!['/'] + idx) + seq!['/'] + obj) + seq!['/'] + pck,
        file,
    );
    let segs = split_spec(path);
    assert(segs =~= seq![e, registry, idx, obj, pck, file]);
    let s = segs.subrange(3, segs.len() as int);
    assert(s =~= seq![obj, pck, file]);
    assert(idx.len() != "api"@.len());
    assert(pck[0] != "info"@[0]);
    assert(file.len() > 0);
}

/// A `GET` of `/<registry>/api/v1/crates/<name>/<version>/download` asks for
/// that version's archive, which the redirect places at
/// `/<registry>/crates/<sharded path>`.
pub proof fn lemma_download_request(registry: Seq<char>, name: Seq<char>, version: Seq<char>)
    requires
        no_slash(registry),
        no_slash(name),
        no_slash(version),
        name.len() > 0,
        version.len() > 0,
    ensures
        route_spec(
            registry,
            HttpMethod::Get,
            seq!['/'] + registry + "/api/v1/crates/"@ + name + seq!['/'] + version + "/download"@,
        ) == RouteView::Download(name, version),
        download_location_spec(registry, name, version) == seq!['/'] + registry + "/crates/"@
            + crate_path_spec(name, version),
{
    reveal_strlit("/api/v1/crates/");
    reveal_strlit("/download");
    reveal_strlit("api");
    reveal_strlit("v1");
    reveal_strlit("crates");
    reveal_strlit("download");
    let e = Seq::<char>::empty();
    let api = "api"@;
    let v1 = "v1"@;
    let crs = "crates"@;
    let dl = "download"@;
    let path = seq!['/'] + registry + "/api/v1/crates/"@ + name + seq!['/'] + version + "/download"@;
    let p1 = e + seq!['/'] + registry;
    let p2 = p1 + seq!['/'] + api;
    let p3 = p2 + seq!['/'] + v1;
    let p4 = p3 + seq!['/'] + crs;
    let p5 = p4 + seq!['/'] + name;
    let p6 = p5 + seq!['/'] + version;
    assert(path =~= p6 + seq!['/'] + dl);
    assert(no_slash(e));
    assert(no_slash(api));
    assert(no_slash(v1));
    assert(no_slash(crs));
    assert(no_slash(dl));
    lemma_split_no_slash(e);
    lemma_split_no_slash(registry);
    lemma_split_no_slash(api);
    lemma_split_no_slash(v1);
    lemma_split_no_slash(crs);
    lemma_split_no_slash(name);
    lemma_split_no_slash(version);
    lemma_split_no_slash(dl);
    lemma_split_concat(e, registry);
    lemma_split_concat(p1, api);
    lemma_split_concat(p2, v1);
    lemma_split_concat(p3, crs);
    lemma_split_concat(p4, name);
    lemma_split_concat(p5, version);
    lemma_split_concat(p6, dl);
    let segs = split_spec(path);
    assert(segs =~= seq![e, registry, api, v1, crs, name, version, dl]);
    assert(segs.subrange(3, segs.len() as int) =~= seq![v1, crs, name, version, dl]);
}

fn unmatched(m: HttpMethod) -> (r: Route)
    ensures
        r.view() == unmatched_spec(m),
{
    if m == HttpMethod::Get {
        Route::NotFound
    } else {
        Route::MethodNotAllowed
    }
}

fn segment_is(segs: &Vec<String>, k: usize, text: &str) -> (r: bool)
    requires
        k < segs@.len(),
    ensures
        r == (segs@[k as int]@ == text@),
{
    same_text(segs[k].as_str(), text)
}

fn api_route(m: HttpMethod, segs: &Vec<String>) -> (r: Route)
    requires
        segs@.len() >= 3,
    ensures
        r.view() == api_route_spec(m, views(segs@).subrange(3, segs@.len() as int)),
{
    let ghost s = views(segs@).subrange(3, segs@.len() as int);
    let n = segs.len();
    if !(n >= 5 && segment_is(segs, 3, "v1") && segment_is(segs, 4, "crates")) {
        return unmatched(m);
    }
    if n == 5 {
        return if m == HttpMethod::Get {
            Route::Search
        } else {
            Route::MethodNotAllowed
        };
    }
    if n == 6 && segment_is(segs, 5, "new") {
        return if m == HttpMethod::Put {
            Route::Publish
        } else {
            Route::MethodNotAllowed
        };
    }
    if n == 7 && segs[5].as_str().unicode_len() > 0 && segment_is(segs, 6, "owners") {
        return if m == HttpMethod::Get || m == HttpMethod::Put || m == HttpMethod::Delete {
            Route::Owners
        } else {
            Route::MethodNotAllowed
        };
    }
    if n == 8 && segs[5].as_str().unicode_len() > 0 && segs[6].as_str().unicode_len() > 0 {
        if segment_is(segs, 7, "download") {
            return if m == HttpMethod::Get {
                Route::Download { name: segs[5].clone(), version: segs[6].clone() }
            } else {
                Route::MethodNotAllowed
            };
        }
        if segment_is(segs, 7, "yank") {
            return if m == HttpMethod::Put {
                Route::Yank
            } else {
                Route::MethodNotAllowed
            };
        }
        if segment_is(segs, 7, "unyank") {
            return if m == HttpMethod::Put {
                Route::Unyank
            } else {
                Route::MethodNotAllowed
            };
        }
    }
    unmatched(m)
}

fn info_kind(name: &str) -> (r: GitFile)
    ensures
        r == info_kind_spec(name@),
{
    if same_text(name, "alternates") {
        GitFile::Alternates
    } else if same_text(name, "http-alternates") {
        GitFile::HttpAlternates
    } else if same_text(name, "packs") {
        GitFile::InfoPacks
    } else {
        GitFile::InfoFile
    }
}

fn get_only(m: HttpMethod, r: Route) -> (out: Route)
    ensures
        out.view() == only(m, HttpMethod::Get, r.view()),
{
    if m == HttpMethod::Get {
        r
    } else {
        Route::MethodNotAllowed
    }
}

fn index_route(m: HttpMethod, segs: &Vec<String>, tail: String) -> (r: Route)
    requires
        segs@.len() >= 3,
    ensures
        r.view() == index_route_spec(m, views(segs@).subrange(3, segs@.len() as int), tail@),
{
    let n = segs.len();
    if n == 4 && segment_is(segs, 3, "git-upload-pack") {
        return if m == HttpMethod::Post {
            Route::UploadPack
        } else {
            Route::MethodNotAllowed
        };
    }
    if n == 4 && segment_is(segs, 3, "git-receive-pack") {
        return if m == HttpMethod::Post {
            Route::ReceivePack
        } else {
            Route::MethodNotAllowed
        };
    }
    if n == 5 && segment_is(segs, 3, "info") && segment_is(segs, 4, "refs") {
        return get_only(m, Route::InfoRefs);
    }
    if n == 4 && segment_is(segs, 3, "HEAD") {
        return get_only(m, Route::GitFile(GitFile::Head, String::from_str("HEAD")));
    }
    if n == 6 && segment_is(segs, 3, "objects") {
        let a = segs[4].as_str();
        let b = segs[5].as_str();
        if same_text(a, "info") && b.unicode_len() > 0 {
            let mut p = String::from_str("objects/info/");
            p.append(b);
            return get_only(m, Route::GitFile(info_kind(b), p));
        }
        if same_text(a, "pack") && b.unicode_len() > 0 {
            return get_only(m, Route::PackFile(String::from_str(b)));
        }
        if is_loose_object_path(a, b) {
            let mut p = String::from_str("objects/");
            p.append(a);
            p.append("/");
            p.append(b);
            proof {
                reveal_strlit("/");
            }
            assert(p@ =~= "objects/"@ + a@ + seq!['/'] + b@);
            return get_only(m, Route::GitFile(GitFile::LooseObject, p));
        }
    }
    if no_parent(segs) {
        get_only(m, Route::IndexFile(tail))
    } else {
        unmatched(m)
    }
}

/// What follows the first `k + extra` characters of `path`, or nothing.
fn tail(path: &str, k: usize, extra: usize) -> (r: String)
    ensures
        r@ == tail_spec(path@, k + extra),
{
    let n = path.unicode_len();
    if k <= n && extra <= n - k {
        String::from_str(path.substring_char(k + extra, n))
    } else {
        String::new()
    }
}

/// Where a request with method `method` for `path` goes, in the registry
/// named `registry`.
pub fn route(registry: &str, method: HttpMethod, path: &str) -> (r: Route)
    ensures
        r.view() == route_spec(registry@, method, path@),
{
    let segs = split_slash(path);
    proof {
        lemma_split_nonempty(path@);
    }
    if segs.len() >= 3 && segs[0].as_str().unicode_len() == 0 && same_text(
        segs[1].as_str(),
        registry,
    ) {
        let k = registry.unicode_len();
        if segment_is(&segs, 2, "api") {
            api_route(method, &segs)
        } else if segment_is(&segs, 2, "index") {
            index_route(method, &segs, tail(path, k, 8))
        } else if segment_is(&segs, 2, "crates") && no_parent(&segs) {
            get_only(method, Route::CrateFile(tail(path, k, 9)))
        } else {
            unmatched(method)
        }
    } else {
        unmatched(method)
    }
}

} // verus!
