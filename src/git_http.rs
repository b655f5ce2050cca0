//! Decisions of the Git smart-HTTP bridge and of the registry's URL families:
//! which service a request asks for, whether it may run, how its answer is
//! framed and typed, and how each file of the index repository is delivered.

use crate::error::SkrdError;
use crate::layout::{crate_path_spec, get_crate_path};
use crate::query::{get_service_from_query_string, lemma_service_unique, service_in_query};
use crate::registry::AccessControl;
use crate::text::{ends_with, hex4, hex4_spec, same_text};
use vstd::prelude::*;
use vstd::string::*;

verus! {

/// A Git service that clients run over HTTP.
#[derive(Debug, Clone, Copy, PartialEq, Eq, Structural)]
pub enum Service {
    UploadPack,
    ReceivePack,
}

/// The service's name as Git spells it after `git-`.
pub open spec fn service_name_spec(s: Service) -> Seq<char> {
    match s {
        Service::UploadPack => "upload-pack"@,
        Service::ReceivePack => "receive-pack"@,
    }
}

/// Whether the access section lets clients run `s`.
pub open spec fn service_allowed(access: AccessControl, s: Service) -> bool {
    match s {
        Service::UploadPack => access.upload,
        Service::ReceivePack => access.receive,
    }
}

/// `application/x-git-<service>-<kind>`.
pub open spec fn service_mime_spec(s: Service, kind: Seq<char>) -> Seq<char> {
    "application/x-git-"@ + service_name_spec(s) + seq!['-'] + kind
}

/// The first line of a smart `info/refs` answer: `# service=git-<service>` and
/// a newline.
pub open spec fn service_header_spec(s: Service) -> Seq<char> {
    "# service=git-"@ + service_name_spec(s) + seq!['\n']
}

/// A pkt-line: four hex digits giving the length, those four included, then
/// the payload.
pub open spec fn pkt_line_spec(payload: Seq<char>) -> Seq<char> {
    hex4_spec((payload.len() + 4) as nat) + payload
}

/// The flush packet.
pub open spec fn flush_pkt_spec() -> Seq<char> {
    "0000"@
}

impl Service {
    pub fn name(&self) -> (r: &'static str)
        ensures
            r@ == service_name_spec(*self),
    {
        match self {
            Service::UploadPack => "upload-pack",
            Service::ReceivePack => "receive-pack",
        }
    }

    /// The service that Git calls `name`, if any.
    pub fn from_name(name: &str) -> (r: Option<Service>)
        ensures
            forall|s: Service| r == Some(s) <==> name@ == service_name_spec(s),
    {
        proof {
            reveal_strlit("upload-pack");
            reveal_strlit("receive-pack");
            assert(service_name_spec(Service::UploadPack).len() != service_name_spec(Service::ReceivePack).len());
        }
        if same_text(name, "upload-pack") {
            Some(Service::UploadPack)
        } else if same_text(name, "receive-pack") {
            Some(Service::ReceivePack)
        } else {
            None
        }
    }

    /// `application/x-git-<service>-<kind>`.
    fn mime(&self, kind: &str) -> (r: String)
        ensures
            r@ == service_mime_spec(*self, kind@),
    {
        let mut r = String::from_str("application/x-git-");
        r.append(self.name());
        r.append("-");
        r.append(kind);
        proof {
            reveal_strlit("-");
        }
        r
    }

    /// Content type of a smart `info/refs` answer.
    pub fn advertisement_content_type(&self) -> (r: String)
        ensures
            r@ == service_mime_spec(*self, "advertisement"@),
    {
        self.mime("advertisement")
    }

    /// Content type that a client's POST to the service must carry.
    pub fn request_content_type(&self) -> (r: String)
        ensures
            r@ == service_mime_spec(*self, "request"@),
    {
        self.mime("request")
    }

    /// Content type of the answer to a POST to the service.
    pub fn result_content_type(&self) -> (r: String)
        ensures
            r@ == service_mime_spec(*self, "result"@),
    {
        self.mime("result")
    }

    /// The preface of a smart `info/refs` answer: the pkt-line
    /// `# service=git-<service>` and a flush packet.
    pub fn advertisement_preface(&self) -> (r: String)
        ensures
            r@ == pkt_line_spec(service_header_spec(*self)) + flush_pkt_spec(),
    {
        let mut head = String::from_str("# service=git-");
        head.append(self.name());
        head.append("\n");
        proof {
            reveal_strlit("# service=git-");
            reveal_strlit("upload-pack");
            reveal_strlit("receive-pack");
            reveal_strlit("\n");
        }
        assert(head@.len() <= 40);
        let len = head.as_str().unicode_len();
        let mut r = hex4((len + 4) as u16);
        r.append(head.as_str());
        r.append("0000");
        assert(r@ =~= pkt_line_spec(service_header_spec(*self)) + flush_pkt_spec());
        r
    }

    /// A whole smart `info/refs` answer: the preface, then what
    /// `git <service> --stateless-rpc --advertise-refs` printed.
    pub fn advertisement_body(&self, refs: &str) -> (r: String)
        ensures
            r@ == pkt_line_spec(service_header_spec(*self)) + flush_pkt_spec() + refs@,
    {
        let mut r = self.advertisement_preface();
        r.append(refs);
        r
    }
}

/// How `info/refs` is answered.
#[derive(Debug, Clone, Copy, PartialEq, Eq, Structural)]
pub enum RefsMode {
    /// The plain list of refs, for the dumb protocol.
    Dumb,
    /// The advertisement of `git <service>`.
    Smart(Service),
}

/// How to answer `info/refs` with query string `query`: smart for a service
/// that the query names and the access section allows, dumb otherwise.
pub fn info_refs_mode(query: &str, access: &AccessControl) -> (r: RefsMode)
    ensures
        forall|s: Service|
            r == RefsMode::Smart(s) <==> (service_in_query(query@, service_name_spec(s))
                && service_allowed(*access, s)),
{
    match get_service_from_query_string(query) {
        Some(v) => {
            let found = Service::from_name(v);
            proof {
                assert forall|s: Service|
                    service_in_query(query@, service_name_spec(s)) implies v@ == service_name_spec(
                        s,
                    ) by {
                    lemma_service_unique(query@, v@, service_name_spec(s));
                }
            }
            match found {
                Some(Service::UploadPack) => {
                    if access.upload {
                        RefsMode::Smart(Service::UploadPack)
                    } else {
                        RefsMode::Dumb
                    }
                },
                Some(Service::ReceivePack) => {
                    if access.receive {
                        RefsMode::Smart(Service::ReceivePack)
                    } else {
                        RefsMode::Dumb
                    }
                },
                None => RefsMode::Dumb,
            }
        },
        None => RefsMode::Dumb,
    }
}

/// Whether a POST to `service` carrying `content_type` may run: the content
/// type must be the service's request type and the access section must allow
/// the service. Otherwise the answer is 403.
pub fn pack_request_allowed(service: Service, content_type: &str, access: &AccessControl) -> (r:
    bool)
    ensures
        r == (content_type@ == service_mime_spec(service, "request"@) && service_allowed(
            *access,
            service,
        )),
{
    let expected = service.request_content_type();
    if !same_text(content_type, expected.as_str()) {
        return false;
    }
    match service {
        Service::UploadPack => access.upload,
        Service::ReceivePack => access.receive,
    }
}

/// `/<registry>/crates/<sharded path>`, where the download endpoint of the
/// API redirects to.
pub open spec fn download_location_spec(
    registry: Seq<char>,
    name: Seq<char>,
    version: Seq<char>,
) -> Seq<char> {
    seq!['/'] + registry + "/crates/"@ + crate_path_spec(name, version)
}

/// The `Location` of the redirect that answers
/// `/api/v1/crates/<name>/<version>/download`.
pub fn download_location(registry: &str, name: &str, version: &str) -> (r: String)
    requires
        name@.len() >= 1,
    ensures
        r@ == download_location_spec(registry@, name@, version@),
{
    let mut r = String::from_str("/");
    r.append(registry);
    r.append("/crates/");
    let p = get_crate_path(name, version);
    r.append(p.as_str());
    proof {
        reveal_strlit("/");
    }
    assert(r@ =~= download_location_spec(registry@, name@, version@));
    r
}

/// Status of a request that no route matched: 404 for GET, 405 otherwise.
pub fn unmatched_status(is_get: bool) -> (r: u16)
    ensures
        r == (if is_get {
            404u16
        } else {
            405u16
        }),
{
    if is_get {
        404
    } else {
        405
    }
}

/// How long a response may be cached.
#[derive(Debug, Clone, Copy, PartialEq, Eq, Structural)]
pub enum CachePolicy {
    NoCache,
    Forever,
}

/// Seconds in the year that a cache-forever response is kept.
pub const CACHE_FOREVER_SECONDS: u64 = 31536000;

/// The headers that forbid caching: an expiry in the past, `Pragma` and
/// `Cache-Control`.
pub fn no_cache_headers() -> (r: Vec<(&'static str, &'static str)>)
    ensures
        r@.len() == 3,
        r@[0].0@ == "Expires"@ && r@[0].1@ == "Fri, 01 Jan 1980 00:00:00 GMT"@,
        r@[1].0@ == "Pragma"@ && r@[1].1@ == "no-cache"@,
        r@[2].0@ == "Cache-Control"@ && r@[2].1@ == "no-cache, max-age=0, must-revalidate"@,
{
    vec![
        ("Expires", "Fri, 01 Jan 1980 00:00:00 GMT"),
        ("Pragma", "no-cache"),
        ("Cache-Control", "no-cache, max-age=0, must-revalidate"),
    ]
}

/// The `Cache-Control` value of a cache-forever response.
pub fn cache_forever_control() -> (r: &'static str)
    ensures
        r@ == "public, max-age=31536000"@,
{
    "public, max-age=31536000"
}

/// A year after `now`, where that time can be written in seconds.
pub open spec fn cache_forever_expires_spec(now: u64) -> Option<u64> {
    if now + CACHE_FOREVER_SECONDS <= u64::MAX {
        Some((now + CACHE_FOREVER_SECONDS) as u64)
    } else {
        None
    }
}

/// The expiry, in seconds since the epoch, of a cache-forever response made at
/// `now`: a year later.
pub fn cache_forever_expires(now: u64) -> (r: Option<u64>)
    ensures
        r == cache_forever_expires_spec(now),
{
    now.checked_add(CACHE_FOREVER_SECONDS)
}

/// A file of the index repository that is delivered as it is.
#[derive(Debug, Clone, Copy, PartialEq, Eq, Structural)]
pub enum GitFile {
    Head,
    Alternates,
    HttpAlternates,
    InfoFile,
    InfoPacks,
    LooseObject,
    PackIndex,
    Pack,
}

pub open spec fn git_file_content_type(f: GitFile) -> Seq<char> {
    match f {
        GitFile::Head | GitFile::Alternates | GitFile::HttpAlternates | GitFile::InfoFile => "text/plain"@,
        GitFile::InfoPacks => "text/plain; charset=utf-8"@,
        GitFile::LooseObject => "application/x-git-loose-object"@,
        GitFile::PackIndex => "application/x-git-packed-objects-toc"@,
        GitFile::Pack => "application/x-git-packed-objects"@,
    }
}

/// Text files that change are never cached; objects, packs and the pack list
/// are kept for a year.
pub open spec fn git_file_cache_policy(f: GitFile) -> CachePolicy {
    match f {
        GitFile::Head | GitFile::Alternates | GitFile::HttpAlternates | GitFile::InfoFile => CachePolicy::NoCache,
        _ => CachePolicy::Forever,
    }
}

impl GitFile {
    pub fn content_type(&self) -> (r: &'static str)
        ensures
            r@ == git_file_content_type(*self),
    {
        match self {
            GitFile::Head | GitFile::Alternates | GitFile::HttpAlternates | GitFile::InfoFile => "text/plain",
            GitFile::InfoPacks => "text/plain; charset=utf-8",
            GitFile::LooseObject => "application/x-git-loose-object",
            GitFile::PackIndex => "application/x-git-packed-objects-toc",
            GitFile::Pack => "application/x-git-packed-objects",
        }
    }

    pub fn cache_policy(&self) -> (r: CachePolicy)
        ensures
            r == git_file_cache_policy(*self),
    {
        match self {
            GitFile::Head | GitFile::Alternates | GitFile::HttpAlternates | GitFile::InfoFile => CachePolicy::NoCache,
            _ => CachePolicy::Forever,
        }
    }
}

/// Whether `s` ends with `suffix`.
pub open spec fn has_suffix(s: Seq<char>, suffix: Seq<char>) -> bool {
    suffix.len() <= s.len() && s.subrange(s.len() - suffix.len(), s.len() as int) == suffix
}

/// The kind of a file under `objects/pack/`, by its extension.
pub open spec fn pack_kind_spec(path: Seq<char>) -> Option<GitFile> {
    if has_suffix(path, ".idx"@) {
        Some(GitFile::PackIndex)
    } else if has_suffix(path, ".pack"@) {
        Some(GitFile::Pack)
    } else {
        None
    }
}

/// The kind of a file requested under `objects/pack/`: an index for `.idx`, a
/// pack for `.pack`; any other extension is refused.
pub fn pack_file_kind(path: &str) -> (r: Result<GitFile, SkrdError>)
    ensures
        match pack_kind_spec(path@) {
            Some(k) => r == Ok::<GitFile, SkrdError>(k),
            None => r matches Err(SkrdError::Custom(m)) && m@ == "error file extension: "@ + path@,
        },
{
    if ends_with(path, ".idx") {
        Ok(GitFile::PackIndex)
    } else if ends_with(path, ".pack") {
        Ok(GitFile::Pack)
    } else {
        let mut m = String::from_str("error file extension: ");
        m.append(path);
        Err(SkrdError::Custom(m))
    }
}

/// A lower-case hexadecimal digit.
pub open spec fn is_lower_hex(c: char) -> bool {
    ('0' <= c && c <= '9') || ('a' <= c && c <= 'f')
}

/// `n` lower-case hexadecimal digits.
pub open spec fn is_lower_hex_of_len(s: Seq<char>, n: nat) -> bool {
    s.len() == n && forall|i: int| 0 <= i < s.len() ==> is_lower_hex(#[trigger] s[i])
}

fn all_lower_hex(s: &str) -> (r: bool)
    ensures
        r == forall|i: int| 0 <= i < s@.len() ==> is_lower_hex(#[trigger] s@[i]),
{
    let n = s.unicode_len();
    let mut k: usize = 0;
    while k < n
        invariant
            n == s@.len(),
            k <= n,
            forall|i: int| 0 <= i < k ==> is_lower_hex(#[trigger] s@[i]),
        decreases n - k,
    {
        let c = s.get_char(k);
        if !(('0' <= c && c <= '9') || ('a' <= c && c <= 'f')) {
            return false;
        }
        k = k + 1;
    }
    true
}

/// Whether `objects/<dir>/<file>` names a loose object: two and thirty-eight
/// lower-case hexadecimal digits.
pub fn is_loose_object_path(dir: &str, file: &str) -> (r: bool)
    ensures
        r == (is_lower_hex_of_len(dir@, 2) && is_lower_hex_of_len(file@, 38)),
{
    dir.unicode_len() == 2 && file.unicode_len() == 38 && all_lower_hex(dir) && all_lower_hex(file)
}

} // verus!
