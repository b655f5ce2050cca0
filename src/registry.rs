//! The registry model: its configuration, its derived paths and its public
//! base URL.

use crate::layout::{join, join_spec};
use crate::text::{decimal, decimal_spec, lemma_decimal_nonempty};
use vstd::prelude::*;
use vstd::string::*;

verus! {

/// The `meta` section of the configuration.
#[derive(Debug, Clone)]
pub struct Meta {
    pub name: String,
}

/// The `dl` and `api` URLs that an index's `config.json` carries.
#[derive(Debug, Clone)]
pub struct UrlConfig {
    pub dl: String,
    pub api: String,
}

impl PartialEq for UrlConfig {
    fn eq(&self, o: &UrlConfig) -> (r: bool) {
        self.dl == o.dl && self.api == o.api
    }
}

impl vstd::std_specs::cmp::PartialEqSpecImpl for UrlConfig {
    open spec fn obeys_eq_spec() -> bool {
        true
    }

    open spec fn eq_spec(&self, o: &UrlConfig) -> bool {
        self.dl@ == o.dl@ && self.api@ == o.api@
    }
}

/// The `mirror` section: where the index comes from and the upstream URLs.
#[derive(Debug, Clone)]
pub struct Mirror {
    pub source: String,
    pub sync: bool,
    pub index_update_interval: u32,
    pub origin_urls: UrlConfig,
}

impl Mirror {
    /// The mirror section recorded for a fresh clone of `source`, whose own
    /// `config.json` held `origin_urls`: synchronised, every thirty seconds.
    pub fn from_origin(source: &str, origin_urls: UrlConfig) -> (r: Mirror)
        ensures
            r.source@ == source@,
            r.sync,
            r.index_update_interval == 30,
            r.origin_urls == origin_urls,
    {
        Mirror {
            source: String::from_str(source),
            sync: true,
            index_update_interval: 30,
            origin_urls,
        }
    }
}

/// An IPv4 or IPv6 address, octet by octet or segment by segment.
#[derive(Debug, Clone, Copy, PartialEq, Eq, Structural)]
pub enum IpAddress {
    V4(u8, u8, u8, u8),
    V6(u16, u16, u16, u16, u16, u16, u16, u16),
}

/// The `http` section: how and where the server listens.
#[derive(Debug, Clone)]
pub struct HttpConfig {
    pub domain: String,
    pub ip: IpAddress,
    pub port: u16,
    pub ssl: bool,
    pub cert: String,
    pub key: String,
}

/// The `http` section that a new registry gets.
pub open spec fn is_default_http(h: HttpConfig) -> bool {
    &&& h.domain@ == "localhost"@
    &&& h.ip == IpAddress::V4(0, 0, 0, 0)
    &&& h.port == 80
    &&& !h.ssl
    &&& h.cert@.len() == 0
    &&& h.key@.len() == 0
}

impl Default for HttpConfig {
    fn default() -> (r: HttpConfig)
        ensures
            is_default_http(r),
    {
        HttpConfig {
            domain: String::from_str("localhost"),
            ip: IpAddress::V4(0, 0, 0, 0),
            port: 80,
            ssl: false,
            cert: String::new(),
            key: String::new(),
        }
    }
}

/// The `access` section: which Git services clients may run.
#[derive(Debug, Clone, Copy, PartialEq, Eq, Structural)]
pub struct AccessControl {
    pub receive: bool,
    pub upload: bool,
}

impl Default for AccessControl {
    fn default() -> (r: AccessControl)
        ensures
            r.receive && r.upload,
    {
        AccessControl { receive: true, upload: true }
    }
}

/// The whole of `registry.toml`.
#[derive(Debug, Clone)]
pub struct RegistryConfig {
    pub meta: Meta,
    pub mirror: Option<Mirror>,
    pub http: HttpConfig,
    pub access: AccessControl,
}

impl RegistryConfig {
    /// The configuration of a new private registry named `name`: defaults
    /// everywhere and no mirror section.
    pub fn create(name: &str) -> (r: RegistryConfig)
        ensures
            r.meta.name@ == name@,
            r.mirror is None,
            is_default_http(r.http),
            r.access.receive && r.access.upload,
    {
        RegistryConfig {
            meta: Meta { name: String::from_str(name) },
            mirror: None,
            http: HttpConfig::default(),
            access: AccessControl::default(),
        }
    }

    /// The configuration of a new mirror named `name`: defaults everywhere and
    /// `mirror` as its mirror section.
    pub fn mirror(name: &str, mirror: Mirror) -> (r: RegistryConfig)
        ensures
            r.meta.name@ == name@,
            r.mirror == Some(mirror),
            is_default_http(r.http),
            r.access.receive && r.access.upload,
    {
        RegistryConfig {
            meta: Meta { name: String::from_str(name) },
            mirror: Some(mirror),
            http: HttpConfig::default(),
            access: AccessControl::default(),
        }
    }

    pub fn name(&self) -> (r: &str)
        ensures
            r@ == self.meta.name@,
    {
        self.meta.name.as_str()
    }

    pub fn domain(&self) -> (r: &str)
        ensures
            r@ == self.http.domain@,
    {
        self.http.domain.as_str()
    }

    pub fn ip(&self) -> (r: IpAddress)
        ensures
            r == self.http.ip,
    {
        self.http.ip
    }

    pub fn port(&self) -> (r: u16)
        ensures
            r == self.http.port,
    {
        self.http.port
    }

    pub fn ssl(&self) -> (r: bool)
        ensures
            r == self.http.ssl,
    {
        self.http.ssl
    }

    pub fn receive_on(&self) -> (r: bool)
        ensures
            r == self.access.receive,
    {
        self.access.receive
    }

    pub fn upload_on(&self) -> (r: bool)
        ensures
            r == self.access.upload,
    {
        self.access.upload
    }
}

/// The port a scheme uses when a URL names none.
pub open spec fn default_port(ssl: bool) -> u16 {
    if ssl {
        443
    } else {
        80
    }
}

/// Whether `port` is the default port of the scheme that `ssl` selects.
pub fn is_default_port(port: u16, ssl: bool) -> (r: bool)
    ensures
        r == (port == default_port(ssl)),
{
    if ssl {
        port == 443u16
    } else {
        port == 80u16
    }
}

/// `https` with TLS, else `http`.
pub open spec fn scheme_spec(ssl: bool) -> Seq<char> {
    if ssl {
        "https"@
    } else {
        "http"@
    }
}

/// `:<port>` where the port is not the scheme's default, else nothing.
pub open spec fn port_suffix_spec(port: u16, ssl: bool) -> Seq<char> {
    if port == default_port(ssl) {
        Seq::empty()
    } else {
        seq![':'] + decimal_spec(port as nat)
    }
}

/// `scheme://domain[:port]/name`.
pub open spec fn base_url_spec(c: RegistryConfig) -> Seq<char> {
    scheme_spec(c.http.ssl) + "://"@ + c.http.domain@ + port_suffix_spec(c.http.port, c.http.ssl)
        + seq!['/'] + c.meta.name@
}

/// The URLs that the index of a registry with base URL `base` advertises.
pub open spec fn url_config_spec(base: Seq<char>) -> (Seq<char>, Seq<char>) {
    (base + "/api/v1/crates"@, base)
}

/// A base URL carries a port exactly when the port is not the default of its
/// scheme.
pub proof fn lemma_port_suffix_iff_not_default(port: u16, ssl: bool)
    ensures
        port_suffix_spec(port, ssl).len() > 0 <==> port != default_port(ssl),
{
    lemma_decimal_nonempty(port as nat);
}

/// A registry opened at a root directory.
#[derive(Debug, Clone)]
pub struct Registry {
    root: String,
    config: RegistryConfig,
    index_path: String,
    index_git_path: String,
    crates_path: String,
}

impl Registry {
    pub closed spec fn root_view(&self) -> Seq<char> {
        self.root@
    }

    pub closed spec fn config_view(&self) -> RegistryConfig {
        self.config
    }

    pub closed spec fn index_path_view(&self) -> Seq<char> {
        self.index_path@
    }

    pub closed spec fn index_git_path_view(&self) -> Seq<char> {
        self.index_git_path@
    }

    pub closed spec fn crates_path_view(&self) -> Seq<char> {
        self.crates_path@
    }

    /// The derived paths sit where the layout puts them.
    pub open spec fn wf(&self) -> bool {
        &&& self.index_path_view() == join_spec(self.root_view(), "index"@)
        &&& self.index_git_path_view() == join_spec(self.index_path_view(), ".git"@)
        &&& self.crates_path_view() == join_spec(self.root_view(), "crates"@)
    }

    /// The registry at `root` whose `registry.toml` holds `config`.
    pub fn open(root: &str, config: RegistryConfig) -> (r: Registry)
        ensures
            r.wf(),
            r.root_view() == root@,
            r.config_view() == config,
    {
        let index_path = join(root, "index");
        let index_git_path = join(index_path.as_str(), ".git");
        let crates_path = join(root, "crates");
        Registry { root: String::from_str(root), config, index_path, index_git_path, crates_path }
    }

    /// A new private registry named `name` at `root`.
    pub fn create(root: &str, name: &str) -> (r: Registry)
        ensures
            r.wf(),
            r.root_view() == root@,
            r.config_view().meta.name@ == name@,
            r.config_view().mirror is None,
            is_default_http(r.config_view().http),
            r.config_view().access.receive && r.config_view().access.upload,
    {
        Registry::open(root, RegistryConfig::create(name))
    }

    /// A new mirror named `name` at `root`, with `mirror` as its mirror section.
    pub fn mirror(root: &str, name: &str, mirror: Mirror) -> (r: Registry)
        ensures
            r.wf(),
            r.root_view() == root@,
            r.config_view().meta.name@ == name@,
            r.config_view().mirror == Some(mirror),
            is_default_http(r.config_view().http),
            r.config_view().access.receive && r.config_view().access.upload,
    {
        Registry::open(root, RegistryConfig::mirror(name, mirror))
    }

    pub fn root(&self) -> (r: &String)
        ensures
            r@ == self.root_view(),
    {
        &self.root
    }

    pub fn index_path(&self) -> (r: &String)
        ensures
            r@ == self.index_path_view(),
    {
        &self.index_path
    }

    pub fn index_git_path(&self) -> (r: &String)
        ensures
            r@ == self.index_git_path_view(),
    {
        &self.index_git_path
    }

    pub fn crates_path(&self) -> (r: &String)
        ensures
            r@ == self.crates_path_view(),
    {
        &self.crates_path
    }

    pub fn config(&self) -> (r: &RegistryConfig)
        ensures
            *r == self.config_view(),
    {
        &self.config
    }

    /// The mirror section, where the registry is a mirror.
    pub fn mirror_config(&self) -> (r: Option<&Mirror>)
        ensures
            match r {
                Some(m) => self.config_view().mirror == Some(*m),
                None => self.config_view().mirror is None,
            },
    {
        match &self.config.mirror {
            Some(m) => Some(m),
            None => None,
        }
    }

    /// `scheme://domain[:port]/name`, the public address of the registry.
    pub fn base_url(&self) -> (r: String)
        ensures
            r@ == base_url_spec(self.config_view()),
    {
        let c = &self.config;
        let mut r = String::from_str(if c.http.ssl { "https" } else { "http" });
        r.append("://");
        r.append(c.http.domain.as_str());
        if !is_default_port(c.http.port, c.http.ssl) {
            r.append(":");
            let d = decimal(c.http.port as u64);
            r.append(d.as_str());
        }
        r.append("/");
        r.append(c.meta.name.as_str());
        proof {
            reveal_strlit(":");
            reveal_strlit("/");
        }
        assert(r@ =~= base_url_spec(self.config_view()));
        r
    }

    /// The `dl` and `api` URLs that this registry's index should advertise.
    pub fn url_config(&self) -> (r: UrlConfig)
        ensures
            (r.dl@, r.api@) == url_config_spec(base_url_spec(self.config_view())),
    {
        let api = self.base_url();
        let mut dl = api.clone();
        dl.append("/api/v1/crates");
        UrlConfig { dl, api }
    }
}

} // verus!

verus! {

/// `config.json` must be rewritten unless it was read and already holds the
/// wanted URLs.
pub open spec fn config_json_needs_write_spec(current: Option<UrlConfig>, wanted: UrlConfig) -> bool {
    match current {
        Some(c) => !(c.dl@ == wanted.dl@ && c.api@ == wanted.api@),
        None => true,
    }
}

/// Whether the index's `config.json`, as read (`None` where it could not be
/// read as URLs), must be rewritten to hold `wanted`.
pub fn config_json_needs_write(current: Option<&UrlConfig>, wanted: &UrlConfig) -> (r: bool)
    ensures
        r == config_json_needs_write_spec(
            match current {
                Some(c) => Some(*c),
                None => None,
            },
            *wanted,
        ),
{
    match current {
        Some(c) => !(*c == *wanted),
        None => true,
    }
}

/// Once `config.json` holds the wanted URLs, writing them again changes
/// nothing: the second call finds nothing to write.
pub proof fn lemma_write_config_json_idempotent(wanted: UrlConfig)
    ensures
        !config_json_needs_write_spec(Some(wanted), wanted),
{
}

/// `s` without its trailing `/`s.
pub open spec fn trim_trailing_slashes(s: Seq<char>) -> Seq<char>
    decreases s.len(),
{
    if s.len() > 0 && s.last() == '/' {
        trim_trailing_slashes(s.drop_last())
    } else {
        s
    }
}

/// What follows the last `/` of `s`, or all of `s`.
pub open spec fn last_component(s: Seq<char>) -> Seq<char>
    decreases s.len(),
{
    if s.len() == 0 {
        s
    } else if s.last() == '/' {
        Seq::empty()
    } else {
        last_component(s.drop_last()).push(s.last())
    }
}

/// The name a registry at `path` takes when none is given: the path's last
/// component, which must be a real name (not empty, `.` or `..`).
pub open spec fn name_from_path_spec(path: Seq<char>) -> Option<Seq<char>> {
    let c = last_component(trim_trailing_slashes(path));
    if c.len() == 0 || c == seq!['.'] || c == seq!['.', '.'] {
        None
    } else {
        Some(c)
    }
}

/// The name of a registry at `path` when none is given; a path that ends in
/// no real name is refused.
pub fn registry_name_from_path(path: &str) -> (r: Result<String, crate::error::SkrdError>)
    ensures
        match name_from_path_spec(path@) {
            Some(n) => r matches Ok(s) && s@ == n,
            None => r matches Err(crate::error::SkrdError::StaticCustom(m)) && m@
                == "the registry path provided is invalid"@,
        },
{
    let n = path.unicode_len();
    let mut end: usize = n;
    assert(path@.subrange(0, n as int) =~= path@);
    while end > 0 && path.get_char(end - 1) == '/'
        invariant
            end <= n == path@.len(),
            trim_trailing_slashes(path@.subrange(0, end as int)) == trim_trailing_slashes(path@),
        decreases end,
    {
        assert(path@.subrange(0, end - 1) =~= path@.subrange(0, end as int).drop_last());
        end = end - 1;
    }
    let ghost trimmed = path@.subrange(0, end as int);
    assert(trim_trailing_slashes(trimmed) == trimmed);
    let mut start: usize = end;
    while start > 0 && path.get_char(start - 1) != '/'
        invariant
            start <= end <= n == path@.len(),
            trimmed == path@.subrange(0, end as int),
            last_component(trimmed) == last_component(path@.subrange(0, start as int))
                + path@.subrange(start as int, end as int),
        decreases start,
    {
        proof {
            let pre = path@.subrange(0, start as int);
            assert(pre.drop_last() =~= path@.subrange(0, start - 1));
            assert(last_component(pre) == last_component(pre.drop_last()).push(pre.last()));
            assert(path@.subrange(start - 1, end as int) =~= seq![pre.last()] + path@.subrange(
                start as int,
                end as int,
            ));
            assert(last_component(pre.drop_last()).push(pre.last()) + path@.subrange(
                start as int,
                end as int,
            ) =~= last_component(pre.drop_last()) + path@.subrange(start - 1, end as int));
        }
        start = start - 1;
    }
    proof {
        let pre = path@.subrange(0, start as int);
        if start > 0 {
            assert(pre.last() == '/');
        }
        assert(last_component(pre) =~= Seq::<char>::empty());
        assert(last_component(trimmed) =~= path@.subrange(start as int, end as int));
    }
    let c = path.substring_char(start, end);
    proof {
        reveal_strlit(".");
        reveal_strlit("..");
        assert(seq!['.'] =~= "."@);
        assert(seq!['.', '.'] =~= ".."@);
    }
    if end == start || crate::text::same_text(c, ".") || crate::text::same_text(c, "..") {
        Err(crate::error::SkrdError::StaticCustom("the registry path provided is invalid"))
    } else {
        Ok(String::from_str(c))
    }
}

} // verus!
