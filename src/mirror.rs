//! The decisions of the mirror pipeline: which index files hold records, where
//! each archive goes, where it is fetched from, whether a fetched archive is
//! kept, and how the outcomes are counted.

use crate::error::SkrdError;
use crate::layout::{crate_path_spec, get_crate_path, join, join_spec};
use crate::registry::{Mirror, Registry};
use crate::text::{decimal, digit_char, ends_with, same_text, starts_with};
use hex::FromHex;
use sha2::Digest;
use vstd::prelude::*;
use vstd::string::*;

verus! {

/// One line of an index file: a published version of a crate.
#[derive(Debug, Clone)]
pub struct CrateMeta {
    pub name: String,
    pub version: String,
    pub checksum: [u8; 32],
    pub yanked: bool,
}

impl CrateMeta {
    /// A record names a crate.
    pub open spec fn wf(&self) -> bool {
        self.name@.len() >= 1
    }
}

/// A hexadecimal digit of either case.
pub open spec fn is_hex_digit(c: char) -> bool {
    ('0' <= c && c <= '9') || ('a' <= c && c <= 'f') || ('A' <= c && c <= 'F')
}

/// The value of a hexadecimal digit.
pub open spec fn hex_value(c: char) -> int {
    if '0' <= c && c <= '9' {
        (c as int) - ('0' as int)
    } else if 'a' <= c && c <= 'f' {
        (c as int) - ('a' as int) + 10
    } else {
        (c as int) - ('A' as int) + 10
    }
}

/// Sixty-four hexadecimal digits: the text of a SHA-256 checksum.
pub open spec fn is_checksum_text(s: Seq<char>) -> bool {
    s.len() == 64 && forall|i: int| 0 <= i < s.len() ==> is_hex_digit(#[trigger] s[i])
}

/// The bytes that hexadecimal text `s` spells, two digits each.
pub open spec fn hex_decode_spec(s: Seq<char>) -> Seq<u8> {
    Seq::new(
        (s.len() / 2) as nat,
        |i: int| (16 * hex_value(s[2 * i]) + hex_value(s[2 * i + 1])) as u8,
    )
}

/// Lower-case hexadecimal text of `b`, two digits per byte.
pub open spec fn hex_encode_spec(b: Seq<u8>) -> Seq<char> {
    Seq::new(
        2 * b.len(),
        |i: int|
            if i % 2 == 0 {
                digit_char((b[i / 2] / 16) as nat)
            } else {
                digit_char((b[i / 2] % 16) as nat)
            },
    )
}

/// The SHA-256 digest of some bytes.
pub uninterp spec fn sha256_of(data: Seq<u8>) -> Seq<u8>;

/// Relies on `<[u8; 32] as hex::FromHex>::from_hex`: it accepts exactly
/// sixty-four hexadecimal digits of either case and gives the bytes they
/// spell.
#[verifier::external_body]
fn decode_checksum(s: &str) -> (r: Option<[u8; 32]>)
    ensures
        r is Some <==> is_checksum_text(s@),
        r matches Some(b) ==> b@ == hex_decode_spec(s@),
{
    <[u8; 32]>::from_hex(s).ok()
}

/// Relies on `hex::encode`: two lower-case digits per byte.
#[verifier::external_body]
fn hex_encode(b: &[u8]) -> (r: String)
    ensures
        r@ == hex_encode_spec(b@),
{
    hex::encode(b)
}

/// Relies on `sha2::Sha256` through `digest::Digest::digest`: the digest of
/// `data`, thirty-two bytes long.
#[verifier::external_body]
fn sha256(data: &[u8]) -> (r: Vec<u8>)
    ensures
        r@ == sha256_of(data@),
        r@.len() == 32,
{
    sha2::Sha256::digest(data).to_vec()
}

/// `<name>-<version>`.
pub open spec fn crate_label_spec(name: Seq<char>, version: Seq<char>) -> Seq<char> {
    name + seq!['-'] + version
}

impl CrateMeta {
    /// The record built from the fields of an index line, the checksum still
    /// as text. Refused where the name is empty or the checksum is not
    /// sixty-four hexadecimal digits.
    pub fn from_fields(name: &str, version: &str, cksum: &str, yanked: bool) -> (r: Result<
        CrateMeta,
        SkrdError,
    >)
        ensures
            r is Ok <==> (name@.len() >= 1 && is_checksum_text(cksum@)),
            r matches Ok(m) ==> {
                &&& m.wf()
                &&& m.name@ == name@
                &&& m.version@ == version@
                &&& m.checksum@ == hex_decode_spec(cksum@)
                &&& m.yanked == yanked
            },
            r matches Err(e) ==> e is Json,
    {
        if name.unicode_len() == 0 {
            return Err(SkrdError::Json(String::from_str("empty crate name")));
        }
        match decode_checksum(cksum) {
            Some(checksum) => Ok(
                CrateMeta {
                    name: String::from_str(name),
                    version: String::from_str(version),
                    checksum,
                    yanked,
                },
            ),
            None => Err(SkrdError::Json(String::from_str("invalid checksum"))),
        }
    }

    /// `<name>-<version>`, how a record is named in messages.
    pub fn label(&self) -> (r: String)
        ensures
            r@ == crate_label_spec(self.name@, self.version@),
    {
        let mut r = self.name.clone();
        r.append("-");
        r.append(self.version.as_str());
        proof {
            reveal_strlit("-");
        }
        r
    }
}

/// `s` is `name`, or ends with `/` and `name`: its last component is `name`.
pub open spec fn file_name_is(s: Seq<char>, name: Seq<char>) -> bool {
    s == name || (name.len() + 1 <= s.len() && s.subrange(s.len() - name.len() - 1, s.len() as int)
        == seq!['/'] + name)
}

/// `s` is `dir` or lies under it.
pub open spec fn is_under(s: Seq<char>, dir: Seq<char>) -> bool {
    s == dir || (dir.len() + 1 <= s.len() && s.subrange(0, dir.len() + 1 as int) == dir + seq!['/'])
}

/// Whether the file at `rel`, a path relative to the index written with `/`,
/// holds crate records: everything but the Git directory and `config.json`.
pub fn is_index_record_file(rel: &str) -> (r: bool)
    ensures
        r == (!is_under(rel@, ".git"@) && !file_name_is(rel@, "config.json"@)),
{
    proof {
        reveal_strlit(".git");
        reveal_strlit(".git/");
        reveal_strlit("config.json");
        reveal_strlit("/config.json");
    }
    let under_git = same_text(rel, ".git") || starts_with(rel, ".git/");
    let is_config = same_text(rel, "config.json") || ends_with(rel, "/config.json");
    assert(".git"@ + seq!['/'] =~= ".git/"@);
    assert(seq!['/'] + "config.json"@ =~= "/config.json"@);
    !under_git && !is_config
}

/// `<dl>/<name>/<version>/download`.
pub open spec fn download_url_spec(dl: Seq<char>, name: Seq<char>, version: Seq<char>) -> Seq<
    char,
> {
    dl + seq!['/'] + name + seq!['/'] + version + "/download"@
}

/// Where the archive of `meta` is fetched from, given the upstream's `dl` URL.
pub fn download_url(dl: &str, meta: &CrateMeta) -> (r: String)
    ensures
        r@ == download_url_spec(dl@, meta.name@, meta.version@),
{
    let mut r = String::from_str(dl);
    r.append("/");
    r.append(meta.name.as_str());
    r.append("/");
    r.append(meta.version.as_str());
    r.append("/download");
    proof {
        reveal_strlit("/");
    }
    assert(r@ =~= download_url_spec(dl@, meta.name@, meta.version@));
    r
}

/// Where the archive of `meta` lies under the archive tree at `root`.
pub open spec fn destination_spec(root: Seq<char>, meta: CrateMeta) -> Seq<char> {
    join_spec(root, crate_path_spec(meta.name@, meta.version@))
}

/// Where the archive of `meta` is stored under the archive tree at
/// `crates_path`.
pub fn crate_destination(crates_path: &str, meta: &CrateMeta) -> (r: String)
    requires
        meta.wf(),
    ensures
        r@ == destination_spec(crates_path@, *meta),
{
    let p = get_crate_path(meta.name.as_str(), meta.version.as_str());
    join(crates_path, p.as_str())
}

/// The mirror section that the pipeline downloads from; a registry that is
/// not a mirror is refused.
pub fn mirror_for_download(registry: &Registry) -> (r: Result<&Mirror, SkrdError>)
    ensures
        match r {
            Ok(m) => registry.config_view().mirror == Some(*m),
            Err(e) => registry.config_view().mirror is None && (e matches SkrdError::Custom(msg)
                && msg@ == "Registry '"@ + registry.config_view().meta.name@
                + "' does not seem to be a mirror."@),
        },
{
    match registry.mirror_config() {
        Some(m) => Ok(m),
        None => {
            let mut msg = String::from_str("Registry '");
            msg.append(registry.config().name());
            msg.append("' does not seem to be a mirror.");
            Err(SkrdError::Custom(msg))
        },
    }
}

/// Whether `digest` is the checksum that `meta` records; the error names both.
pub fn check_digest(meta: &CrateMeta, digest: &[u8]) -> (r: Result<(), SkrdError>)
    ensures
        r is Ok <==> digest@ == meta.checksum@,
        r matches Err(e) ==> (e matches SkrdError::Custom(msg) && msg@ == "Crate "@
            + crate_label_spec(meta.name@, meta.version@) + " checksum error: expected="@
            + hex_encode_spec(meta.checksum@) + ", actual="@ + hex_encode_spec(digest@)),
{
    let mut same = digest.len() == 32;
    let mut i: usize = if same { 0 } else { 32 };
    while i < 32
        invariant
            meta.checksum@.len() == 32,
            same ==> digest@.len() == 32,
            i <= 32,
            i < 32 ==> same,
            same ==> forall|k: int| 0 <= k < i ==> digest@[k] == meta.checksum@[k],
            !same ==> digest@ != meta.checksum@,
        decreases 32 - i,
    {
        if digest[i] != meta.checksum[i] {
            same = false;
            i = 32;
        } else {
            i = i + 1;
        }
    }
    if same {
        assert(digest@ =~= meta.checksum@);
        Ok(())
    } else {
        let mut msg = String::from_str("Crate ");
        let label = meta.label();
        msg.append(label.as_str());
        msg.append(" checksum error: expected=");
        let expected = hex_encode(meta.checksum.as_slice());
        msg.append(expected.as_str());
        msg.append(", actual=");
        let actual = hex_encode(digest);
        msg.append(actual.as_str());
        Err(SkrdError::Custom(msg))
    }
}

/// Whether an HTTP status is a success.
pub open spec fn is_success(status: u16) -> bool {
    200 <= status < 300
}

/// Whether a fetched archive is kept: the answer must be a success and the
/// body's SHA-256 must be the checksum that `meta` records. Only a kept body
/// is written.
pub fn accept_download(meta: &CrateMeta, status: u16, body: &[u8]) -> (r: Result<(), SkrdError>)
    ensures
        r is Ok <==> (is_success(status) && sha256_of(body@) == meta.checksum@),
        !is_success(status) ==> (r matches Err(SkrdError::Custom(msg)) && msg@
            == "Http Response status: "@ + crate::text::decimal_spec(status as nat)),
{
    if status < 200 || status >= 300 {
        let mut msg = String::from_str("Http Response status: ");
        let d = decimal(status as u64);
        msg.append(d.as_str());
        return Err(SkrdError::Custom(msg));
    }
    let digest = sha256(body);
    check_digest(meta, digest.as_slice())
}

} // verus!

verus! {

/// What became of one record.
#[derive(Debug, Clone, Copy, PartialEq, Eq, Structural)]
pub enum Outcome {
    /// The archive was already there.
    Present,
    /// The archive was fetched, verified and written.
    Downloaded,
    /// Fetching or verifying the archive failed.
    Failed,
}

/// The counters of a run: records checked, archives downloaded, failures.
#[derive(Debug, Clone, Copy, PartialEq, Eq, Structural)]
pub struct Tally {
    pub checked: u64,
    pub downloaded: u64,
    pub failed: u64,
}

/// How many of `outcomes` are `o`.
pub open spec fn count_of(outcomes: Seq<Outcome>, o: Outcome) -> nat
    decreases outcomes.len(),
{
    if outcomes.len() == 0 {
        0
    } else {
        count_of(outcomes.drop_last(), o) + if outcomes.last() == o {
            1nat
        } else {
            0nat
        }
    }
}

impl Tally {
    pub fn new() -> (r: Tally)
        ensures
            r.checked == 0 && r.downloaded == 0 && r.failed == 0,
    {
        Tally { checked: 0, downloaded: 0, failed: 0 }
    }

    /// Counts one more record: every record is checked, and a download or a
    /// failure is counted as such.
    pub fn record(&mut self, o: Outcome)
        requires
            old(self).checked < u64::MAX,
            old(self).downloaded < u64::MAX,
            old(self).failed < u64::MAX,
        ensures
            final(self).checked == old(self).checked + 1,
            final(self).downloaded == old(self).downloaded + if o == Outcome::Downloaded {
                1int
            } else {
                0int
            },
            final(self).failed == old(self).failed + if o == Outcome::Failed {
                1int
            } else {
                0int
            },
    {
        self.checked = self.checked + 1;
        match o {
            Outcome::Downloaded => {
                self.downloaded = self.downloaded + 1;
            },
            Outcome::Failed => {
                self.failed = self.failed + 1;
            },
            Outcome::Present => {},
        }
    }

    /// The counters of two parts of a run, added field by field.
    pub fn merge(&self, o: &Tally) -> (r: Tally)
        requires
            self.checked + o.checked <= u64::MAX,
            self.downloaded + o.downloaded <= u64::MAX,
            self.failed + o.failed <= u64::MAX,
        ensures
            r.checked == self.checked + o.checked,
            r.downloaded == self.downloaded + o.downloaded,
            r.failed == self.failed + o.failed,
    {
        Tally {
            checked: self.checked + o.checked,
            downloaded: self.downloaded + o.downloaded,
            failed: self.failed + o.failed,
        }
    }
}

/// The counters of the records of one index file, from their outcomes.
pub fn tally_outcomes(outcomes: &Vec<Outcome>) -> (r: Tally)
    ensures
        r.checked == outcomes@.len(),
        r.downloaded == count_of(outcomes@, Outcome::Downloaded),
        r.failed == count_of(outcomes@, Outcome::Failed),
{
    let mut t = Tally::new();
    let mut i: usize = 0;
    while i < outcomes.len()
        invariant
            i <= outcomes@.len(),
            t.checked == i,
            t.downloaded == count_of(outcomes@.subrange(0, i as int), Outcome::Downloaded),
            t.failed == count_of(outcomes@.subrange(0, i as int), Outcome::Failed),
            t.downloaded <= i,
            t.failed <= i,
        decreases outcomes@.len() - i,
    {
        proof {
            let next = outcomes@.subrange(0, i + 1);
            assert(next.drop_last() =~= outcomes@.subrange(0, i as int));
        }
        t.record(outcomes[i]);
        i = i + 1;
    }
    assert(outcomes@.subrange(0, i as int) =~= outcomes@);
    t
}

/// The positions of the records whose archive is missing, in order.
pub open spec fn missing_spec(present: Seq<bool>) -> Seq<int>
    decreases present.len(),
{
    if present.len() == 0 {
        Seq::empty()
    } else if present.last() {
        missing_spec(present.drop_last())
    } else {
        missing_spec(present.drop_last()).push(present.len() - 1)
    }
}

/// The positions of the records whose archive is missing, given for each
/// record whether its archive is already there.
pub fn missing_records(present: &Vec<bool>) -> (r: Vec<usize>)
    ensures
        r@.map_values(|k: usize| k as int) == missing_spec(present@),
{
    let mut r: Vec<usize> = Vec::new();
    let mut i: usize = 0;
    while i < present.len()
        invariant
            i <= present@.len(),
            r@.map_values(|k: usize| k as int) == missing_spec(present@.subrange(0, i as int)),
        decreases present@.len() - i,
    {
        proof {
            let next = present@.subrange(0, i + 1);
            assert(next.drop_last() =~= present@.subrange(0, i as int));
        }
        if !present[i] {
            r.push(i);
        }
        proof {
            let next = present@.subrange(0, i + 1);
            assert(r@.map_values(|k: usize| k as int) =~= missing_spec(next));
        }
        i = i + 1;
    }
    assert(present@.subrange(0, i as int) =~= present@);
    r
}

/// A position is missing exactly when its archive is not there.
pub proof fn lemma_missing_contains(present: Seq<bool>, k: int)
    ensures
        missing_spec(present).contains(k) <==> (0 <= k < present.len() && !present[k]),
    decreases present.len(),
{
    if present.len() > 0 {
        let rest = present.drop_last();
        lemma_missing_contains(rest, k);
        if !present.last() {
            assert(missing_spec(present) == missing_spec(rest).push(present.len() - 1));
            if missing_spec(present).contains(k) && k != present.len() - 1 {
                let j = choose|j: int|
                    0 <= j < missing_spec(present).len() && missing_spec(present)[j] == k;
                assert(missing_spec(rest)[j] == k);
            }
            if 0 <= k < rest.len() && !present[k] {
                let j = choose|j: int| 0 <= j < missing_spec(rest).len() && missing_spec(rest)[j] == k;
                assert(missing_spec(present)[j] == k);
            }
            if k == present.len() - 1 {
                assert(missing_spec(present)[missing_spec(rest).len() as int] == k);
            }
        }
    }
}

/// For each record, whether its archive is among the files in `files`.
pub open spec fn presence(root: Seq<char>, metas: Seq<CrateMeta>, files: Set<Seq<char>>) -> Seq<
    bool,
> {
    Seq::new(metas.len(), |i: int| files.contains(destination_spec(root, metas[i])))
}

/// The archives that a run writes when every missing one is fetched.
pub open spec fn fetched(root: Seq<char>, metas: Seq<CrateMeta>, files: Set<Seq<char>>) -> Set<
    Seq<char>,
> {
    Set::new(
        |p: Seq<char>|
            exists|k: int|
                missing_spec(presence(root, metas, files)).contains(k) && p == destination_spec(
                    root,
                    #[trigger] metas[k],
                ),
    )
}

/// An update after a complete one, with the index unchanged, finds no archive
/// missing and so downloads nothing.
pub proof fn lemma_update_idempotent(root: Seq<char>, metas: Seq<CrateMeta>, files: Set<Seq<char>>)
    ensures
        missing_spec(presence(root, metas, files.union(fetched(root, metas, files)))).len() == 0,
{
    let after = files.union(fetched(root, metas, files));
    let second = presence(root, metas, after);
    let first = presence(root, metas, files);
    assert forall|k: int| 0 <= k < metas.len() implies second[k] by {
        if !files.contains(destination_spec(root, metas[k])) {
            lemma_missing_contains(first, k);
            assert(fetched(root, metas, files).contains(destination_spec(root, metas[k])));
        }
    }
    if missing_spec(second).len() > 0 {
        let k = missing_spec(second)[0];
        assert(missing_spec(second).contains(k));
        lemma_missing_contains(second, k);
    }
}

} // verus!
