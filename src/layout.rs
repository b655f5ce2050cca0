//! Where things live in a registry directory and in its archive tree.

use vstd::prelude::*;
use vstd::string::*;

verus! {

/// Joins two path pieces with exactly one separator between them; an empty
/// base leaves the child alone.
pub open spec fn join_spec(base: Seq<char>, child: Seq<char>) -> Seq<char> {
    if base.len() == 0 {
        child
    } else if base.last() == '/' {
        base + child
    } else {
        base + seq!['/'] + child
    }
}

/// File name of an archive: `<name>-<version>.crate`.
pub open spec fn archive_file_spec(name: Seq<char>, version: Seq<char>) -> Seq<char> {
    name + seq!['-'] + version + seq!['.', 'c', 'r', 'a', 't', 'e']
}

/// The sharded path of an archive, relative to the archive tree.
pub open spec fn crate_path_spec(name: Seq<char>, version: Seq<char>) -> Seq<char> {
    let tail = name + seq!['/'] + archive_file_spec(name, version);
    if name.len() == 1 {
        seq!['1', '/'] + tail
    } else if name.len() == 2 {
        seq!['2', '/'] + tail
    } else if name.len() == 3 {
        seq!['3', '/'] + name.subrange(0, 1) + seq!['/'] + tail
    } else {
        name.subrange(0, 2) + seq!['/'] + name.subrange(2, 4) + seq!['/'] + tail
    }
}

/// `base` joined with `child`.
pub fn join(base: &str, child: &str) -> (r: String)
    ensures
        r@ == join_spec(base@, child@),
{
    let n = base.unicode_len();
    if n == 0 {
        return String::from_str(child);
    }
    let mut r = String::from_str(base);
    if base.get_char(n - 1) == '/' {
        r.append(child);
    } else {
        r.append("/");
        proof {
            reveal_strlit("/");
        }
        r.append(child);
    }
    r
}

/// The sharded path of the archive of `name` at `version`.
pub fn get_crate_path(name: &str, version: &str) -> (r: String)
    requires
        name@.len() >= 1,
    ensures
        r@ == crate_path_spec(name@, version@),
{
    proof {
        reveal_strlit("/");
        reveal_strlit("-");
        reveal_strlit(".crate");
        reveal_strlit("1/");
        reveal_strlit("2/");
        reveal_strlit("3/");
    }
    let n = name.unicode_len();
    let mut r = if n == 1 {
        String::from_str("1/")
    } else if n == 2 {
        String::from_str("2/")
    } else if n == 3 {
        let mut p = String::from_str("3/");
        p.append(name.substring_char(0, 1));
        p.append("/");
        p
    } else {
        let mut p = String::from_str(name.substring_char(0, 2));
        p.append("/");
        p.append(name.substring_char(2, 4));
        p.append("/");
        p
    };
    r.append(name);
    r.append("/");
    r.append(name);
    r.append("-");
    r.append(version);
    r.append(".crate");
    proof {
        assert(r@ =~= crate_path_spec(name@, version@));
    }
    r
}

} // verus!
