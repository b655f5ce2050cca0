//! Reading the `service` parameter of an `info/refs` query string.

use vstd::prelude::*;
use vstd::string::*;

verus! {

/// The text that introduces the service in a query string.
pub open spec fn service_head() -> Seq<char> {
    "service=git-"@
}

/// `pat` occurs in `q` starting at `i`.
pub open spec fn occurs_at(q: Seq<char>, pat: Seq<char>, i: int) -> bool {
    0 <= i && i + pat.len() <= q.len() && q.subrange(i, i + pat.len()) == pat
}

/// `i` is the first place where `pat` occurs in `q`.
pub open spec fn first_occurrence(q: Seq<char>, pat: Seq<char>, i: int) -> bool {
    occurs_at(q, pat, i) && forall|j: int| 0 <= j < i ==> !occurs_at(q, pat, j)
}

/// `end` is the first `&` at or after `start`, or the end of `q`.
pub open spec fn value_end(q: Seq<char>, start: int, end: int) -> bool {
    &&& start <= end <= q.len()
    &&& (end == q.len() || q[end] == '&')
    &&& forall|k: int| start <= k < end ==> q[k] != '&'
}

/// `v` is the service named by query string `q`: what follows the first
/// `service=git-`, up to the next `&` or the end.
pub open spec fn service_in_query(q: Seq<char>, v: Seq<char>) -> bool {
    exists|i: int, e: int|
        #![trigger first_occurrence(q, service_head(), i), value_end(q, i + service_head().len(), e)]
        first_occurrence(q, service_head(), i) && value_end(q, i + service_head().len(), e)
            && v == q.subrange(i + service_head().len(), e)
}

/// A query string names at most one service.
pub proof fn lemma_service_unique(q: Seq<char>, v: Seq<char>, w: Seq<char>)
    requires
        service_in_query(q, v),
        service_in_query(q, w),
    ensures
        v == w,
{
    let (i, e) = choose|i: int, e: int|
        #![trigger first_occurrence(q, service_head(), i), value_end(q, i + service_head().len(), e)]
        first_occurrence(q, service_head(), i) && value_end(q, i + service_head().len(), e)
            && v == q.subrange(i + service_head().len(), e);
    let (i2, e2) = choose|i: int, e: int|
        #![trigger first_occurrence(q, service_head(), i), value_end(q, i + service_head().len(), e)]
        first_occurrence(q, service_head(), i) && value_end(q, i + service_head().len(), e)
            && w == q.subrange(i + service_head().len(), e);
    if i < i2 {
        assert(!occurs_at(q, service_head(), i));
    }
    if i2 < i {
        assert(!occurs_at(q, service_head(), i2));
    }
    assert(i == i2);
    if e < e2 {
        assert(q[e] != '&');
    }
    if e2 < e {
        assert(q[e2] != '&');
    }
}

/// Whether `pat` occurs in `q` at `i`; `n` and `m` are their lengths.
fn matches_at(q: &str, n: usize, pat: &str, m: usize, i: usize) -> (r: bool)
    requires
        n == q@.len(),
        m == pat@.len(),
        i + m <= n,
    ensures
        r == occurs_at(q@, pat@, i as int),
{
    let mut k: usize = 0;
    while k < m
        invariant
            n == q@.len(),
            m == pat@.len(),
            i + m <= n,
            k <= m,
            forall|t: int| 0 <= t < k ==> q@[i + t] == pat@[t],
        decreases m - k,
    {
        if q.get_char(i + k) != pat.get_char(k) {
            assert(q@.subrange(i as int, i + m)[k as int] != pat@[k as int]);
            return false;
        }
        k = k + 1;
    }
    assert(q@.subrange(i as int, i + m) =~= pat@);
    true
}

/// The service named by the query string: what follows the first
/// `service=git-`, up to the next `&` or the end; `None` where there is no
/// `service=git-`.
pub fn get_service_from_query_string(query: &str) -> (r: Option<&str>)
    ensures
        r is None <==> forall|i: int| !occurs_at(query@, service_head(), i),
        r matches Some(v) ==> service_in_query(query@, v@),
{
    let head = "service=git-";
    proof {
        reveal_strlit("service=git-");
    }
    let n = query.unicode_len();
    let m = head.unicode_len();
    if n < m {
        return None;
    }
    let mut i: usize = 0;
    while i <= n - m
        invariant
            n == query@.len(),
            m == head@.len(),
            head@ == service_head(),
            1 <= m <= n,
            i <= n - m + 1,
            forall|j: int| 0 <= j < i ==> !occurs_at(query@, service_head(), j),
        decreases n + 1 - i,
    {
        if matches_at(query, n, head, m, i) {
            let start = i + m;
            let mut e: usize = start;
            while e < n && query.get_char(e) != '&'
                invariant
                    n == query@.len(),
                    start <= e <= n,
                    forall|k: int| start <= k < e ==> query@[k] != '&',
                decreases n - e,
            {
                e = e + 1;
            }
            let v = query.substring_char(start, e);
            assert(first_occurrence(query@, service_head(), i as int));
            assert(value_end(query@, i + service_head().len(), e as int));
            return Some(v);
        }
        i = i + 1;
    }
    assert forall|j: int| !occurs_at(query@, service_head(), j) by {
        if 0 <= j && j + m <= n {
            assert(j < i);
        }
    }
    None
}

} // verus!
