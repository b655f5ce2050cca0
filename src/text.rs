//! Number formatting used in URLs and in Git's pkt-line framing.

use vstd::prelude::*;
use vstd::string::*;

verus! {

/// The character of a digit below sixteen, lower case.
pub open spec fn digit_char(d: nat) -> char {
    if d < 10 {
        (('0' as u8) + d) as char
    } else {
        (('a' as u8) + (d - 10)) as char
    }
}

/// Decimal notation of `n`, without leading zeros.
pub open spec fn decimal_spec(n: nat) -> Seq<char>
    decreases n,
{
    if n < 10 {
        seq![digit_char(n)]
    } else {
        decimal_spec(n / 10).push(digit_char(n % 10))
    }
}

/// Four lower-case hexadecimal digits of `n` (which is below 65536).
pub open spec fn hex4_spec(n: nat) -> Seq<char> {
    seq![
        digit_char((n / 4096) % 16),
        digit_char((n / 256) % 16),
        digit_char((n / 16) % 16),
        digit_char(n % 16),
    ]
}

/// Decimal notation is never empty.
pub proof fn lemma_decimal_nonempty(n: nat)
    ensures
        decimal_spec(n).len() >= 1,
    decreases n,
{
    if n >= 10 {
        lemma_decimal_nonempty(n / 10);
    }
}

/// The one-character string of a digit below sixteen.
fn digit_str(d: u64) -> (r: &'static str)
    requires
        d < 16,
    ensures
        r@ == seq![digit_char(d as nat)],
{
    proof {
        reveal_strlit("0");
        reveal_strlit("1");
        reveal_strlit("2");
        reveal_strlit("3");
        reveal_strlit("4");
        reveal_strlit("5");
        reveal_strlit("6");
        reveal_strlit("7");
        reveal_strlit("8");
        reveal_strlit("9");
        reveal_strlit("a");
        reveal_strlit("b");
        reveal_strlit("c");
        reveal_strlit("d");
        reveal_strlit("e");
        reveal_strlit("f");
    }
    let r = match d {
        0 => "0",
        1 => "1",
        2 => "2",
        3 => "3",
        4 => "4",
        5 => "5",
        6 => "6",
        7 => "7",
        8 => "8",
        9 => "9",
        10 => "a",
        11 => "b",
        12 => "c",
        13 => "d",
        14 => "e",
        _ => "f",
    };
    assert(r@ =~= seq![digit_char(d as nat)]);
    r
}

/// Decimal notation of `n`.
pub fn decimal(n: u64) -> (r: String)
    ensures
        r@ == decimal_spec(n as nat),
    decreases n,
{
    if n < 10 {
        String::from_str(digit_str(n))
    } else {
        let mut r = decimal(n / 10);
        r.append(digit_str(n % 10));
        r
    }
}

/// Four lower-case hexadecimal digits of `n`.
pub fn hex4(n: u16) -> (r: String)
    ensures
        r@ == hex4_spec(n as nat),
{
    let v = n as u64;
    let mut r = String::from_str(digit_str((v / 4096) % 16));
    r.append(digit_str((v / 256) % 16));
    r.append(digit_str((v / 16) % 16));
    r.append(digit_str(v % 16));
    assert(r@ =~= hex4_spec(n as nat));
    r
}

} // verus!

verus! {

/// Whether two strings hold the same characters.
pub fn same_text(a: &str, b: &str) -> (r: bool)
    ensures
        r == (a@ == b@),
{
    let n = a.unicode_len();
    if n != b.unicode_len() {
        return false;
    }
    let mut k: usize = 0;
    while k < n
        invariant
            n == a@.len(),
            n == b@.len(),
            k <= n,
            forall|t: int| 0 <= t < k ==> a@[t] == b@[t],
        decreases n - k,
    {
        if a.get_char(k) != b.get_char(k) {
            return false;
        }
        k = k + 1;
    }
    assert(a@ =~= b@);
    true
}

/// Whether `s` ends with `suffix`.
pub fn ends_with(s: &str, suffix: &str) -> (r: bool)
    ensures
        r == (suffix@.len() <= s@.len() && s@.subrange(s@.len() - suffix@.len(), s@.len() as int)
            == suffix@),
{
    let n = s.unicode_len();
    let m = suffix.unicode_len();
    if m > n {
        return false;
    }
    let tail = s.substring_char(n - m, n);
    same_text(tail, suffix)
}

} // verus!

verus! {

/// Whether `s` starts with `prefix`.
pub fn starts_with(s: &str, prefix: &str) -> (r: bool)
    ensures
        r == (prefix@.len() <= s@.len() && s@.subrange(0, prefix@.len() as int) == prefix@),
{
    let n = s.unicode_len();
    let m = prefix.unicode_len();
    if m > n {
        return false;
    }
    let head = s.substring_char(0, m);
    same_text(head, prefix)
}

} // verus!

verus! {

/// The pieces of `s` between `/`s; there is always at least one.
pub open spec fn split_spec(s: Seq<char>) -> Seq<Seq<char>>
    decreases s.len(),
{
    if s.len() == 0 {
        seq![Seq::empty()]
    } else if s.last() == '/' {
        split_spec(s.drop_last()).push(Seq::empty())
    } else {
        let r = split_spec(s.drop_last());
        r.update(r.len() - 1, r.last().push(s.last()))
    }
}

pub proof fn lemma_split_nonempty(s: Seq<char>)
    ensures
        split_spec(s).len() >= 1,
    decreases s.len(),
{
    if s.len() > 0 {
        lemma_split_nonempty(s.drop_last());
    }
}

/// The views of some strings.
pub open spec fn views(v: Seq<String>) -> Seq<Seq<char>> {
    v.map_values(|x: String| x@)
}

/// The pieces of `s` between `/`s.
pub fn split_slash(s: &str) -> (r: Vec<String>)
    ensures
        views(r@) == split_spec(s@),
{
    let n = s.unicode_len();
    let mut out: Vec<String> = Vec::new();
    let mut start: usize = 0;
    let mut i: usize = 0;
    proof {
        assert(views(out@) =~= Seq::<Seq<char>>::empty());
        assert(s@.subrange(0, 0) =~= Seq::<char>::empty());
        assert(split_spec(s@.subrange(0, 0)) == seq![Seq::<char>::empty()]);
        assert(views(out@).push(s@.subrange(0, 0)) =~= split_spec(s@.subrange(0, 0)));
    }
    while i < n
        invariant
            n == s@.len(),
            start <= i <= n,
            views(out@).push(s@.subrange(start as int, i as int)) == split_spec(s@.subrange(0, i as int)),
        decreases n - i,
    {
        let c = s.get_char(i);
        proof {
            let pre = s@.subrange(0, i as int);
            let next = s@.subrange(0, i + 1);
            assert(next.drop_last() =~= pre);
            assert(next.last() == c);
            lemma_split_nonempty(pre);
        }
        if c == '/' {
            let seg = s.substring_char(start, i);
            let ghost before = views(out@);
            out.push(String::from_str(seg));
            proof {
                assert(views(out@) =~= before.push(seg@));
            }
            start = i + 1;
            proof {
                assert(s@.subrange(start as int, i + 1) =~= Seq::<char>::empty());
            }
        } else {
            proof {
                let pre = s@.subrange(0, i as int);
                let r = split_spec(pre);
                assert(s@.subrange(start as int, i + 1) =~= s@.subrange(start as int, i as int).push(c));
                assert(views(out@).push(s@.subrange(start as int, i + 1)) =~= r.update(
                    r.len() - 1,
                    r.last().push(c),
                ));
            }
        }
        i = i + 1;
    }
    let seg = s.substring_char(start, n);
    let ghost before = views(out@);
    out.push(String::from_str(seg));
    proof {
        assert(views(out@) =~= before.push(seg@));
        assert(s@.subrange(0, n as int) =~= s@);
    }
    out
}

} // verus!

verus! {

/// `s` holds no `/`.
pub open spec fn no_slash(s: Seq<char>) -> bool {
    forall|i: int| 0 <= i < s.len() ==> #[trigger] s[i] != '/'
}

/// Text without `/` is one piece.
pub proof fn lemma_split_no_slash(s: Seq<char>)
    requires
        no_slash(s),
    ensures
        split_spec(s) == seq![s],
    decreases s.len(),
{
    if s.len() > 0 {
        let p = s.drop_last();
        assert(no_slash(p));
        lemma_split_no_slash(p);
        assert(p.push(s.last()) =~= s);
        assert(split_spec(s) =~= seq![s]);
    } else {
        assert(s =~= Seq::<char>::empty());
    }
}

/// Splitting at a `/` splits each side on its own.
pub proof fn lemma_split_concat(a: Seq<char>, b: Seq<char>)
    ensures
        split_spec(a + seq!['/'] + b) == split_spec(a) + split_spec(b),
    decreases b.len(),
{
    lemma_split_nonempty(a);
    if b.len() == 0 {
        assert((a + seq!['/'] + b).drop_last() =~= a);
        assert(split_spec(a + seq!['/'] + b) =~= split_spec(a) + split_spec(b));
    } else {
        let p = b.drop_last();
        lemma_split_concat(a, p);
        lemma_split_nonempty(p);
        let whole = a + seq!['/'] + b;
        assert(whole.drop_last() =~= a + seq!['/'] + p);
        assert(whole.last() == b.last());
        if b.last() == '/' {
            assert(split_spec(whole) =~= split_spec(a) + split_spec(b));
        } else {
            let x = split_spec(a);
            let y = split_spec(p);
            assert((x + y).update((x + y).len() - 1, (x + y).last().push(b.last())) =~= x + y.update(
                y.len() - 1,
                y.last().push(b.last()),
            ));
            assert(split_spec(whole) =~= split_spec(a) + split_spec(b));
        }
    }
}

} // verus!
