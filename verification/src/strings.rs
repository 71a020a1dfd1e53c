//! Verified string utilities shared by the emitters: indentation, raw
//! identifier unescaping, trimming, quote stripping, substring search,
//! decimal rendering and parsing of 32-bit integers.

use vstd::prelude::*;

verus! {

/// The sequence of `n` space characters.
pub open spec fn spaces(n: int) -> Seq<char>
    decreases n,
{
    if n <= 0 {
        Seq::<char>::empty()
    } else {
        spaces(n - 1).push(' ')
    }
}

/// Builds a string of `indentation_amount` space characters (a negative
/// amount yields the empty string).
pub fn build_indentation(indentation_amount: i8) -> (r: String)
    ensures
        r@ == spaces(indentation_amount as int),
{
    let mut out = String::new();
    let mut i: i8 = 0;
    while i < indentation_amount
        invariant
            0 <= i,
            i <= indentation_amount || i == 0,
            out@ == spaces(i as int),
        decreases indentation_amount - i,
    {
        out.append(" ");
        proof {
            reveal_strlit(" ");
            assert(out@ =~= spaces(i as int + 1));
        }
        i = i + 1;
    }
    proof {
        if indentation_amount <= 0 {
            assert(out@ =~= spaces(indentation_amount as int));
        }
    }
    out
}

/// True iff the two string slices hold the same characters.
pub fn str_eq(a: &str, b: &str) -> (r: bool)
    ensures
        r == (a@ == b@),
{
    let x: String = a.to_owned();
    let y: String = b.to_owned();
    x == y
}

/// A raw-identifier escape prefix (`r#`) is dropped; other names are kept.
pub open spec fn spec_unraw(s: Seq<char>) -> Seq<char> {
    if s.len() >= 2 && s[0] == 'r' && s[1] == '#' {
        s.subrange(2, s.len() as int)
    } else {
        s
    }
}

/// Strips a leading raw-identifier escape (`r#`) from a name.
pub fn unraw(s: &str) -> (r: String)
    ensures
        r@ == spec_unraw(s@),
{
    let len = s.unicode_len();
    if len >= 2 && s.get_char(0) == 'r' && s.get_char(1) == '#' {
        s.substring_char(2, len).to_owned()
    } else {
        s.to_owned()
    }
}

/// The whitespace characters recognized when trimming.
pub open spec fn is_ws_char(c: char) -> bool {
    c == ' ' || c == '\t' || c == '\n' || c == '\r'
}

/// `s` without its leading whitespace.
pub open spec fn trim_front(s: Seq<char>) -> Seq<char>
    decreases s.len(),
{
    if s.len() > 0 && is_ws_char(s.first()) {
        trim_front(s.drop_first())
    } else {
        s
    }
}

/// `s` without its trailing whitespace.
pub open spec fn trim_back(s: Seq<char>) -> Seq<char>
    decreases s.len(),
{
    if s.len() > 0 && is_ws_char(s.last()) {
        trim_back(s.drop_last())
    } else {
        s
    }
}

/// `s` without leading and trailing whitespace.
pub open spec fn spec_trim(s: Seq<char>) -> Seq<char> {
    trim_back(trim_front(s))
}

proof fn lemma_trim_front_subrange(s: Seq<char>, k: int)
    requires
        0 <= k <= s.len(),
        forall|i: int| 0 <= i < k ==> is_ws_char(#[trigger] s[i]),
        k == s.len() || !is_ws_char(s[k]),
    ensures
        trim_front(s) == s.subrange(k, s.len() as int),
    decreases k,
{
    if k == 0 {
        assert(trim_front(s) =~= s.subrange(0, s.len() as int));
    } else {
        let t = s.drop_first();
        assert(is_ws_char(s.first()));
        assert(forall|i: int| 0 <= i < k - 1 ==> is_ws_char(#[trigger] t[i]));
        lemma_trim_front_subrange(t, k - 1);
        assert(t.subrange(k - 1, t.len() as int) =~= s.subrange(k, s.len() as int));
    }
}

proof fn lemma_trim_back_subrange(s: Seq<char>, k: int)
    requires
        0 <= k <= s.len(),
        forall|i: int| k <= i < s.len() ==> is_ws_char(#[trigger] s[i]),
        k == 0 || !is_ws_char(s[k - 1]),
    ensures
        trim_back(s) == s.subrange(0, k),
    decreases s.len() - k,
{
    if k == s.len() {
        assert(trim_back(s) =~= s.subrange(0, k));
    } else {
        let t = s.drop_last();
        assert(is_ws_char(s.last()));
        lemma_trim_back_subrange(t, k);
        assert(t.subrange(0, k) =~= s.subrange(0, k));
    }
}

fn is_ws(c: char) -> (r: bool)
    ensures
        r == is_ws_char(c),
{
    c == ' ' || c == '\t' || c == '\n' || c == '\r'
}

/// Removes leading and trailing whitespace.
pub fn trim_str(s: &str) -> (r: String)
    ensures
        r@ == spec_trim(s@),
{
    let len = s.unicode_len();
    let mut start: usize = 0;
    while start < len && is_ws(s.get_char(start))
        invariant
            0 <= start <= len,
            len == s@.len(),
            forall|i: int| 0 <= i < start ==> is_ws_char(#[trigger] s@[i]),
        decreases len - start,
    {
        start = start + 1;
    }
    let mut end: usize = len;
    while end > start && is_ws(s.get_char(end - 1))
        invariant
            start <= end <= len,
            len == s@.len(),
            forall|i: int| end <= i < len ==> is_ws_char(#[trigger] s@[i]),
        decreases end,
    {
        end = end - 1;
    }
    proof {
        lemma_trim_front_subrange(s@, start as int);
        let t = s@.subrange(start as int, len as int);
        assert(forall|i: int|
            end - start <= i < t.len() ==> is_ws_char(#[trigger] t[i]));
        if end > start {
            assert(!is_ws_char(t[end - start - 1]));
        }
        lemma_trim_back_subrange(t, end - start);
        assert(t.subrange(0, end - start) =~= s@.subrange(start as int, end as int));
    }
    s.substring_char(start, end).to_owned()
}

/// `s` without its first and last character when it has at least two
/// characters; shorter values are kept unchanged.  This mirrors how a
/// literal token's delimiting quotes are removed.
pub open spec fn spec_strip_edges(s: Seq<char>) -> Seq<char> {
    if s.len() >= 2 {
        s.subrange(1, s.len() - 1)
    } else {
        s
    }
}

/// Removes the first and last character of a literal token (its quotes).
pub fn strip_edges(s: &str) -> (r: String)
    ensures
        r@ == spec_strip_edges(s@),
{
    let len = s.unicode_len();
    if len >= 2 {
        s.substring_char(1, len - 1).to_owned()
    } else {
        s.to_owned()
    }
}

/// True iff `s` holds the letters `Cow` somewhere.
pub open spec fn spec_contains_cow(s: Seq<char>) -> bool {
    exists|i: int| 0 <= i && i + 3 <= s.len() && #[trigger] s.subrange(i, i + 3) == "Cow"@
}

/// Looks for the letters `Cow` anywhere in the identifier.
pub fn contains_cow(s: &str) -> (r: bool)
    ensures
        r == spec_contains_cow(s@),
{
    let len = s.unicode_len();
    if len < 3 {
        assert(!spec_contains_cow(s@));
        return false;
    }
    let mut i: usize = 0;
    while i <= len - 3
        invariant
            3 <= len == s@.len(),
            0 <= i <= len - 2,
            forall|j: int| 0 <= j < i ==> #[trigger] s@.subrange(j, j + 3) != "Cow"@,
        decreases len - i,
    {
        let part = s.substring_char(i, i + 3);
        if str_eq(part, "Cow") {
            assert(s@.subrange(i as int, i as int + 3) == "Cow"@);
            return true;
        }
        i = i + 1;
    }
    assert(forall|j: int| 0 <= j && j + 3 <= s@.len() ==> #[trigger] s@.subrange(j, j + 3) != "Cow"@);
    false
}

/// True iff the extension names a Rust source file: the two letters `rs`
/// in either case.
pub open spec fn spec_is_rs_extension(s: Seq<char>) -> bool {
    s.len() == 2 && (s[0] == 'r' || s[0] == 'R') && (s[1] == 's' || s[1] == 'S')
}

/// Decides whether a file extension (compared ignoring ASCII case) is `rs`.
pub fn check_extension(ext: &str) -> (r: bool)
    ensures
        r == spec_is_rs_extension(ext@),
{
    let len = ext.unicode_len();
    if len != 2 {
        return false;
    }
    let c0 = ext.get_char(0);
    let c1 = ext.get_char(1);
    (c0 == 'r' || c0 == 'R') && (c1 == 's' || c1 == 'S')
}

} // verus!
