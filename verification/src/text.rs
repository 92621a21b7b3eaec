//! Searching and cutting text by literal delimiters.
//!
//! Every text is modelled as its sequence of characters (`Seq<char>`, the view
//! of `str` and `String`). The functions here find a delimiter, cut a text at
//! it, look for a literal inside a text and strip surrounding white space.

use vstd::prelude::*;
use vstd::string::*;

verus! {

/// How many characters of `s` stand before the first `c`; the length of `s`
/// when `c` does not occur in it.
pub open spec fn offset_of(s: Seq<char>, c: char) -> int
    decreases s.len(),
{
    if s.len() == 0 || s[0] == c {
        0
    } else {
        1 + offset_of(s.drop_first(), c)
    }
}

/// The part of `s` before the first `c`; all of `s` when `c` does not occur.
pub open spec fn before(s: Seq<char>, c: char) -> Seq<char> {
    s.take(offset_of(s, c))
}

/// The part of `s` after the first `c`; empty when `c` does not occur.
pub open spec fn after(s: Seq<char>, c: char) -> Seq<char> {
    if s.contains(c) {
        s.skip(offset_of(s, c) + 1)
    } else {
        Seq::empty()
    }
}

/// What is left of `s` behind its `n`-th `c`, if `s` holds that many.
pub open spec fn rest_after(s: Seq<char>, c: char, n: nat) -> Option<Seq<char>>
    decreases n,
{
    if n == 0 {
        Some(s)
    } else if s.contains(c) {
        rest_after(after(s, c), c, (n - 1) as nat)
    } else {
        None
    }
}

/// Piece number `n`, counted from 0, of `s` cut at each `c`.
pub open spec fn piece(s: Seq<char>, c: char, n: nat) -> Option<Seq<char>> {
    match rest_after(s, c, n) {
        Some(r) => Some(before(r, c)),
        None => None,
    }
}

/// The text after the first `c` of `p`, if `p` is there and holds `c`.
pub open spec fn value_after(p: Option<Seq<char>>, c: char) -> Option<Seq<char>> {
    match p {
        Some(t) => if t.contains(c) {
            Some(after(t, c))
        } else {
            None
        },
        None => None,
    }
}

/// The text between the first `open` of `p` and the first `close` behind
/// it, if `p` is there and holds both.
pub open spec fn between(p: Option<Seq<char>>, open: char, close: char) -> Option<Seq<char>> {
    match value_after(p, open) {
        Some(t) => if t.contains(close) {
            Some(before(t, close))
        } else {
            None
        },
        None => None,
    }
}

/// The characters of a text that may be absent.
pub open spec fn text_of(o: Option<&str>) -> Option<Seq<char>> {
    match o {
        Some(t) => Some(t@),
        None => None,
    }
}

/// `offset_of` is the least index that holds `c`, and is the length exactly
/// when `c` is absent.
pub proof fn lemma_offset_of(s: Seq<char>, c: char)
    ensures
        0 <= offset_of(s, c) <= s.len(),
        forall|j: int| 0 <= j < offset_of(s, c) ==> s[j] != c,
        offset_of(s, c) < s.len() ==> s[offset_of(s, c)] == c,
        s.contains(c) <==> offset_of(s, c) < s.len(),
    decreases s.len(),
{
    if s.len() == 0 || s[0] == c {
    } else {
        let t = s.drop_first();
        lemma_offset_of(t, c);
        assert forall|j: int| 0 <= j < offset_of(s, c) implies s[j] != c by {
            if j > 0 {
                assert(s[j] == t[j - 1]);
            }
        }
        if offset_of(s, c) < s.len() {
            assert(s[offset_of(s, c)] == t[offset_of(t, c)]);
        }
        if s.contains(c) {
            let k = choose|k: int| 0 <= k < s.len() && s[k] == c;
            assert(t[k - 1] == c);
        }
    }
}

/// An index with no `c` before it, which holds `c` or is the length, is
/// `offset_of`.
pub proof fn lemma_offset_is(s: Seq<char>, c: char, i: int)
    requires
        0 <= i <= s.len(),
        forall|j: int| 0 <= j < i ==> s[j] != c,
        i < s.len() ==> s[i] == c,
    ensures
        offset_of(s, c) == i,
{
    lemma_offset_of(s, c);
}

/// The two parts of a text that holds `c`, with `c` between them, make up the
/// text again.
pub proof fn lemma_before_after(s: Seq<char>, c: char)
    requires
        s.contains(c),
    ensures
        s == before(s, c).push(c) + after(s, c),
        before(s, c).len() + 1 + after(s, c).len() == s.len(),
        !before(s, c).contains(c),
{
    lemma_offset_of(s, c);
    assert(s =~= before(s, c).push(c) + after(s, c));
}

/// `pat` stands in `s` at index `i`.
pub open spec fn occurs_at(s: Seq<char>, pat: Seq<char>, i: int) -> bool {
    0 <= i && i + pat.len() <= s.len() && s.subrange(i, i + pat.len()) == pat
}

/// `pat` stands somewhere in `s`.
pub open spec fn contains_text(s: Seq<char>, pat: Seq<char>) -> bool {
    exists|i: int| occurs_at(s, pat, i)
}

/// Whether a character is white space: one of the characters with the
/// Unicode property White_Space.
pub open spec fn white_space(c: char) -> bool {
    let u = c as u32;
    ||| 0x09 <= u <= 0x0D
    ||| u == 0x20
    ||| u == 0x85
    ||| u == 0xA0
    ||| u == 0x1680
    ||| 0x2000 <= u <= 0x200A
    ||| u == 0x2028
    ||| u == 0x2029
    ||| u == 0x202F
    ||| u == 0x205F
    ||| u == 0x3000
}

/// `s` without its leading white space.
pub open spec fn trim_start(s: Seq<char>) -> Seq<char>
    decreases s.len(),
{
    if s.len() > 0 && white_space(s[0]) {
        trim_start(s.drop_first())
    } else {
        s
    }
}

/// `s` without its trailing white space.
pub open spec fn trim_end(s: Seq<char>) -> Seq<char>
    decreases s.len(),
{
    if s.len() > 0 && white_space(s.last()) {
        trim_end(s.drop_last())
    } else {
        s
    }
}

/// `s` without the white space around it.
pub open spec fn trim(s: Seq<char>) -> Seq<char> {
    trim_end(trim_start(s))
}

/// The lowercase form of a text, as `str::to_lowercase` gives it.
pub uninterp spec fn lowercase_of(s: Seq<char>) -> Seq<char>;

/// `s` with every `c` taken out.
pub open spec fn without(s: Seq<char>, c: char) -> Seq<char>
    decreases s.len(),
{
    if s.len() == 0 {
        s
    } else if s.last() == c {
        without(s.drop_last(), c)
    } else {
        without(s.drop_last(), c).push(s.last())
    }
}

/// Whether `c` is white space.
pub fn is_space(c: char) -> (b: bool)
    ensures
        b == white_space(c),
{
    let u: u32 = c as u32;
    (0x09 <= u && u <= 0x0D) || u == 0x20 || u == 0x85 || u == 0xA0 || u == 0x1680 || (0x2000 <= u
        && u <= 0x200A) || u == 0x2028 || u == 0x2029 || u == 0x202F || u == 0x205F || u == 0x3000
}

/// Calls `str::to_lowercase`, which returns the lowercase equivalent of a
/// text as a new `String`. The contract only gives that text the name
/// `lowercase_of`.
#[verifier::external_body]
pub(crate) fn lowercase(s: &str) -> (r: String)
    ensures
        r@ == lowercase_of(s@),
{
    s.to_lowercase()
}

/// The characters of `s`, one element each.
pub fn chars_of(s: &str) -> (v: Vec<char>)
    ensures
        v@ == s@,
{
    let mut v: Vec<char> = Vec::new();
    for c in it: s.chars()
        invariant
            it.seq() == s@,
            v@ == it.seq().take(it.index() as int),
    {
        v.push(c);
    }
    v
}

/// Cuts `s` at the first `delim`: the part before it, and the part after it
/// if `delim` occurs at all.
pub fn split_first<'a>(s: &'a str, delim: char) -> (parts: (&'a str, Option<&'a str>))
    ensures
        parts.0@ == before(s@, delim),
        match parts.1 {
            Some(rest) => s@.contains(delim) && rest@ == after(s@, delim),
            None => !s@.contains(delim),
        },
{
    let v = chars_of(s);
    let n: usize = v.len();
    let mut i: usize = 0;
    while i < n && v[i] != delim
        invariant
            n == v.len(),
            i <= n,
            forall|j: int| 0 <= j < i ==> v@[j] != delim,
        decreases n - i,
    {
        i += 1;
    }
    proof {
        lemma_offset_is(s@, delim, i as int);
        lemma_offset_of(s@, delim);
    }
    if i < n {
        (s.substring_char(0, i), Some(s.substring_char(i + 1, n)))
    } else {
        assert(s@.take(n as int) =~= s@);
        (s, None)
    }
}

/// What is left of `s` behind its `n`-th `delim`.
pub fn skip_pieces<'a>(s: &'a str, delim: char, n: usize) -> (r: Option<&'a str>)
    ensures
        text_of(r) == rest_after(s@, delim, n as nat),
{
    let mut cur: &str = s;
    let mut k: usize = 0;
    while k < n
        invariant
            k <= n,
            rest_after(s@, delim, n as nat) == rest_after(cur@, delim, (n - k) as nat),
        decreases n - k,
    {
        match split_first(cur, delim).1 {
            Some(t) => {
                cur = t;
            },
            None => {
                return None;
            },
        }
        k += 1;
    }
    Some(cur)
}

/// Piece number `n`, counted from 0, of `s` cut at each `delim`.
pub fn nth_piece<'a>(s: &'a str, delim: char, n: usize) -> (r: Option<&'a str>)
    ensures
        text_of(r) == piece(s@, delim, n as nat),
{
    match skip_pieces(s, delim, n) {
        Some(t) => Some(split_first(t, delim).0),
        None => None,
    }
}

/// The text after the first `delim` of `p`, if `p` is there and holds `delim`.
pub fn value_behind<'a>(p: Option<&'a str>, delim: char) -> (r: Option<&'a str>)
    ensures
        text_of(r) == value_after(text_of(p), delim),
{
    match p {
        Some(t) => split_first(t, delim).1,
        None => None,
    }
}

/// The text between the first `open` of `p` and the first `close` behind
/// it, if `p` is there and holds both.
pub fn text_between<'a>(p: Option<&'a str>, open: char, close: char) -> (r: Option<&'a str>)
    ensures
        text_of(r) == between(text_of(p), open, close),
{
    match value_behind(p, open) {
        Some(t) => {
            let (inner, tail) = split_first(t, close);
            if tail.is_some() {
                Some(inner)
            } else {
                None
            }
        },
        None => None,
    }
}

/// Whether `pat` stands in `hay` at index `i`.
fn matches_at(hay: &Vec<char>, pat: &Vec<char>, i: usize) -> (b: bool)
    requires
        i + pat.len() <= hay.len(),
    ensures
        b == occurs_at(hay@, pat@, i as int),
{
    let m: usize = pat.len();
    let mut k: usize = 0;
    while k < m
        invariant
            m == pat.len(),
            i + m <= hay.len(),
            k <= m,
            forall|j: int| 0 <= j < k ==> hay@[i + j] == pat@[j],
        decreases m - k,
    {
        if hay[i + k] != pat[k] {
            assert(hay@.subrange(i as int, i + m)[k as int] == hay@[i + k]);
            return false;
        }
        k += 1;
    }
    assert(hay@.subrange(i as int, i + m) =~= pat@);
    true
}

/// Whether the literal `pat` stands somewhere in `s`.
pub fn has_text(s: &str, pat: &str) -> (found: bool)
    ensures
        found == contains_text(s@, pat@),
{
    let hay = chars_of(s);
    let needle = chars_of(pat);
    let n: usize = hay.len();
    let m: usize = needle.len();
    if m == 0 {
        assert(s@.subrange(0, 0) =~= pat@);
        assert(occurs_at(s@, pat@, 0));
        return true;
    }
    if m > n {
        return false;
    }
    let last: usize = n - m;
    let mut i: usize = 0;
    while i <= last
        invariant
            hay@ == s@,
            needle@ == pat@,
            n == hay.len(),
            m == needle.len(),
            m > 0,
            last == n - m,
            i <= last + 1,
            forall|k: int| 0 <= k < i ==> !occurs_at(s@, pat@, k),
        decreases last + 1 - i,
    {
        if matches_at(&hay, &needle, i) {
            return true;
        }
        i += 1;
    }
    false
}

/// `s` without the white space around it.
pub fn trimmed<'a>(s: &'a str) -> (t: &'a str)
    ensures
        t@ == trim(s@),
{
    let v = chars_of(s);
    let n: usize = v.len();
    let mut lo: usize = 0;
    assert(v@.skip(0) =~= v@);
    while lo < n && is_space(v[lo])
        invariant
            n == v.len(),
            lo <= n,
            trim_start(v@) == trim_start(v@.skip(lo as int)),
        decreases n - lo,
    {
        assert(v@.skip(lo as int).drop_first() =~= v@.skip(lo + 1));
        lo += 1;
    }
    let mut hi: usize = n;
    while hi > lo && is_space(v[hi - 1])
        invariant
            n == v.len(),
            lo <= hi <= n,
            trim_end(v@.skip(lo as int)) == trim_end(v@.subrange(lo as int, hi as int)),
        decreases hi - lo,
    {
        assert(v@.subrange(lo as int, hi as int).drop_last() =~= v@.subrange(
            lo as int,
            hi - 1,
        ));
        hi -= 1;
    }
    assert(v@.skip(lo as int) =~= v@.subrange(lo as int, n as int));
    s.substring_char(lo, hi)
}

/// Whether `v` holds exactly the characters of `lit`.
pub fn is_text(v: &Vec<char>, lit: &str) -> (b: bool)
    ensures
        b == (v@ == lit@),
{
    let w = chars_of(lit);
    let n: usize = v.len();
    if w.len() != n {
        return false;
    }
    let mut i: usize = 0;
    while i < n
        invariant
            n == v.len(),
            n == w.len(),
            w@ == lit@,
            i <= n,
            forall|j: int| 0 <= j < i ==> v@[j] == w@[j],
        decreases n - i,
    {
        if v[i] != w[i] {
            return false;
        }
        i += 1;
    }
    assert(v@ =~= w@);
    true
}

/// Whether two texts hold the same characters.
pub fn same_text(a: &str, b: &str) -> (same: bool)
    ensures
        same == (a@ == b@),
{
    let v = chars_of(a);
    is_text(&v, b)
}

/// The characters of `s` that are not `c`, in order.
pub fn strip(s: &str, c: char) -> (out: Vec<char>)
    ensures
        out@ == without(s@, c),
{
    let v = chars_of(s);
    let n: usize = v.len();
    let mut out: Vec<char> = Vec::new();
    let mut i: usize = 0;
    while i < n
        invariant
            n == v.len(),
            i <= n,
            out@ == without(v@.take(i as int), c),
        decreases n - i,
    {
        assert(v@.take(i + 1).drop_last() =~= v@.take(i as int));
        if v[i] != c {
            out.push(v[i]);
        }
        i += 1;
    }
    assert(v@.take(n as int) =~= v@);
    out
}

} // verus!
