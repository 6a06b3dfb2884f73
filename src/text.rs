//! Small string routines with exact contracts over `Seq<char>`.

use vstd::prelude::*;
use vstd::string::*;

verus! {

/// Whether two strings hold the same characters.
pub fn same_text(a: &str, b: &str) -> (r: bool)
    ensures
        r == (a@ == b@),
{
    let x = String::from_str(a);
    let y = String::from_str(b);
    x == y
}

/// The string `a` followed by `b`.
pub fn joined(a: &str, b: &str) -> (r: String)
    ensures
        r@ == a@ + b@,
{
    let mut s = String::from_str(a);
    s.append(b);
    s
}

/// The character for a decimal digit.
pub open spec fn digit_char(d: nat) -> char {
    if d == 0 { '0' }
    else if d == 1 { '1' }
    else if d == 2 { '2' }
    else if d == 3 { '3' }
    else if d == 4 { '4' }
    else if d == 5 { '5' }
    else if d == 6 { '6' }
    else if d == 7 { '7' }
    else if d == 8 { '8' }
    else { '9' }
}

/// The decimal digits of `n`, most significant first, without leading zeros.
pub open spec fn decimal(n: nat) -> Seq<char>
    decreases n,
{
    if n < 10 {
        seq![digit_char(n)]
    } else {
        decimal(n / 10).push(digit_char(n % 10))
    }
}

fn digit_text(d: u64) -> (r: &'static str)
    requires
        d < 10,
    ensures
        r@ == seq![digit_char(d as nat)],
{
    proof {
        reveal_strlit("0");
        reveal_strlit("1");
        reveal_strlit("2");
        reveal_strlit("3");
        reveal_strlit("4");
        reveal_strlit("5");
        reveal_strlit("6");
        reveal_strlit("7");
        reveal_strlit("8");
        reveal_strlit("9");
    }
    if d == 0 { "0" }
    else if d == 1 { "1" }
    else if d == 2 { "2" }
    else if d == 3 { "3" }
    else if d == 4 { "4" }
    else if d == 5 { "5" }
    else if d == 6 { "6" }
    else if d == 7 { "7" }
    else if d == 8 { "8" }
    else { "9" }
}

/// `n` written in decimal.
pub fn decimal_text(n: u64) -> (r: String)
    ensures
        r@ == decimal(n as nat),
    decreases n,
{
    if n < 10 {
        String::from_str(digit_text(n))
    } else {
        let mut s = decimal_text(n / 10);
        s.append(digit_text(n % 10));
        s
    }
}

/// The pieces of `s` between the non-overlapping occurrences of `sep`,
/// scanning from `i` with the current piece begun at `start`; occurrences
/// are taken from the left, as `str::split` takes them.
pub open spec fn split_from(s: Seq<char>, sep: Seq<char>, start: int, i: int) -> Seq<Seq<char>>
    decreases s.len() - i,
{
    if sep.len() == 0 || i < 0 || i + sep.len() > s.len() {
        seq![s.subrange(start, s.len() as int)]
    } else if s.subrange(i, i + sep.len()) == sep {
        seq![s.subrange(start, i)] + split_from(s, sep, i + sep.len(), i + sep.len())
    } else {
        split_from(s, sep, start, i + 1)
    }
}

/// The pieces of `s` between the occurrences of `sep`.
pub open spec fn split_seq(s: Seq<char>, sep: Seq<char>) -> Seq<Seq<char>> {
    split_from(s, sep, 0, 0)
}

/// Splitting always yields at least one piece.
pub proof fn lemma_split_from_nonempty(s: Seq<char>, sep: Seq<char>, start: int, i: int)
    ensures
        split_from(s, sep, start, i).len() >= 1,
    decreases s.len() - i,
{
    if sep.len() == 0 || i < 0 || i + sep.len() > s.len() {
    } else if s.subrange(i, i + sep.len()) == sep {
        lemma_split_from_nonempty(s, sep, i + sep.len(), i + sep.len());
    } else {
        lemma_split_from_nonempty(s, sep, start, i + 1);
    }
}

/// Scanning over characters that cannot begin the separator changes no
/// piece.
pub proof fn lemma_split_skip(s: Seq<char>, sep: Seq<char>, start: int, i: int, j: int)
    requires
        sep.len() > 0,
        0 <= i <= j <= s.len(),
        forall|x: int| i <= x < j ==> s[x] != sep[0],
    ensures
        split_from(s, sep, start, i) == split_from(s, sep, start, j),
    decreases j - i,
{
    if i < j {
        if i + sep.len() <= s.len() {
            assert(s.subrange(i, i + sep.len())[0] != sep[0]);
            lemma_split_skip(s, sep, start, i + 1, j);
        }
    }
}

/// Pieces after a prefix do not depend on it.
pub proof fn lemma_split_shift(p: Seq<char>, t: Seq<char>, sep: Seq<char>, a: int, b: int)
    requires
        sep.len() > 0,
        0 <= a <= b <= t.len(),
    ensures
        split_from(p + t, sep, p.len() + a, p.len() + b) == split_from(t, sep, a, b),
    decreases t.len() - b,
{
    let s = p + t;
    let n = p.len() as int;
    assert(s.subrange(n + a, s.len() as int) =~= t.subrange(a, t.len() as int));
    if b + sep.len() <= t.len() {
        assert(s.subrange(n + b, n + b + sep.len()) =~= t.subrange(b, b + sep.len()));
        assert(s.subrange(n + a, n + b) =~= t.subrange(a, b));
        if t.subrange(b, b + sep.len()) == sep {
            lemma_split_shift(p, t, sep, b + sep.len(), b + sep.len());
        } else {
            lemma_split_shift(p, t, sep, a, b + 1);
        }
    }
}

/// A word free of the separator's first character, then the separator,
/// splits off as the first piece.
pub proof fn lemma_split_first_word(w: Seq<char>, sep: Seq<char>, t: Seq<char>)
    requires
        sep.len() > 0,
        !w.contains(sep[0]),
    ensures
        split_seq(w + sep + t, sep) == seq![w] + split_seq(t, sep),
{
    let s = w + sep + t;
    let n = w.len() as int;
    assert forall|x: int| 0 <= x < n implies s[x] != sep[0] by {
        assert(s[x] == w[x]);
    }
    lemma_split_skip(s, sep, 0, 0, n);
    assert(s.subrange(n, n + sep.len()) =~= sep);
    assert(s.subrange(0, n) =~= w);
    assert(s =~= (w + sep) + t);
    lemma_split_shift(w + sep, t, sep, 0, 0);
}

/// Text free of the separator's first character is a single piece.
pub proof fn lemma_split_single(k: Seq<char>, sep: Seq<char>)
    requires
        sep.len() > 0,
        !k.contains(sep[0]),
    ensures
        split_seq(k, sep) == seq![k],
{
    assert forall|x: int| 0 <= x < k.len() implies k[x] != sep[0] by {}
    lemma_split_skip(k, sep, 0, 0, k.len() as int);
    assert(k.subrange(0, k.len() as int) =~= k);
}

/// Views of a vector of strings.
pub open spec fn texts(v: Seq<String>) -> Seq<Seq<char>> {
    v.map_values(|p: String| p@)
}

fn occurs_at(s: &str, sep: &str, i: usize, n: usize, m: usize) -> (r: bool)
    requires
        n == s@.len(),
        m == sep@.len(),
        i + m <= n,
    ensures
        r == (s@.subrange(i as int, i + m) == sep@),
{
    same_text(s.substring_char(i, i + m), sep)
}

/// `s` cut at each occurrence of the non-empty separator `sep`.
pub fn split_text(s: &str, sep: &str) -> (r: Vec<String>)
    requires
        sep@.len() > 0,
    ensures
        texts(r@) == split_seq(s@, sep@),
{
    let n = s.unicode_len();
    let m = sep.unicode_len();
    let mut parts: Vec<String> = Vec::new();
    let mut start: usize = 0;
    let mut i: usize = 0;
    while m <= n - i
        invariant
            start <= i <= n,
            n == s@.len(),
            m == sep@.len(),
            m > 0,
            texts(parts@) + split_from(s@, sep@, start as int, i as int) == split_seq(s@, sep@),
        decreases n - i,
    {
        let ghost before = texts(parts@);
        let ghost (s0, i0) = (start as int, i as int);
        if occurs_at(s, sep, i, n, m) {
            let piece = String::from_str(s.substring_char(start, i));
            parts.push(piece);
            i = i + m;
            start = i;
            assert(texts(parts@) =~= before.push(piece@));
            assert(split_from(s@, sep@, s0, i0) == seq![s@.subrange(s0, i0)] + split_from(
                s@,
                sep@,
                i as int,
                i as int,
            ));
            assert(texts(parts@) + split_from(s@, sep@, start as int, i as int)
                =~= before + split_from(s@, sep@, s0, i0));
        } else {
            i = i + 1;
        }
    }
    let ghost before = texts(parts@);
    let last = String::from_str(s.substring_char(start, n));
    parts.push(last);
    assert(texts(parts@) =~= before + split_from(s@, sep@, start as int, i as int));
    parts
}

/// Whether `c` occurs in `s`.
pub fn has_char(s: &str, c: char) -> (r: bool)
    ensures
        r == s@.contains(c),
{
    let n = s.unicode_len();
    let mut i: usize = 0;
    while i < n
        invariant
            i <= n,
            n == s@.len(),
            forall|j: int| 0 <= j < i ==> s@[j] != c,
        decreases n - i,
    {
        if s.get_char(i) == c {
            return true;
        }
        i = i + 1;
    }
    false
}

/// The characters of an optional string.
pub open spec fn opt_text(o: Option<String>) -> Option<Seq<char>> {
    match o {
        Some(s) => Some(s@),
        None => None,
    }
}

/// A copy of an optional string.
pub fn copy_opt(o: &Option<String>) -> (r: Option<String>)
    ensures
        opt_text(r) == opt_text(*o),
{
    match o {
        Some(s) => Some(s.clone()),
        None => None,
    }
}

/// The string for literal text `t`.
pub fn text_of(t: &str) -> (r: String)
    ensures
        r@ == t@,
{
    String::from_str(t)
}

} // verus!
