//! Character classes and small string builders shared by the lexer, the
//! unit registry and the category names.
use vstd::prelude::*;

verus! {

/// `c` is one of the ASCII decimal digits `0`..`9`.
pub open spec fn is_digit(c: char) -> bool {
    '0' <= c && c <= '9'
}

/// `c` is an ASCII letter.
pub open spec fn is_alpha(c: char) -> bool {
    ('a' <= c && c <= 'z') || ('A' <= c && c <= 'Z')
}

/// `c` is an ASCII letter or digit.
pub open spec fn is_alnum(c: char) -> bool {
    is_alpha(c) || is_digit(c)
}

/// `c` has the Unicode `White_Space` property (the set that `char::is_whitespace`
/// and `str::trim` use).
pub open spec fn is_white_space(c: char) -> bool {
    ||| ('\u{9}' <= c && c <= '\u{d}')
    ||| c == ' '
    ||| c == '\u{85}'
    ||| c == '\u{a0}'
    ||| c == '\u{1680}'
    ||| ('\u{2000}' <= c && c <= '\u{200a}')
    ||| c == '\u{2028}'
    ||| c == '\u{2029}'
    ||| c == '\u{202f}'
    ||| c == '\u{205f}'
    ||| c == '\u{3000}'
}

/// ASCII lower-casing of one character.
pub open spec fn ascii_lower_char(c: char) -> char {
    if 'A' <= c && c <= 'Z' {
        ((c as int) + 32) as char
    } else {
        c
    }
}

/// ASCII lower-casing of a character sequence.
pub open spec fn ascii_lower(s: Seq<char>) -> Seq<char> {
    s.map_values(|c: char| ascii_lower_char(c))
}

/// Every character of `s` is ASCII.
pub open spec fn all_ascii(s: Seq<char>) -> bool {
    forall|i: int| 0 <= i < s.len() ==> (s[i] as int) < 128
}

/// The full Unicode lower-case mapping of a string, as `str::to_lowercase`
/// computes it.
pub uninterp spec fn unicode_lowercase(s: Seq<char>) -> Seq<char>;

/// `str::to_lowercase` from std. Its result is the Unicode lower-case mapping
/// of the argument (named `unicode_lowercase`); std documents that the mapping
/// follows the Unicode `Lowercase` property, which on ASCII text maps `A`..`Z`
/// to `a`..`z` and leaves every other character alone. What it does to
/// non-ASCII text is left unstated.
#[verifier::external_body]
pub(crate) fn to_lowercase(s: &str) -> (r: String)
    ensures
        r@ == unicode_lowercase(s@),
        all_ascii(s@) ==> r@ == ascii_lower(s@),
{
    s.to_lowercase()
}

/// The characters of `s`, in order.
pub(crate) fn chars_of(s: &str) -> (r: Vec<char>)
    ensures
        r@ == s@,
{
    let mut v: Vec<char> = Vec::new();
    for c in it: s.chars()
        invariant
            v@ == it.seq().take(it.index() as int),
    {
        v.push(c);
    }
    v
}

/// `a` and `b` hold the same characters.
pub(crate) fn same_text(a: &String, b: &str) -> (r: bool)
    ensures
        r == (a@ == b@),
{
    *a == b.to_owned()
}

/// The decimal digit character for `d < 10`.
pub open spec fn digit_char(d: nat) -> char {
    if d == 0 {
        '0'
    } else if d == 1 {
        '1'
    } else if d == 2 {
        '2'
    } else if d == 3 {
        '3'
    } else if d == 4 {
        '4'
    } else if d == 5 {
        '5'
    } else if d == 6 {
        '6'
    } else if d == 7 {
        '7'
    } else if d == 8 {
        '8'
    } else {
        '9'
    }
}

/// The decimal representation of `n`, without leading zeros (as `{}` formats
/// an unsigned integer).
pub open spec fn decimal(n: nat) -> Seq<char>
    decreases n,
{
    if n < 10 {
        seq![digit_char(n)]
    } else {
        decimal(n / 10).push(digit_char(n % 10))
    }
}

/// Builds the decimal representation of `n`.
pub fn decimal_string(n: usize) -> (r: String)
    ensures
        r@ == decimal(n as nat),
    decreases n,
{
    let digits = "0123456789";
    proof {
        reveal_strlit("0123456789");
    }
    let d = n % 10;
    let one = digits.substring_char(d, d + 1);
    assert(one@ == seq![digit_char(d as nat)]) by {
        assert(one@.len() == 1);
        assert(one@[0] == digits@[d as int]);
    }
    if n < 10 {
        one.to_owned()
    } else {
        let mut s = decimal_string(n / 10);
        s.append(one);
        s
    }
}

/// Index of the first character of `s` that is not white space, at or after `i`.
pub open spec fn skip_white_front(s: Seq<char>, i: int) -> int
    decreases s.len() - i,
{
    if 0 <= i < s.len() && is_white_space(s[i]) {
        skip_white_front(s, i + 1)
    } else {
        i
    }
}

/// One past the last character of `s[..j]` that is not white space.
pub open spec fn skip_white_back(s: Seq<char>, lo: int, j: int) -> int
    decreases j - lo,
{
    if lo < j && is_white_space(s[j - 1]) {
        skip_white_back(s, lo, j - 1)
    } else {
        j
    }
}

/// `s` with leading and trailing white space removed (what `str::trim` returns).
pub open spec fn trimmed(s: Seq<char>) -> Seq<char> {
    let lo = skip_white_front(s, 0);
    s.subrange(lo, skip_white_back(s, lo, s.len() as int))
}

/// Tests `is_white_space` on one character.
pub(crate) fn white_space(c: char) -> (r: bool)
    ensures
        r == is_white_space(c),
{
    ('\u{9}' <= c && c <= '\u{d}') || c == ' ' || c == '\u{85}' || c == '\u{a0}' || c
        == '\u{1680}' || ('\u{2000}' <= c && c <= '\u{200a}') || c == '\u{2028}' || c
        == '\u{2029}' || c == '\u{202f}' || c == '\u{205f}' || c == '\u{3000}'
}

proof fn lemma_skip_front_bounds(s: Seq<char>, i: int)
    requires
        0 <= i <= s.len(),
    ensures
        i <= skip_white_front(s, i) <= s.len(),
    decreases s.len() - i,
{
    if i < s.len() && is_white_space(s[i]) {
        lemma_skip_front_bounds(s, i + 1);
    }
}

proof fn lemma_skip_back_bounds(s: Seq<char>, lo: int, j: int)
    requires
        0 <= lo <= j <= s.len(),
    ensures
        lo <= skip_white_back(s, lo, j) <= j,
    decreases j - lo,
{
    if lo < j && is_white_space(s[j - 1]) {
        lemma_skip_back_bounds(s, lo, j - 1);
    }
}

/// The characters of `s[lo..hi]` as a new string.
pub(crate) fn slice_text(s: &Vec<char>, src: &str, lo: usize, hi: usize) -> (r: String)
    requires
        s@ == src@,
        lo <= hi <= s.len(),
    ensures
        r@ == s@.subrange(lo as int, hi as int),
{
    src.substring_char(lo, hi).to_owned()
}

/// `s` without trailing white space (what `str::trim_end` returns).
pub open spec fn trimmed_end(s: Seq<char>) -> Seq<char> {
    s.subrange(0, skip_white_back(s, 0, s.len() as int))
}

/// `str::trim_end`: `s` without trailing white space.
pub fn trim_end(s: &str) -> (r: String)
    ensures
        r@ == trimmed_end(s@),
{
    let cs = chars_of(s);
    let n = cs.len();
    let mut hi: usize = n;
    while 0 < hi && white_space(cs[hi - 1])
        invariant
            n == cs@.len(),
            cs@ == s@,
            hi <= n,
            skip_white_back(s@, 0, hi as int) == skip_white_back(s@, 0, n as int),
        decreases hi,
    {
        hi = hi - 1;
    }
    slice_text(&cs, s, 0, hi)
}

/// `str::trim`: `s` without leading and trailing white space.
pub fn trim(s: &str) -> (r: String)
    ensures
        r@ == trimmed(s@),
{
    let cs = chars_of(s);
    let n = cs.len();
    let mut lo: usize = 0;
    while lo < n && white_space(cs[lo])
        invariant
            n == cs@.len(),
            cs@ == s@,
            lo <= n,
            skip_white_front(s@, lo as int) == skip_white_front(s@, 0),
        decreases n - lo,
    {
        lo = lo + 1;
    }
    let mut hi: usize = n;
    proof {
        lemma_skip_front_bounds(s@, lo as int);
    }
    while lo < hi && white_space(cs[hi - 1])
        invariant
            n == cs@.len(),
            cs@ == s@,
            lo <= hi <= n,
            skip_white_front(s@, 0) == lo,
            skip_white_back(s@, lo as int, hi as int) == skip_white_back(s@, lo as int, n as int),
        decreases hi - lo,
    {
        hi = hi - 1;
    }
    slice_text(&cs, s, lo, hi)
}

} // verus!
