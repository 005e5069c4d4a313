use vstd::prelude::*;

verus! {

/// Whether `c` has the Unicode `White_Space` property, which is what
/// `char::is_whitespace` tests: U+0009 to U+000D, U+0020, U+0085, U+00A0,
/// U+1680, U+2000 to U+200A, U+2028, U+2029, U+202F, U+205F and U+3000.
pub open spec fn is_white_space(c: char) -> bool {
    let v = c as u32;
    ||| 0x9 <= v <= 0xd
    ||| v == 0x20
    ||| v == 0x85
    ||| v == 0xa0
    ||| v == 0x1680
    ||| 0x2000 <= v <= 0x200a
    ||| v == 0x2028
    ||| v == 0x2029
    ||| v == 0x202f
    ||| v == 0x205f
    ||| v == 0x3000
}

/// The first index from `i` on whose character is kept by trimming (the
/// length when there is none).
pub open spec fn first_kept(s: Seq<char>, i: int) -> int
    decreases s.len() - i,
{
    if i < 0 || i >= s.len() {
        s.len() as int
    } else if is_white_space(s[i]) {
        first_kept(s, i + 1)
    } else {
        i
    }
}

/// The end of the kept part of `s[lo..j]`: `j` after dropping the trailing
/// whitespace, but not below `lo`.
pub open spec fn kept_end(s: Seq<char>, lo: int, j: int) -> int
    decreases j - lo,
{
    if j <= lo {
        lo
    } else if is_white_space(s[j - 1]) {
        kept_end(s, lo, j - 1)
    } else {
        j
    }
}

/// `s` without its leading and trailing whitespace, as `str::trim` gives it.
pub open spec fn trimmed(s: Seq<char>) -> Seq<char> {
    let lo = first_kept(s, 0);
    s.subrange(lo, kept_end(s, lo, s.len() as int))
}

/// Whether `c` is whitespace (see [`is_white_space`]).
pub fn is_white_space_char(c: char) -> (b: bool)
    ensures
        b == is_white_space(c),
{
    let v = c as u32;
    (0x9 <= v && v <= 0xd) || v == 0x20 || v == 0x85 || v == 0xa0 || v == 0x1680 || (0x2000 <= v
        && v <= 0x200a) || v == 0x2028 || v == 0x2029 || v == 0x202f || v == 0x205f || v == 0x3000
}

/// `s` without its leading and trailing whitespace: the same text as
/// `str::trim` gives.
pub fn trim_text(s: &str) -> (r: &str)
    ensures
        r@ == trimmed(s@),
{
    let n = s.unicode_len();
    let mut i: usize = 0;
    while i < n && is_white_space_char(s.get_char(i))
        invariant
            n == s@.len(),
            i <= n,
            first_kept(s@, 0) == first_kept(s@, i as int),
        decreases n - i,
    {
        i = i + 1;
    }
    assert(first_kept(s@, i as int) == i);
    let mut j: usize = n;
    while j > i && is_white_space_char(s.get_char(j - 1))
        invariant
            n == s@.len(),
            i <= j <= n,
            kept_end(s@, i as int, n as int) == kept_end(s@, i as int, j as int),
        decreases j,
    {
        j = j - 1;
    }
    assert(kept_end(s@, i as int, j as int) == j);
    s.substring_char(i, j)
}

} // verus!
