//! Small verified string helpers over the character view of `str`.
use vstd::prelude::*;

verus! {

/// Equality of the characters of two string slices.
pub fn str_eq(a: &str, b: &str) -> (r: bool)
    ensures
        r == (a@ == b@),
{
    let x = a.to_owned();
    let y = b.to_owned();
    x == y
}

/// `<prefix>[<s>]`.
pub open spec fn bracketed(prefix: Seq<char>, s: Seq<char>) -> Seq<char> {
    prefix + "["@ + s + "]"@
}

pub fn bracketed_text(prefix: &str, s: &str) -> (r: String)
    ensures
        r@ == bracketed(prefix@, s@),
{
    let mut out = prefix.to_owned();
    out.append("[");
    out.append(s);
    out.append("]");
    out
}

/// The rest of `s` after `prefix` when `s` starts with `prefix`.
pub open spec fn spec_strip_prefix(s: Seq<char>, prefix: Seq<char>) -> Option<Seq<char>> {
    if prefix.len() <= s.len() && s.subrange(0, prefix.len() as int) == prefix {
        Some(s.subrange(prefix.len() as int, s.len() as int))
    } else {
        None
    }
}

/// `str::strip_prefix` over characters.
pub fn strip_prefix<'a>(s: &'a str, prefix: &str) -> (r: Option<&'a str>)
    ensures
        r matches Some(t) ==> spec_strip_prefix(s@, prefix@) == Some(t@),
        r is None ==> spec_strip_prefix(s@, prefix@) is None,
{
    let n = s.unicode_len();
    let m = prefix.unicode_len();
    if m > n {
        return None;
    }
    let mut i: usize = 0;
    while i < m
        invariant
            m == prefix@.len(),
            n == s@.len(),
            m <= n,
            i <= m,
            forall|j: int| 0 <= j < i ==> s@[j] == prefix@[j],
        decreases m - i,
    {
        if s.get_char(i) != prefix.get_char(i) {
            assert(s@.subrange(0, m as int)[i as int] != prefix@[i as int]);
            return None;
        }
        i = i + 1;
    }
    assert(s@.subrange(0, m as int) =~= prefix@);
    Some(s.substring_char(m, n))
}

} // verus!
