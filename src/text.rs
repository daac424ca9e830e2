//! Text helpers over character sequences: prefixes, suffixes, removal of a
//! pattern, truncation, and slugs for file names.

use vstd::prelude::*;

verus! {

/// `s` begins with `p`.
pub open spec fn has_prefix(s: Seq<char>, p: Seq<char>) -> bool {
    p.len() <= s.len() && s.subrange(0, p.len() as int) == p
}

/// `s` ends with `p`.
pub open spec fn has_suffix(s: Seq<char>, p: Seq<char>) -> bool {
    p.len() <= s.len() && s.subrange(s.len() - p.len(), s.len() as int) == p
}

/// `s` with every occurrence of `p` removed, scanning left to right.
pub open spec fn without(s: Seq<char>, p: Seq<char>) -> Seq<char>
    decreases s.len(),
{
    if s.len() == 0 || p.len() == 0 {
        s
    } else if has_prefix(s, p) {
        without(s.subrange(p.len() as int, s.len() as int), p)
    } else {
        seq![s[0]] + without(s.subrange(1, s.len() as int), p)
    }
}

/// The number of bytes that UTF-8 takes to encode `c`.
pub open spec fn utf8_width(c: char) -> int {
    if (c as u32) < 0x80 {
        1
    } else if (c as u32) < 0x800 {
        2
    } else if (c as u32) < 0x10000 {
        3
    } else {
        4
    }
}

/// How many characters of `s` from index `i` on fit, in order, in `budget`
/// bytes of UTF-8.
pub open spec fn chars_within(s: Seq<char>, i: int, budget: int) -> int
    decreases s.len() - i,
{
    if i < 0 || i >= s.len() || utf8_width(s[i]) > budget {
        0
    } else {
        1 + chars_within(s, i + 1, budget - utf8_width(s[i]))
    }
}

/// The longest prefix of `s` that takes at most `n` bytes in UTF-8.
pub open spec fn byte_truncated(s: Seq<char>, n: nat) -> Seq<char> {
    s.subrange(0, chars_within(s, 0, n as int))
}

/// The slug that the slug crate makes of a text.
pub uninterp spec fn slug_of(s: Seq<char>) -> Seq<char>;

/// Relies on slug's `slugify`: the slug depends on the text alone.
#[verifier::external_body]
pub(crate) fn slugify(s: &str) -> (r: String)
    ensures
        r@ == slug_of(s@),
{
    slug::slugify(s)
}

/// Whether `s` begins with `p`.
pub fn starts_with(s: &str, p: &str) -> (r: bool)
    ensures
        r == has_prefix(s@, p@),
{
    let n = s.unicode_len();
    let m = p.unicode_len();
    if m > n {
        return false;
    }
    let mut i: usize = 0;
    while i < m
        invariant
            m <= n,
            n == s@.len(),
            m == p@.len(),
            i <= m,
            forall|j: int| 0 <= j < i ==> s@[j] == p@[j],
        decreases m - i,
    {
        if s.get_char(i) != p.get_char(i) {
            assert(s@.subrange(0, m as int)[i as int] != p@[i as int]);
            return false;
        }
        i = i + 1;
    }
    assert(s@.subrange(0, m as int) =~= p@);
    true
}

/// Whether `s` ends with `p`.
pub fn ends_with(s: &str, p: &str) -> (r: bool)
    ensures
        r == has_suffix(s@, p@),
{
    let n = s.unicode_len();
    let m = p.unicode_len();
    if m > n {
        return false;
    }
    let d = n - m;
    let mut i: usize = 0;
    while i < m
        invariant
            m <= n,
            d == n - m,
            n == s@.len(),
            m == p@.len(),
            i <= m,
            forall|j: int| 0 <= j < i ==> s@[d + j] == p@[j],
        decreases m - i,
    {
        if s.get_char(d + i) != p.get_char(i) {
            assert(s@.subrange(d as int, n as int)[i as int] != p@[i as int]);
            return false;
        }
        i = i + 1;
    }
    assert(s@.subrange(d as int, n as int) =~= p@);
    true
}

/// `s` with every occurrence of `p` removed, scanning left to right.
pub fn remove_all(s: &str, p: &str) -> (r: String)
    ensures
        r@ == without(s@, p@),
{
    let n = s.unicode_len();
    let m = p.unicode_len();
    let mut r = String::new();
    let mut i: usize = 0;
    assert(r@ + without(s@.subrange(0, n as int), p@) =~= without(s@, p@)) by {
        assert(s@.subrange(0, n as int) =~= s@);
    }
    while i < n
        invariant
            n == s@.len(),
            m == p@.len(),
            i <= n,
            r@ + without(s@.subrange(i as int, n as int), p@) == without(s@, p@),
        decreases n - i,
    {
        let rest = s.substring_char(i, n);
        if m > 0 && starts_with(rest, p) {
            assert(s@.subrange(i as int, n as int).subrange(m as int, (n - i) as int) =~= s@.subrange(
                (i + m) as int,
                n as int,
            ));
            i = i + m;
        } else {
            let c = s.substring_char(i, i + 1);
            let ghost before = r@;
            r.append(c);
            proof {
                let t = s@.subrange(i as int, n as int);
                if m == 0 {
                    assert(without(t, p@) == t);
                    assert(without(s@.subrange(i + 1, n as int), p@) == s@.subrange(i + 1, n as int));
                    assert(t =~= seq![t[0]] + s@.subrange(i + 1, n as int));
                } else {
                    assert(t.subrange(1, t.len() as int) =~= s@.subrange(i + 1, n as int));
                }
                assert(c@ =~= seq![t[0]]);
                assert(r@ + without(s@.subrange(i + 1, n as int), p@) =~= before + without(t, p@));
            }
            i = i + 1;
        }
    }
    assert(r@ + without(s@.subrange(n as int, n as int), p@) =~= r@);
    r
}

fn utf8_width_of(c: char) -> (r: usize)
    ensures
        r == utf8_width(c),
{
    let v = c as u32;
    if v < 0x80 {
        1
    } else if v < 0x800 {
        2
    } else if v < 0x10000 {
        3
    } else {
        4
    }
}

/// The longest prefix of `s` that takes at most `n` bytes in UTF-8.
pub fn truncate_bytes(s: &str, n: usize) -> (r: String)
    ensures
        r@ == byte_truncated(s@, n as nat),
{
    let len = s.unicode_len();
    let mut i: usize = 0;
    let mut budget: usize = n;
    while i < len
        invariant
            len == s@.len(),
            i <= len,
            budget <= n,
            chars_within(s@, 0, n as int) == i + chars_within(s@, i as int, budget as int),
        ensures
            i <= len,
            chars_within(s@, 0, n as int) == i,
        decreases len - i,
    {
        let w = utf8_width_of(s.get_char(i));
        if w > budget {
            assert(chars_within(s@, i as int, budget as int) == 0);
            break;
        }
        budget = budget - w;
        i = i + 1;
    }
    String::from_str(s.substring_char(0, i))
}

} // verus!
