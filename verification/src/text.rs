//! Exact text matching.
//!
//! Small executable routines over strings — literal matching at a
//! position, prefix testing, substring search — each specified against
//! the character sequence of the string. The preferences reader, the
//! model-catalog check and the tool-version check are built on these.

use vstd::prelude::*;

verus! {

/// `pre` is a prefix of `s`.
pub open spec fn is_prefix_of(pre: Seq<char>, s: Seq<char>) -> bool {
    pre.len() <= s.len() && s.subrange(0, pre.len() as int) == pre
}

/// `lit` occupies positions `pos .. pos + lit.len()` of `s`.
pub open spec fn occurs_at(s: Seq<char>, pos: int, lit: Seq<char>) -> bool {
    0 <= pos && pos + lit.len() <= s.len() && s.subrange(pos, pos + lit.len() as int) == lit
}

/// `needle` occurs somewhere in `s`.
pub open spec fn contains_seq(s: Seq<char>, needle: Seq<char>) -> bool {
    exists|i: int| occurs_at(s, i, needle)
}

/// Whether `lit` stands at position `pos` of `s`; on success, returns the
/// position just past it.
pub fn expect_lit(s: &str, pos: usize, lit: &str) -> (r: Option<usize>)
    requires
        pos <= s@.len(),
    ensures
        r matches Some(e) ==> occurs_at(s@, pos as int, lit@) && e == pos + lit@.len(),
        r is None ==> !occurs_at(s@, pos as int, lit@),
{
    let n = s.unicode_len();
    let m = lit.unicode_len();
    if m > n - pos {
        return None;
    }
    let mut j: usize = 0;
    while j < m
        invariant
            j <= m,
            pos + m <= n,
            n == s@.len(),
            m == lit@.len(),
            pos <= s@.len(),
            forall|k: int| 0 <= k < j ==> s@[pos + k] == lit@[k],
        decreases m - j,
    {
        if s.get_char(pos + j) != lit.get_char(j) {
            proof {
                if occurs_at(s@, pos as int, lit@) {
                    let sub = s@.subrange(pos as int, pos + lit@.len() as int);
                    assert(s@[pos + j] == sub[j as int]);
                }
            }
            return None;
        }
        j = j + 1;
    }
    proof {
        assert(s@.subrange(pos as int, pos + lit@.len() as int) =~= lit@);
    }
    Some(pos + m)
}

/// Whether `s` begins with `pre`.
pub fn str_starts_with(s: &str, pre: &str) -> (r: bool)
    ensures
        r == is_prefix_of(pre@, s@),
{
    match expect_lit(s, 0, pre) {
        Some(_) => true,
        None => false,
    }
}

/// Whether `needle` occurs anywhere in `s`.
pub fn str_contains(s: &str, needle: &str) -> (r: bool)
    ensures
        r == contains_seq(s@, needle@),
{
    let n = s.unicode_len();
    let m = needle.unicode_len();
    if m > n {
        proof {
            assert forall|i: int| !occurs_at(s@, i, needle@) by {}
        }
        return false;
    }
    if m == 0 {
        proof {
            assert(s@.subrange(0, 0) =~= needle@);
            assert(occurs_at(s@, 0, needle@));
        }
        return true;
    }
    let mut i: usize = 0;
    while i <= n - m
        invariant
            i <= n - m + 1,
            1 <= m <= n,
            n == s@.len(),
            m == needle@.len(),
            forall|p: int| 0 <= p < i ==> !occurs_at(s@, p, needle@),
        decreases n - i,
    {
        match expect_lit(s, i, needle) {
            Some(_) => {
                assert(contains_seq(s@, needle@));
                return true;
            },
            None => {},
        }
        i = i + 1;
    }
    proof {
        assert forall|p: int| !occurs_at(s@, p, needle@) by {
            if p >= i {
                assert(p + needle@.len() > s@.len());
            }
        }
    }
    false
}

} // verus!
