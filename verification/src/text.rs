//! Verified helpers over `&str` and its `Seq<char>` view: character-wise
//! equality, identifier checks, and the split of a dotted `Owner.member`
//! symbol at its first separator.

use vstd::prelude::*;
use vstd::string::StrSliceExecFns;

verus! {

/// Character-wise equality of two string slices.
pub fn str_eq(a: &str, b: &str) -> (r: bool)
    ensures
        r == (a@ == b@),
{
    let an: usize = a.unicode_len();
    let bn: usize = b.unicode_len();
    if an != bn {
        proof {
            assert(a@.len() != b@.len());
        }
        return false;
    }
    let mut i: usize = 0;
    while i < an
        invariant
            an == a@.len(),
            an == b@.len(),
            0 <= i <= an,
            forall|j: int| 0 <= j < i ==> a@[j] == b@[j],
        decreases an - i,
    {
        if a.get_char(i) != b.get_char(i) {
            return false;
        }
        i = i + 1;
    }
    proof {
        assert(a@ =~= b@);
    }
    true
}

/// One character of `s` matches the corresponding character of an all-lowercase
/// pattern `l`: either exactly, or as its ASCII uppercase form.
pub open spec fn char_lower_eq(c: char, l: char) -> bool {
    c == l || (('A' as u32) <= (c as u32) && (c as u32) <= ('Z' as u32) && (l as u32) == (c as u32)
        + 32)
}

/// `s` equals the all-lowercase pattern `l` up to ASCII case.
pub open spec fn lower_matches(s: Seq<char>, l: Seq<char>) -> bool {
    s.len() == l.len() && (forall|i: int| 0 <= i < s.len() ==> char_lower_eq(s[i], l[i]))
}

/// Case-insensitive (ASCII) comparison of `s` against an all-lowercase
/// pattern `lit`.
pub fn str_eq_lower(s: &str, lit: &str) -> (r: bool)
    ensures
        r == lower_matches(s@, lit@),
{
    let sn: usize = s.unicode_len();
    let ln: usize = lit.unicode_len();
    if sn != ln {
        return false;
    }
    let mut i: usize = 0;
    while i < sn
        invariant
            sn == s@.len(),
            sn == lit@.len(),
            0 <= i <= sn,
            forall|j: int| 0 <= j < i ==> char_lower_eq(s@[j], lit@[j]),
        decreases sn - i,
    {
        let cu: u32 = s.get_char(i) as u32;
        let lu: u32 = lit.get_char(i) as u32;
        if !(cu == lu || (65 <= cu && cu <= 90 && lu == cu + 32)) {
            proof {
                assert(('A' as u32) == 65 && ('Z' as u32) == 90);
                assert(!char_lower_eq(s@[i as int], lit@[i as int]));
            }
            return false;
        }
        i = i + 1;
    }
    true
}

/// A character that may appear in a symbol identifier: an ASCII letter,
/// a digit, `_`, or `$` (the latter for the JS/TS family).
pub open spec fn is_ident_char(c: char) -> bool {
    let u = c as u32;
    (('a' as u32) <= u && u <= ('z' as u32)) || (('A' as u32) <= u && u <= ('Z' as u32)) || ((
    '0' as u32) <= u && u <= ('9' as u32)) || u == ('_' as u32) || u == ('$' as u32)
}

/// A non-empty run of identifier characters.
pub open spec fn is_ident(s: Seq<char>) -> bool {
    s.len() > 0 && (forall|i: int| 0 <= i < s.len() ==> is_ident_char(s[i]))
}

/// Whether every character of `s` is an identifier character (and `s` is
/// non-empty).
pub fn check_ident(s: &str) -> (r: bool)
    ensures
        r == is_ident(s@),
{
    let n: usize = s.unicode_len();
    if n == 0 {
        return false;
    }
    let mut i: usize = 0;
    while i < n
        invariant
            n == s@.len(),
            0 <= i <= n,
            forall|j: int| 0 <= j < i ==> is_ident_char(s@[j]),
        decreases n - i,
    {
        let u: u32 = s.get_char(i) as u32;
        let ok = (97 <= u && u <= 122) || (65 <= u && u <= 90) || (48 <= u && u <= 57) || u == 95
            || u == 36;
        proof {
            assert(('a' as u32) == 97 && ('z' as u32) == 122);
            assert(('A' as u32) == 65 && ('Z' as u32) == 90);
            assert(('0' as u32) == 48 && ('9' as u32) == 57);
            assert(('_' as u32) == 95 && ('$' as u32) == 36);
        }
        if !ok {
            return false;
        }
        i = i + 1;
    }
    true
}

/// Index of the first `.` in `s`, or `s.len()` if there is none.
pub open spec fn first_dot(s: Seq<char>) -> int
    decreases s.len(),
{
    if s.len() == 0 {
        0
    } else if s[0] == '.' {
        0
    } else {
        1 + first_dot(s.drop_first())
    }
}

/// `first_dot` names the least index holding a `.`, or the length when no
/// character of `s` is a `.`.
pub proof fn lemma_first_dot(s: Seq<char>)
    ensures
        0 <= first_dot(s) <= s.len(),
        first_dot(s) < s.len() ==> s[first_dot(s)] == '.',
        forall|j: int| 0 <= j < first_dot(s) ==> s[j] != '.',
    decreases s.len(),
{
    if s.len() == 0 {
    } else if s[0] == '.' {
    } else {
        lemma_first_dot(s.drop_first());
        assert forall|j: int| 0 <= j < first_dot(s) implies s[j] != '.' by {
            if j > 0 {
                assert(s.drop_first()[j - 1] == s[j]);
            }
        }
    }
}

/// `s` is a dotted `Owner.member` symbol: its first `.` has at least one
/// character on each side.
pub open spec fn is_dotted(s: Seq<char>) -> bool {
    0 < first_dot(s) && first_dot(s) + 1 < s.len()
}

/// The owner part of a dotted symbol: everything before the first `.`.
pub open spec fn owner_part(s: Seq<char>) -> Seq<char> {
    s.take(first_dot(s))
}

/// The member part of a dotted symbol: everything after the first `.`.
pub open spec fn member_part(s: Seq<char>) -> Seq<char> {
    s.skip(first_dot(s) + 1)
}

/// The symbols this library accepts: either a plain identifier, or a dotted
/// pair of identifiers `Owner.member`. Names with other characters are out
/// of scope, since they are interpolated into structural patterns.
pub open spec fn acceptable_symbol(s: Seq<char>) -> bool {
    if is_dotted(s) {
        is_ident(owner_part(s)) && is_ident(member_part(s))
    } else {
        is_ident(s)
    }
}

/// Whether `s` is an acceptable symbol: a plain identifier, or a dotted
/// `Owner.member` pair of identifiers.
pub fn check_symbol(s: &str) -> (r: bool)
    ensures
        r == acceptable_symbol(s@),
{
    let n: usize = s.unicode_len();
    let d = find_first_dot(s);
    if 0 < d && d < n && n - d > 1 {
        let owner = s.substring_char(0, d);
        let member = s.substring_char(d + 1, n);
        proof {
            assert(owner@ =~= owner_part(s@));
            assert(member@ =~= member_part(s@));
        }
        check_ident(owner) && check_ident(member)
    } else {
        check_ident(s)
    }
}

/// The pattern `p` occurs in `s` starting at index `i`.
pub open spec fn match_at(s: Seq<char>, p: Seq<char>, i: int) -> bool {
    0 <= i && i + p.len() <= s.len() && s.subrange(i, i + p.len()) == p
}

/// Index of the first occurrence of `p` in `s`, or `-1` if there is none.
pub open spec fn find_index(s: Seq<char>, p: Seq<char>) -> int
    decreases s.len(),
{
    if p.len() > s.len() {
        -1
    } else if match_at(s, p, 0) {
        0
    } else if s.len() == 0 {
        -1
    } else {
        let r = find_index(s.drop_first(), p);
        if r < 0 {
            -1
        } else {
            r + 1
        }
    }
}

/// Occurrences in the tail of `s` are occurrences of `s`, shifted by one.
proof fn lemma_match_at_shift(s: Seq<char>, p: Seq<char>, j: int)
    requires
        s.len() > 0,
        j >= 0,
    ensures
        match_at(s.drop_first(), p, j) <==> match_at(s, p, j + 1),
{
    if j + p.len() <= s.len() - 1 {
        assert(s.drop_first().subrange(j, j + p.len()) =~= s.subrange(j + 1, j + 1 + p.len()));
        if match_at(s.drop_first(), p, j) {
            assert(s.subrange(j + 1, j + 1 + p.len()) == p);
        }
        if match_at(s, p, j + 1) {
            assert(s.drop_first().subrange(j, j + p.len()) == p);
        }
    }
}

/// `find_index` names the least occurrence of `p` in `s`, or `-1` when `p`
/// occurs nowhere in `s`.
pub proof fn lemma_find_index(s: Seq<char>, p: Seq<char>)
    ensures
        find_index(s, p) == -1 || 0 <= find_index(s, p) <= s.len(),
        find_index(s, p) == -1 ==> forall|j: int| !match_at(s, p, j),
        find_index(s, p) >= 0 ==> match_at(s, p, find_index(s, p)),
        forall|j: int| 0 <= j < find_index(s, p) ==> !match_at(s, p, j),
    decreases s.len(),
{
    if p.len() > s.len() {
    } else if match_at(s, p, 0) {
    } else if s.len() == 0 {
        assert forall|j: int| !match_at(s, p, j) by {
            if match_at(s, p, j) {
                assert(j == 0 && p.len() == 0);
            }
        }
    } else {
        lemma_find_index(s.drop_first(), p);
        if find_index(s.drop_first(), p) == -1 {
            assert forall|j: int| !match_at(s, p, j) by {
                if j >= 1 {
                    lemma_match_at_shift(s, p, j - 1);
                }
            }
        } else {
            lemma_match_at_shift(s, p, find_index(s.drop_first(), p));
            assert forall|j: int| 0 <= j < find_index(s, p) implies !match_at(s, p, j) by {
                if j >= 1 {
                    lemma_match_at_shift(s, p, j - 1);
                }
            }
        }
    }
}

/// Whether `p` occurs in `s` at index `i`.
fn matches_at(s: &str, p: &str, i: usize) -> (r: bool)
    requires
        i + p@.len() <= s@.len(),
    ensures
        r == match_at(s@, p@, i as int),
{
    let n: usize = s.unicode_len();
    let m: usize = p.unicode_len();
    let mut k: usize = 0;
    while k < m
        invariant
            n == s@.len(),
            m == p@.len(),
            i + m <= n,
            0 <= k <= m,
            forall|l: int| 0 <= l < k ==> s@[i + l] == p@[l],
        decreases m - k,
    {
        if s.get_char(i + k) != p.get_char(k) {
            proof {
                assert(s@.subrange(i as int, i + m) != p@) by {
                    assert(s@.subrange(i as int, i + m)[k as int] == s@[i + k]);
                }
            }
            return false;
        }
        k = k + 1;
    }
    proof {
        assert(s@.subrange(i as int, i + m) =~= p@);
    }
    true
}

/// Index of the first occurrence of `p` in `s`.
pub fn find_sub(s: &str, p: &str) -> (r: Option<usize>)
    ensures
        match r {
            Some(i) => i as int == find_index(s@, p@),
            None => find_index(s@, p@) == -1,
        },
{
    proof {
        lemma_find_index(s@, p@);
    }
    let n: usize = s.unicode_len();
    let m: usize = p.unicode_len();
    if m > n {
        return None;
    }
    if m == 0 {
        proof {
            assert(s@.subrange(0, 0) =~= p@);
            assert(match_at(s@, p@, 0));
        }
        return Some(0);
    }
    let mut i: usize = 0;
    while i <= n - m
        invariant
            n == s@.len(),
            m == p@.len(),
            1 <= m <= n,
            0 <= i <= n - m + 1,
            forall|j: int| 0 <= j < i ==> !match_at(s@, p@, j),
            find_index(s@, p@) == -1 || 0 <= find_index(s@, p@) <= s@.len(),
            find_index(s@, p@) == -1 ==> forall|j: int| !match_at(s@, p@, j),
            find_index(s@, p@) >= 0 ==> match_at(s@, p@, find_index(s@, p@)),
            forall|j: int| 0 <= j < find_index(s@, p@) ==> !match_at(s@, p@, j),
        decreases n - m - i + 1,
    {
        if matches_at(s, p, i) {
            proof {
                if find_index(s@, p@) == -1 {
                    assert(!match_at(s@, p@, i as int));
                } else if find_index(s@, p@) < i as int {
                    assert(!match_at(s@, p@, find_index(s@, p@)));
                } else if find_index(s@, p@) > i as int {
                    assert(!match_at(s@, p@, i as int));
                }
            }
            return Some(i);
        }
        i = i + 1;
    }
    proof {
        if find_index(s@, p@) >= 0 {
            assert(match_at(s@, p@, find_index(s@, p@)));
            assert(false);
        }
    }
    None
}

/// Index of the first `.` of `s`, or its length when `s` has none.
pub fn find_first_dot(s: &str) -> (r: usize)
    ensures
        r == first_dot(s@),
{
    proof {
        lemma_first_dot(s@);
    }
    let n: usize = s.unicode_len();
    let mut i: usize = 0;
    while i < n
        invariant
            n == s@.len(),
            0 <= i <= n,
            forall|j: int| 0 <= j < i ==> s@[j] != '.',
            0 <= first_dot(s@) <= s@.len(),
            first_dot(s@) < s@.len() ==> s@[first_dot(s@)] == '.',
            forall|j: int| 0 <= j < first_dot(s@) ==> s@[j] != '.',
        decreases n - i,
    {
        let c = s.get_char(i);
        if c == '.' {
            proof {
                assert(s@[i as int] == '.');
                if first_dot(s@) < i as int {
                    assert(s@[first_dot(s@)] == '.');
                    assert(false);
                } else if first_dot(s@) > i as int {
                    assert(s@[i as int] != '.');
                    assert(false);
                }
            }
            return i;
        }
        i = i + 1;
    }
    proof {
        if first_dot(s@) < s@.len() {
            assert(s@[first_dot(s@)] == '.');
        }
    }
    n
}

} // verus!
