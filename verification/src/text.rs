//! Character-sequence utilities shared by the platform resolver, the
//! loader, and the diagnostic-text pipeline: equality, prefix and
//! substring tests, and ASCII whitespace trimming, each proved against a
//! sequence-level specification.

use vstd::prelude::*;
use vstd::string::StrSliceExecFns;

verus! {

/// ASCII whitespace, as it occurs in indicator files and diagnostic text.
pub open spec fn is_space_char(c: char) -> bool {
    c == ' ' || c == '\t' || c == '\r' || c == '\n'
}

pub fn space_char(c: char) -> (b: bool)
    ensures
        b == is_space_char(c),
{
    c == ' ' || c == '\t' || c == '\r' || c == '\n'
}

pub open spec fn is_digit_char(c: char) -> bool {
    48 <= (c as u32) && (c as u32) <= 57
}

pub fn digit_char(c: char) -> (b: bool)
    ensures
        b == is_digit_char(c),
{
    let u = c as u32;
    48 <= u && u <= 57
}

/// Character-for-character string equality.
pub fn str_eq(a: &str, b: &str) -> (r: bool)
    ensures
        r == (a@ == b@),
{
    let an = a.unicode_len();
    let bn = b.unicode_len();
    if an != bn {
        return false;
    }
    let mut i: usize = 0;
    while i < an
        invariant
            i <= an,
            an == a@.len(),
            an == b@.len(),
            forall|k: int| 0 <= k < i ==> a@[k] == b@[k],
        decreases an - i,
    {
        if a.get_char(i) != b.get_char(i) {
            return false;
        }
        i += 1;
    }
    proof {
        assert(a@ =~= b@);
    }
    true
}

pub open spec fn starts_with_spec(s: Seq<char>, p: Seq<char>) -> bool {
    p.len() <= s.len() && (forall|k: int| 0 <= k < p.len() ==> s[k] == p[k])
}

pub fn str_starts_with(s: &str, p: &str) -> (r: bool)
    ensures
        r == starts_with_spec(s@, p@),
{
    let sn = s.unicode_len();
    let pn = p.unicode_len();
    if pn > sn {
        return false;
    }
    let mut i: usize = 0;
    while i < pn
        invariant
            i <= pn,
            pn <= sn,
            sn == s@.len(),
            pn == p@.len(),
            forall|k: int| 0 <= k < i ==> s@[k] == p@[k],
        decreases pn - i,
    {
        if s.get_char(i) != p.get_char(i) {
            return false;
        }
        i += 1;
    }
    true
}

/// The pattern occurs starting at position `i` of `s`.
pub open spec fn match_at(s: Seq<char>, p: Seq<char>, i: int) -> bool {
    forall|k: int| 0 <= k < p.len() ==> s[i + k] == p[k]
}

pub open spec fn contains_spec(s: Seq<char>, p: Seq<char>) -> bool {
    exists|i: int| 0 <= i && i + p.len() <= s.len() && match_at(s, p, i)
}

pub fn str_contains(s: &str, p: &str) -> (r: bool)
    ensures
        r == contains_spec(s@, p@),
{
    let sn = s.unicode_len();
    let pn = p.unicode_len();
    if pn > sn {
        return false;
    }
    let mut i: usize = 0;
    while i <= sn - pn
        invariant
            pn <= sn,
            sn == s@.len(),
            pn == p@.len(),
            i <= sn - pn + 1,
            forall|j: int| 0 <= j < i ==> !match_at(s@, p@, j),
        decreases sn + 1 - pn - i,
    {
        let mut k: usize = 0;
        let mut hit = true;
        while k < pn
            invariant
                k <= pn,
                i + pn <= sn,
                sn == s@.len(),
                pn == p@.len(),
                hit ==> forall|m: int| 0 <= m < k ==> s@[i + m] == p@[m],
                !hit ==> !match_at(s@, p@, i as int),
            decreases pn - k,
    {
            if s.get_char(i + k) != p.get_char(k) {
                proof {
                    assert(s@[i + k] != p@[k as int]);
                }
                hit = false;
                k = pn;
            } else {
                k += 1;
            }
        }
        if hit {
            proof {
                assert(match_at(s@, p@, i as int));
            }
            return true;
        }
        i += 1;
    }
    false
}

pub open spec fn drop_leading_spaces(s: Seq<char>) -> Seq<char>
    decreases s.len(),
{
    if s.len() > 0 && is_space_char(s[0]) {
        drop_leading_spaces(s.drop_first())
    } else {
        s
    }
}

pub open spec fn drop_trailing_spaces(s: Seq<char>) -> Seq<char>
    decreases s.len(),
{
    if s.len() > 0 && is_space_char(s[s.len() - 1]) {
        drop_trailing_spaces(s.drop_last())
    } else {
        s
    }
}

/// The string with ASCII whitespace removed from both ends.
pub open spec fn trim_spec(s: Seq<char>) -> Seq<char> {
    drop_trailing_spaces(drop_leading_spaces(s))
}

proof fn lemma_drop_leading(s: Seq<char>, i: int)
    requires
        0 <= i <= s.len(),
        forall|k: int| 0 <= k < i ==> is_space_char(s[k]),
        i < s.len() ==> !is_space_char(s[i]),
    ensures
        drop_leading_spaces(s) =~= s.subrange(i, s.len() as int),
    decreases i,
{
    if i == 0 {
        if s.len() > 0 {
            assert(!is_space_char(s[0]));
        }
        assert(drop_leading_spaces(s) =~= s.subrange(0, s.len() as int));
    } else {
        assert(is_space_char(s[0]));
        let t = s.drop_first();
        assert(forall|k: int| 0 <= k < i - 1 ==> is_space_char(t[k]));
        lemma_drop_leading(t, i - 1);
        assert(t.subrange(i - 1, t.len() as int) =~= s.subrange(i, s.len() as int));
    }
}

proof fn lemma_drop_trailing(s: Seq<char>, j: int)
    requires
        0 <= j <= s.len(),
        forall|k: int| j <= k < s.len() ==> is_space_char(s[k]),
        j > 0 ==> !is_space_char(s[j - 1]),
    ensures
        drop_trailing_spaces(s) =~= s.subrange(0, j),
    decreases s.len() - j,
{
    if j == s.len() {
        if s.len() > 0 && is_space_char(s[s.len() - 1]) {
            assert(false);
        }
        assert(drop_trailing_spaces(s) =~= s.subrange(0, j));
    } else {
        assert(is_space_char(s[s.len() - 1]));
        let t = s.drop_last();
        assert(forall|k: int| j <= k < t.len() ==> is_space_char(t[k]));
        lemma_drop_trailing(t, j);
        assert(t.subrange(0, j) =~= s.subrange(0, j));
    }
}

proof fn lemma_drop_leading_first(s: Seq<char>)
    ensures
        drop_leading_spaces(s).len() > 0 ==> !is_space_char(drop_leading_spaces(s)[0]),
    decreases s.len(),
{
    if s.len() > 0 && is_space_char(s[0]) {
        lemma_drop_leading_first(s.drop_first());
    }
}

proof fn lemma_drop_trailing_last(s: Seq<char>)
    ensures
        drop_trailing_spaces(s).len() > 0 ==> !is_space_char(
            drop_trailing_spaces(s)[drop_trailing_spaces(s).len() - 1],
        ),
    decreases s.len(),
{
    if s.len() > 0 && is_space_char(s[s.len() - 1]) {
        lemma_drop_trailing_last(s.drop_last());
    }
}

proof fn lemma_drop_trailing_first(s: Seq<char>)
    ensures
        drop_trailing_spaces(s).len() > 0 ==> drop_trailing_spaces(s)[0] == s[0],
    decreases s.len(),
{
    if s.len() > 0 && is_space_char(s[s.len() - 1]) {
        lemma_drop_trailing_first(s.drop_last());
    }
}

/// A nonempty trimmed text neither begins nor ends with whitespace.
pub proof fn lemma_trim_ends(s: Seq<char>)
    ensures
        trim_spec(s).len() > 0 ==> !is_space_char(trim_spec(s)[0]) && !is_space_char(
            trim_spec(s)[trim_spec(s).len() - 1],
        ),
{
    lemma_drop_leading_first(s);
    lemma_drop_trailing_last(drop_leading_spaces(s));
    lemma_drop_trailing_first(drop_leading_spaces(s));
}

/// Trimming a text whose ends are not whitespace changes nothing.
pub proof fn lemma_trim_noop(s: Seq<char>)
    requires
        s.len() > 0,
        !is_space_char(s[0]),
        !is_space_char(s[s.len() - 1]),
    ensures
        trim_spec(s) == s,
{
    assert(drop_leading_spaces(s) == s);
    assert(drop_trailing_spaces(s) == s);
}

/// Remove ASCII whitespace from both ends of the string.
pub fn str_trim(s: &str) -> (r: &str)
    ensures
        r@ == trim_spec(s@),
{
    let n = s.unicode_len();
    let mut i: usize = 0;
    while i < n && space_char(s.get_char(i))
        invariant
            i <= n,
            n == s@.len(),
            forall|k: int| 0 <= k < i ==> is_space_char(s@[k]),
        decreases n - i,
    {
        i += 1;
    }
    let mut j: usize = n;
    while j > i && space_char(s.get_char(j - 1))
        invariant
            i <= j <= n,
            n == s@.len(),
            forall|k: int| j <= k < n ==> is_space_char(s@[k]),
        decreases j,
    {
        j -= 1;
    }
    proof {
        lemma_drop_leading(s@, i as int);
        let t = s@.subrange(i as int, n as int);
        assert(forall|k: int| j - i <= k < t.len() ==> is_space_char(t[k]));
        if j > i {
            assert(!is_space_char(t[j - i - 1]));
        }
        lemma_drop_trailing(t, j - i);
        assert(t.subrange(0, j - i) =~= s@.subrange(i as int, j as int));
    }
    s.substring_char(i, j)
}

/// Relies on `String::push` from std: appends one character to the string.
#[verifier::external_body]
pub fn push_char(s: &mut String, c: char)
    ensures
        final(s)@ == old(s)@.push(c),
{
    s.push(c);
}

} // verus!
