//! Diagnostic-metadata construction: abbreviate a rendered call stack
//! into a single line, escape it for JSON, and build the metadata
//! object (a client-kind marker and the abbreviated stack) that is
//! merged into the connection parameters.
//!
//! The abbreviation walks the rendered lines top to bottom: each line is
//! trimmed, a leading frame counter (digits and a colon) is removed,
//! backslashes become forward slashes; the walk stops at the runtime's
//! start frame, lines of the standard library are dropped, a leading
//! "at " is removed, and source locations inside the standard library
//! are dropped; every kept line is prepended to the accumulated text,
//! separated by single spaces.

use vstd::prelude::*;
use vstd::string::{StrSliceExecFns, StringExecFns};
use crate::text::{
    contains_spec, digit_char, is_digit_char, is_space_char, push_char, space_char,
    starts_with_spec, str_contains, str_eq, str_starts_with, str_trim, trim_spec,
};

verus! {

pub open spec fn split_lines_acc(s: Seq<char>, cur: Seq<char>) -> Seq<Seq<char>>
    decreases s.len(),
{
    if s.len() == 0 {
        if cur.len() == 0 {
            Seq::<Seq<char>>::empty()
        } else {
            seq![cur]
        }
    } else if s[0] == '\n' {
        seq![cur] + split_lines_acc(s.drop_first(), Seq::<char>::empty())
    } else {
        split_lines_acc(s.drop_first(), cur.push(s[0]))
    }
}

/// The lines of a text, split on the newline character; no trailing
/// empty line.
pub open spec fn split_lines_spec(s: Seq<char>) -> Seq<Seq<char>> {
    split_lines_acc(s, Seq::<char>::empty())
}

/// Split a text into its lines.
pub fn split_lines(s: &str) -> (v: Vec<String>)
    ensures
        v@.map_values(|t: String| t@) == split_lines_spec(s@),
{
    let n = s.unicode_len();
    let mut v: Vec<String> = Vec::new();
    let mut cur = String::new();
    let mut i: usize = 0;
    proof {
        assert(s@.skip(0) =~= s@);
        assert(Seq::<String>::empty().map_values(|t: String| t@) + split_lines_acc(
            s@,
            Seq::<char>::empty(),
        ) =~= split_lines_acc(s@, Seq::<char>::empty()));
    }
    while i < n
        invariant
            i <= n,
            n == s@.len(),
            split_lines_spec(s@) == v@.map_values(|t: String| t@) + split_lines_acc(
                s@.skip(i as int),
                cur@,
            ),
        decreases n - i,
    {
        let c = s.get_char(i);
        proof {
            assert(s@.skip(i as int).drop_first() =~= s@.skip(i as int + 1));
            assert(s@.skip(i as int)[0] == s@[i as int]);
        }
        if c == '\n' {
            proof {
                assert(v@.push(cur).map_values(|t: String| t@) =~= v@.map_values(
                    |t: String| t@,
                ).push(cur@));
                assert(v@.map_values(|t: String| t@).push(cur@) + split_lines_acc(
                    s@.skip(i as int + 1),
                    Seq::<char>::empty(),
                ) =~= v@.map_values(|t: String| t@) + (seq![cur@] + split_lines_acc(
                    s@.skip(i as int + 1),
                    Seq::<char>::empty(),
                )));
            }
            v.push(cur);
            cur = String::new();
        } else {
            push_char(&mut cur, c);
        }
        i += 1;
    }
    proof {
        assert(s@.skip(n as int) =~= Seq::<char>::empty());
    }
    if cur.as_str().unicode_len() > 0 {
        proof {
            assert(v@.push(cur).map_values(|t: String| t@) =~= v@.map_values(
                |t: String| t@,
            ).push(cur@));
            assert(v@.map_values(|t: String| t@).push(cur@) =~= v@.map_values(|t: String| t@)
                + seq![cur@]);
        }
        v.push(cur);
    }
    v
}

pub open spec fn digits_prefix_len(s: Seq<char>) -> nat
    decreases s.len(),
{
    if s.len() > 0 && is_digit_char(s[0]) {
        1 + digits_prefix_len(s.drop_first())
    } else {
        0
    }
}

pub open spec fn spaces_prefix_len(s: Seq<char>) -> nat
    decreases s.len(),
{
    if s.len() > 0 && is_space_char(s[0]) {
        1 + spaces_prefix_len(s.drop_first())
    } else {
        0
    }
}

/// A leading frame counter — one or more digits and a colon — is
/// removed together with the whitespace that follows it; any other line
/// is kept as it is.
pub open spec fn strip_counter_spec(s: Seq<char>) -> Seq<char> {
    let d = digits_prefix_len(s);
    if d > 0 && d < s.len() && s[d as int] == ':' {
        let rest = s.skip(d as int + 1);
        rest.skip(spaces_prefix_len(rest) as int)
    } else {
        s
    }
}

proof fn lemma_digits_prefix(s: Seq<char>, i: int)
    requires
        0 <= i <= s.len(),
        forall|k: int| 0 <= k < i ==> is_digit_char(s[k]),
        i < s.len() ==> !is_digit_char(s[i]),
    ensures
        digits_prefix_len(s) == i,
    decreases i,
{
    if i == 0 {
    } else {
        assert(is_digit_char(s[0]));
        let t = s.drop_first();
        assert(forall|k: int| 0 <= k < i - 1 ==> t[k] == s[k + 1] && is_digit_char(t[k]));
        lemma_digits_prefix(t, i - 1);
    }
}

proof fn lemma_spaces_prefix(s: Seq<char>, i: int)
    requires
        0 <= i <= s.len(),
        forall|k: int| 0 <= k < i ==> is_space_char(s[k]),
        i < s.len() ==> !is_space_char(s[i]),
    ensures
        spaces_prefix_len(s) == i,
    decreases i,
{
    if i == 0 {
    } else {
        assert(is_space_char(s[0]));
        let t = s.drop_first();
        assert(forall|k: int| 0 <= k < i - 1 ==> t[k] == s[k + 1] && is_space_char(t[k]));
        lemma_spaces_prefix(t, i - 1);
    }
}

/// Remove a leading frame counter, if present.
pub fn strip_counter(s: &str) -> (r: &str)
    ensures
        r@ == strip_counter_spec(s@),
{
    let n = s.unicode_len();
    let mut d: usize = 0;
    while d < n && digit_char(s.get_char(d))
        invariant
            d <= n,
            n == s@.len(),
            forall|k: int| 0 <= k < d ==> is_digit_char(s@[k]),
        decreases n - d,
    {
        d += 1;
    }
    proof {
        lemma_digits_prefix(s@, d as int);
    }
    if d > 0 && d < n && s.get_char(d) == ':' {
        let mut j: usize = d + 1;
        while j < n && space_char(s.get_char(j))
            invariant
                d + 1 <= j <= n,
                n == s@.len(),
                forall|k: int| d + 1 <= k < j ==> is_space_char(s@[k]),
            decreases n - j,
        {
            j += 1;
        }
        proof {
            let rest = s@.skip(d as int + 1);
            assert(forall|k: int| 0 <= k < j - d - 1 ==> rest[k] == s@[k + d + 1]
                && is_space_char(rest[k]));
            if j < n {
                assert(rest[j - d - 1] == s@[j as int]);
            }
            lemma_spaces_prefix(rest, j - d - 1);
            assert(rest.skip(j - d - 1) =~= s@.subrange(j as int, n as int));
        }
        s.substring_char(j, n)
    } else {
        s
    }
}

/// Every backslash becomes a forward slash.
pub open spec fn replace_bs_spec(s: Seq<char>) -> Seq<char> {
    s.map_values(|c: char| if c == '\\' { '/' } else { c })
}

pub fn replace_backslashes(s: &str) -> (r: String)
    ensures
        r@ == replace_bs_spec(s@),
{
    let n = s.unicode_len();
    let mut r = String::new();
    let mut i: usize = 0;
    while i < n
        invariant
            i <= n,
            n == s@.len(),
            r@ == replace_bs_spec(s@.take(i as int)),
        decreases n - i,
    {
        let c = s.get_char(i);
        let c2 = if c == '\\' { '/' } else { c };
        proof {
            assert(s@.take(i as int + 1).map_values(|c: char| if c == '\\' { '/' } else { c })
                =~= s@.take(i as int).map_values(|c: char| if c == '\\' { '/' } else { c }).push(
                c2,
            ));
        }
        push_char(&mut r, c2);
        i += 1;
    }
    proof {
        assert(s@.take(n as int) =~= s@);
    }
    r
}

/// Remove a leading "at " marker, if present.
pub open spec fn strip_at_spec(s: Seq<char>) -> Seq<char> {
    if starts_with_spec(s, "at "@) {
        s.skip("at "@.len() as int)
    } else {
        s
    }
}

pub fn strip_at(s: &str) -> (r: &str)
    ensures
        r@ == strip_at_spec(s@),
{
    proof {
        reveal_strlit("at ");
    }
    if str_starts_with(s, "at ") {
        let n = s.unicode_len();
        proof {
            assert(s@.subrange(3, n as int) =~= s@.skip(3));
        }
        s.substring_char(3, n)
    } else {
        s
    }
}

/// One line, cleaned: trimmed, its frame counter removed, backslashes
/// replaced.
pub open spec fn cleaned_line(l: Seq<char>) -> Seq<char> {
    replace_bs_spec(strip_counter_spec(trim_spec(l)))
}

/// The abbreviation walk over the cleaned lines, with the text
/// accumulated so far: stop at the runtime's start frame, drop standard
/// library frames and locations, and prepend every kept line.
pub open spec fn abbrev_from(ls: Seq<Seq<char>>, acc: Seq<char>) -> Seq<char>
    decreases ls.len(),
{
    if ls.len() == 0 {
        acc
    } else {
        let t = cleaned_line(ls[0]);
        if t == "std::rt::lang_start_internal"@ {
            acc
        } else if starts_with_spec(t, "std::"@) || starts_with_spec(t, "core::"@) {
            abbrev_from(ls.drop_first(), acc)
        } else {
            let u = strip_at_spec(t);
            if contains_spec(u, "/library/std/src/"@) || contains_spec(u, "/library/core/src/"@) {
                abbrev_from(ls.drop_first(), acc)
            } else {
                abbrev_from(
                    ls.drop_first(),
                    if acc.len() == 0 {
                        u
                    } else {
                        u + " "@ + acc
                    },
                )
            }
        }
    }
}

/// The abbreviated form of a rendered call stack.
pub open spec fn abbrev_spec(s: Seq<char>) -> Seq<char> {
    abbrev_from(split_lines_spec(s), Seq::<char>::empty())
}

/// Abbreviate a rendered call stack into a single line.
pub fn abbreviate_stack_trace(trace: &str) -> (r: String)
    ensures
        r@ == abbrev_spec(trace@),
{
    let lines = split_lines(trace);
    let ghost lm = lines@.map_values(|t: String| t@);
    let mut acc = String::new();
    let mut idx: usize = 0;
    let mut stopped = false;
    proof {
        assert(lm.skip(0) =~= lm);
    }
    while idx < lines.len() && !stopped
        invariant
            idx <= lines.len(),
            lm == lines@.map_values(|t: String| t@),
            lm == split_lines_spec(trace@),
            !stopped ==> abbrev_from(lm.skip(idx as int), acc@) == abbrev_spec(trace@),
            stopped ==> acc@ == abbrev_spec(trace@),
        decreases lines.len() - idx,
    {
        proof {
            assert(lm.skip(idx as int)[0] == lm[idx as int]);
            assert(lm.skip(idx as int).drop_first() =~= lm.skip(idx as int + 1));
            assert(lm[idx as int] == lines@[idx as int]@);
        }
        let line = &lines[idx];
        let t0 = str_trim(line.as_str());
        let t1 = strip_counter(t0);
        let t2 = replace_backslashes(t1);
        proof {
            assert(t2@ == cleaned_line(lm[idx as int]));
        }
        if str_eq(t2.as_str(), "std::rt::lang_start_internal") {
            stopped = true;
        } else if str_starts_with(t2.as_str(), "std::") || str_starts_with(t2.as_str(), "core::") {
        } else {
            let u = strip_at(t2.as_str());
            if str_contains(u, "/library/std/src/") || str_contains(u, "/library/core/src/") {
            } else {
                let mut next_acc = String::from_str(u);
                if acc.as_str().unicode_len() > 0 {
                    next_acc.append(" ");
                    next_acc.append(acc.as_str());
                }
                acc = next_acc;
            }
        }
        idx += 1;
    }
    proof {
        if !stopped {
            assert(lm.skip(lines@.len() as int) =~= Seq::<Seq<char>>::empty());
        }
    }
    acc
}

/// The hexadecimal digit of a value below sixteen.
pub open spec fn hex_digit(n: int) -> char {
    if n == 0 { '0' } else if n == 1 { '1' } else if n == 2 { '2' } else if n == 3 { '3' }
    else if n == 4 { '4' } else if n == 5 { '5' } else if n == 6 { '6' } else if n == 7 { '7' }
    else if n == 8 { '8' } else if n == 9 { '9' } else if n == 10 { 'a' } else if n == 11 { 'b' }
    else if n == 12 { 'c' } else if n == 13 { 'd' } else if n == 14 { 'e' } else { 'f' }
}

fn hex_digit_of(n: u32) -> (c: char)
    requires
        n < 16,
    ensures
        c == hex_digit(n as int),
{
    if n == 0 { '0' } else if n == 1 { '1' } else if n == 2 { '2' } else if n == 3 { '3' }
    else if n == 4 { '4' } else if n == 5 { '5' } else if n == 6 { '6' } else if n == 7 { '7' }
    else if n == 8 { '8' } else if n == 9 { '9' } else if n == 10 { 'a' } else if n == 11 { 'b' }
    else if n == 12 { 'c' } else if n == 13 { 'd' } else if n == 14 { 'e' } else { 'f' }
}

/// The JSON escape of one character: quote, backslash, and the named
/// control characters get a two-character escape, other control
/// characters a hexadecimal escape, everything else stands for itself.
pub open spec fn esc_char(c: char) -> Seq<char> {
    if c == '"' {
        seq!['\\', '"']
    } else if c == '\\' {
        seq!['\\', '\\']
    } else if c == '\u{8}' {
        seq!['\\', 'b']
    } else if c == '\t' {
        seq!['\\', 't']
    } else if c == '\n' {
        seq!['\\', 'n']
    } else if c == '\u{c}' {
        seq!['\\', 'f']
    } else if c == '\r' {
        seq!['\\', 'r']
    } else if (c as u32) < 32 {
        seq!['\\', 'u', '0', '0', hex_digit((c as u32) as int / 16), hex_digit((c as u32) as int % 16)]
    } else {
        seq![c]
    }
}

/// The JSON escape of a whole text.
pub open spec fn esc_spec(s: Seq<char>) -> Seq<char>
    decreases s.len(),
{
    if s.len() == 0 {
        Seq::<char>::empty()
    } else {
        esc_char(s[0]) + esc_spec(s.drop_first())
    }
}

proof fn lemma_esc_snoc(s: Seq<char>, c: char)
    ensures
        esc_spec(s.push(c)) == esc_spec(s) + esc_char(c),
    decreases s.len(),
{
    if s.len() == 0 {
        assert(s.push(c).drop_first() =~= Seq::<char>::empty());
        assert(s.push(c)[0] == c);
        assert(esc_spec(Seq::<char>::empty()) =~= Seq::<char>::empty());
        assert(esc_spec(s.push(c)) == esc_char(c) + Seq::<char>::empty());
        assert(esc_char(c) + Seq::<char>::empty() =~= esc_char(c));
        assert(esc_spec(s) + esc_char(c) =~= esc_char(c));
    } else {
        assert(s.push(c).drop_first() =~= s.drop_first().push(c));
        lemma_esc_snoc(s.drop_first(), c);
        assert(esc_spec(s.push(c)) == esc_char(s[0]) + (esc_spec(s.drop_first()) + esc_char(c)));
        assert(esc_char(s[0]) + (esc_spec(s.drop_first()) + esc_char(c)) =~= (esc_char(s[0])
            + esc_spec(s.drop_first())) + esc_char(c));
    }
}

fn push_escaped(r: &mut String, c: char)
    ensures
        final(r)@ == old(r)@ + esc_char(c),
{
    let ghost r0 = old(r)@;
    if c == '"' {
        push_char(r, '\\');
        push_char(r, '"');
    } else if c == '\\' {
        push_char(r, '\\');
        push_char(r, '\\');
    } else if c == '\u{8}' {
        push_char(r, '\\');
        push_char(r, 'b');
    } else if c == '\t' {
        push_char(r, '\\');
        push_char(r, 't');
    } else if c == '\n' {
        push_char(r, '\\');
        push_char(r, 'n');
    } else if c == '\u{c}' {
        push_char(r, '\\');
        push_char(r, 'f');
    } else if c == '\r' {
        push_char(r, '\\');
        push_char(r, 'r');
    } else if (c as u32) < 32 {
        let u = c as u32;
        push_char(r, '\\');
        push_char(r, 'u');
        push_char(r, '0');
        push_char(r, '0');
        push_char(r, hex_digit_of(u / 16));
        push_char(r, hex_digit_of(u % 16));
        proof {
            assert(r@ =~= r0 + esc_char(c));
        }
    } else {
        push_char(r, c);
    }
    proof {
        assert(r@ =~= r0 + esc_char(c));
    }
}

/// Escape a text for inclusion in a JSON string.
pub fn escape_json(s: &str) -> (r: String)
    ensures
        r@ == esc_spec(s@),
{
    let n = s.unicode_len();
    let mut r = String::new();
    let mut i: usize = 0;
    while i < n
        invariant
            i <= n,
            n == s@.len(),
            r@ == esc_spec(s@.take(i as int)),
        decreases n - i,
    {
        let c = s.get_char(i);
        proof {
            assert(s@.take(i as int + 1) =~= s@.take(i as int).push(s@[i as int]));
            lemma_esc_snoc(s@.take(i as int), s@[i as int]);
        }
        push_escaped(&mut r, c);
        i += 1;
    }
    proof {
        assert(s@.take(n as int) =~= s@);
    }
    r
}

/// The diagnostic-metadata object merged into the connection
/// parameters: the client-kind marker and the abbreviated call stack.
pub open spec fn metadata_json_spec(stack: Seq<char>) -> Seq<char> {
    "{\"client_kind\":\"U\",\"client_stack\":\""@ + esc_spec(stack) + "\"}"@
}

/// Build the diagnostic-metadata object from a rendered call stack.
pub fn build_metadata_json(stack_trace: &str) -> (r: String)
    ensures
        r@ == metadata_json_spec(abbrev_spec(stack_trace@)),
{
    let abbreviated = abbreviate_stack_trace(stack_trace);
    let escaped = escape_json(abbreviated.as_str());
    let mut r = String::from_str("{\"client_kind\":\"U\",\"client_stack\":\"");
    r.append(escaped.as_str());
    r.append("\"}");
    proof {
        assert(r@ =~= metadata_json_spec(abbrev_spec(stack_trace@)));
    }
    r
}

} // verus!
