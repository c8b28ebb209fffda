//! The JSON object merge performed by the in-memory native double. The
//! double recognises an object by its braces and merges two objects by
//! splicing their member lists; it does not re-serialise and does not
//! deduplicate keys, so for objects with disjoint keys the merge is
//! their union.

use vstd::prelude::*;
use vstd::string::{StrSliceExecFns, StringExecFns};
use crate::text::{str_trim, trim_spec};

verus! {

/// An object text: once trimmed it is at least a brace pair, opening
/// with `{` and closing with `}`.
pub open spec fn is_object_text(s: Seq<char>) -> bool {
    let t = trim_spec(s);
    t.len() >= 2 && t[0] == '{' && t[t.len() - 1] == '}'
}

/// The member list of an object text: what stands between its braces,
/// trimmed.
pub open spec fn members_spec(s: Seq<char>) -> Seq<char> {
    let t = trim_spec(s);
    trim_spec(t.subrange(1, t.len() - 1))
}

/// The merge of two object texts: one object holding the members of the
/// first and then the members of the second. Anything that is not a
/// pair of object texts does not merge.
pub open spec fn merge_spec(a: Seq<char>, b: Seq<char>) -> Option<Seq<char>> {
    if is_object_text(a) && is_object_text(b) {
        let ma = members_spec(a);
        let mb = members_spec(b);
        let mid = if ma.len() == 0 {
            mb
        } else if mb.len() == 0 {
            ma
        } else {
            ma + seq![','] + mb
        };
        Option::Some(seq!['{'] + mid + seq!['}'])
    } else {
        Option::None
    }
}

/// Two object texts always merge, and the merge is itself an object
/// text.
pub proof fn lemma_merge_yields_object(a: Seq<char>, b: Seq<char>)
    requires
        is_object_text(a),
        is_object_text(b),
    ensures
        merge_spec(a, b) matches Option::Some(m) && is_object_text(m),
{
    let ma = members_spec(a);
    let mb = members_spec(b);
    let mid = if ma.len() == 0 {
        mb
    } else if mb.len() == 0 {
        ma
    } else {
        ma + seq![','] + mb
    };
    let m = seq!['{'] + mid + seq!['}'];
    assert(m[0] == '{');
    assert(m[m.len() - 1] == '}');
    crate::text::lemma_trim_noop(m);
}

/// The merge of two object texts with nonempty member lists carries the
/// members of the first and then the members of the second, separated
/// by a comma — with disjoint keys, the union of the two objects.
pub proof fn lemma_merge_members(a: Seq<char>, b: Seq<char>)
    requires
        is_object_text(a),
        is_object_text(b),
        members_spec(a).len() > 0,
        members_spec(b).len() > 0,
    ensures
        merge_spec(a, b) matches Option::Some(m) && members_spec(m) == members_spec(a) + seq![',']
            + members_spec(b),
{
    let ma = members_spec(a);
    let mb = members_spec(b);
    crate::text::lemma_trim_ends(trim_spec(a).subrange(1, trim_spec(a).len() - 1));
    crate::text::lemma_trim_ends(trim_spec(b).subrange(1, trim_spec(b).len() - 1));
    let mid = ma + seq![','] + mb;
    let m = seq!['{'] + mid + seq!['}'];
    assert(m[0] == '{');
    assert(m[m.len() - 1] == '}');
    crate::text::lemma_trim_noop(m);
    assert(m.subrange(1, m.len() - 1) =~= mid);
    assert(mid[0] == ma[0]);
    assert(mid[mid.len() - 1] == mb[mb.len() - 1]);
    crate::text::lemma_trim_noop(mid);
}

/// Whether a text is an object text.
pub fn check_object_text(s: &str) -> (r: bool)
    ensures
        r == is_object_text(s@),
{
    let t = str_trim(s);
    let n = t.unicode_len();
    n >= 2 && t.get_char(0) == '{' && t.get_char(n - 1) == '}'
}

/// Merge two object texts; `None` when either input is not an object
/// text.
pub fn merge_json(a: &str, b: &str) -> (r: Option<String>)
    ensures
        r matches Option::Some(m) ==> merge_spec(a@, b@) == Option::Some(m@),
        r is None <==> merge_spec(a@, b@) is None,
{
    if !check_object_text(a) || !check_object_text(b) {
        return None;
    }
    let ta = str_trim(a);
    let tb = str_trim(b);
    let na = ta.unicode_len();
    let nb = tb.unicode_len();
    let ma = str_trim(ta.substring_char(1, na - 1));
    let mb = str_trim(tb.substring_char(1, nb - 1));
    proof {
        assert(ta@.subrange(1, na - 1) =~= trim_spec(a@).subrange(1, trim_spec(a@).len() - 1));
        assert(tb@.subrange(1, nb - 1) =~= trim_spec(b@).subrange(1, trim_spec(b@).len() - 1));
        assert(ma@ == members_spec(a@));
        assert(mb@ == members_spec(b@));
    }
    let mut r = String::from_str("{");
    if ma.unicode_len() == 0 {
        r.append(mb);
    } else if mb.unicode_len() == 0 {
        r.append(ma);
    } else {
        r.append(ma);
        r.append(",");
        r.append(mb);
    }
    r.append("}");
    proof {
        reveal_strlit("{");
        reveal_strlit(",");
        reveal_strlit("}");
        assert(merge_spec(a@, b@) matches Option::Some(m) && r@ =~= m);
    }
    Some(r)
}

} // verus!
