//! The order in which task scripts are listed: file names compared
//! character by character by code point, a proper prefix first. It is the
//! order of their UTF-8 bytes, which is how paths in one directory sort.

use vstd::prelude::*;
use crate::text::chars_le;

verus! {

/// `a` and `b` agree on their first `i` characters.
pub open spec fn common_prefix(a: Seq<char>, b: Seq<char>, i: int) -> bool {
    0 <= i <= a.len() && i <= b.len() && forall|j: int| 0 <= j < i ==> a[j] == b[j]
}

pub proof fn lemma_le_skip(a: Seq<char>, b: Seq<char>, i: int)
    requires
        common_prefix(a, b, i),
    ensures
        chars_le(a, b) == chars_le(a.skip(i), b.skip(i)),
    decreases i,
{
    if i > 0 {
        assert(a[0] == b[0]);
        lemma_le_skip(a.drop_first(), b.drop_first(), i - 1);
        assert(a.drop_first().skip(i - 1) =~= a.skip(i));
        assert(b.drop_first().skip(i - 1) =~= b.skip(i));
    } else {
        assert(a.skip(0) =~= a);
        assert(b.skip(0) =~= b);
    }
}

pub proof fn lemma_le_total(a: Seq<char>, b: Seq<char>)
    ensures
        chars_le(a, b) || chars_le(b, a),
    decreases a.len(),
{
    if a.len() > 0 && b.len() > 0 && a[0] == b[0] {
        lemma_le_total(a.drop_first(), b.drop_first());
    }
}

pub proof fn lemma_le_trans(a: Seq<char>, b: Seq<char>, c: Seq<char>)
    requires
        chars_le(a, b),
        chars_le(b, c),
    ensures
        chars_le(a, c),
    decreases a.len(),
{
    if a.len() > 0 && b.len() > 0 && c.len() > 0 && a[0] == b[0] && b[0] == c[0] {
        lemma_le_trans(a.drop_first(), b.drop_first(), c.drop_first());
    }
}

pub proof fn lemma_le_refl(a: Seq<char>)
    ensures
        chars_le(a, a),
{
    lemma_le_total(a, a);
}

/// Whether `a` comes strictly before `b`.
pub fn chars_lt(a: &Vec<char>, b: &Vec<char>) -> (res: bool)
    ensures
        res == !chars_le(b@, a@),
{
    let mut i: usize = 0;
    while i < a.len() && i < b.len() && a[i] == b[i]
        invariant
            common_prefix(a@, b@, i as int),
        decreases a.len() - i,
    {
        i = i + 1;
    }
    proof {
        lemma_le_skip(b@, a@, i as int);
        assert(common_prefix(b@, a@, i as int));
    }
    if i == b.len() {
        false
    } else if i == a.len() {
        true
    } else {
        proof {
            assert(b@.skip(i as int)[0] == b@[i as int]);
            assert(a@.skip(i as int)[0] == a@[i as int]);
        }
        a[i] < b[i]
    }
}

} // verus!
