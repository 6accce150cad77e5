//! Small helpers on strings and on sequences of characters.

use vstd::prelude::*;

verus! {

/// Whether `c` occurs nowhere in `s`.
pub open spec fn free_of(s: Seq<char>, c: char) -> bool {
    forall|i: int| 0 <= i < s.len() ==> s[i] != c
}

/// Two string slices hold the same characters.
pub fn same_text(a: &str, b: &str) -> (same: bool)
    ensures
        same == (a@ == b@),
{
    a.to_owned() == b.to_owned()
}

/// A sequence cut at a separator that the left part does not hold can be cut
/// there in one way only.
pub proof fn lemma_cut_at_first(a1: Seq<char>, b1: Seq<char>, a2: Seq<char>, b2: Seq<char>, sep: char)
    requires
        free_of(a1, sep),
        free_of(a2, sep),
        a1 + seq![sep] + b1 == a2 + seq![sep] + b2,
    ensures
        a1 == a2,
        b1 == b2,
{
    let left = a1 + seq![sep] + b1;
    let right = a2 + seq![sep] + b2;
    assert(left[a1.len() as int] == sep);
    assert(right[a2.len() as int] == sep);
    if a1.len() < a2.len() {
        assert(right[a1.len() as int] == a2[a1.len() as int]);
    }
    if a2.len() < a1.len() {
        assert(left[a2.len() as int] == a1[a2.len() as int]);
    }
    assert(a1.len() == a2.len());
    assert(left.len() == right.len());
    assert(a1 =~= a2) by {
        assert forall|i: int| 0 <= i < a1.len() implies a1[i] == a2[i] by {
            assert(left[i] == a1[i]);
            assert(right[i] == a2[i]);
        }
    }
    assert(b1 =~= b2) by {
        assert(b1.len() == b2.len());
        assert forall|i: int| 0 <= i < b1.len() implies b1[i] == b2[i] by {
            assert(left[a1.len() + 1 + i] == b1[i]);
            assert(right[a2.len() + 1 + i] == b2[i]);
        }
    }
}

/// A sequence cut at a separator that the right part does not hold can be cut
/// there in one way only.
pub proof fn lemma_cut_at_last(a1: Seq<char>, b1: Seq<char>, a2: Seq<char>, b2: Seq<char>, sep: char)
    requires
        free_of(b1, sep),
        free_of(b2, sep),
        a1 + seq![sep] + b1 == a2 + seq![sep] + b2,
    ensures
        a1 == a2,
        b1 == b2,
{
    let left = a1 + seq![sep] + b1;
    let right = a2 + seq![sep] + b2;
    assert(left.len() == right.len());
    assert(left[a1.len() as int] == sep);
    assert(right[a2.len() as int] == sep);
    if a1.len() < a2.len() {
        assert(left[a2.len() as int] == b1[a2.len() - a1.len() - 1]);
    }
    if a2.len() < a1.len() {
        assert(right[a1.len() as int] == b2[a1.len() - a2.len() - 1]);
    }
    assert(a1.len() == a2.len());
    assert(a1 =~= a2) by {
        assert forall|i: int| 0 <= i < a1.len() implies a1[i] == a2[i] by {
            assert(left[i] == a1[i]);
            assert(right[i] == a2[i]);
        }
    }
    assert(b1 =~= b2) by {
        assert(b1.len() == b2.len());
        assert forall|i: int| 0 <= i < b1.len() implies b1[i] == b2[i] by {
            assert(left[a1.len() + 1 + i] == b1[i]);
            assert(right[a2.len() + 1 + i] == b2[i]);
        }
    }
}

} // verus!
