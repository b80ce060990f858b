//! Lists of file extensions, seen as sequences of character strings.

use vstd::prelude::*;
use vstd::utf8::encode_utf8_decode_utf8;

verus! {

/// The extensions of a list, each as the characters it is made of, in the
/// order of the list.
pub open spec fn names(list: Seq<&'static str>) -> Seq<Seq<char>> {
    Seq::new(list.len(), |i: int| list[i]@)
}

/// No extension occurs in both lists.
pub open spec fn disjoint(left: Seq<Seq<char>>, right: Seq<Seq<char>>) -> bool {
    forall|extension: Seq<char>| !(left.contains(extension) && right.contains(extension))
}

/// The lists are disjoint, each from every other.
pub open spec fn pairwise_disjoint(lists: Seq<Seq<Seq<char>>>) -> bool {
    forall|a: int, b: int|
        0 <= a < lists.len() && 0 <= b < lists.len() && a != b ==> disjoint(lists[a], lists[b])
}

/// Where extension lists are pairwise disjoint, every extension of a list
/// belongs to that list alone: of all the lists, that one holds it and no
/// other does.
pub proof fn lemma_extension_has_one_owner(
    registered: Seq<Seq<Seq<char>>>,
    owner: int,
    position: int,
)
    requires
        pairwise_disjoint(registered),
        0 <= owner < registered.len(),
        0 <= position < registered[owner].len(),
    ensures
        forall|other: int|
            0 <= other < registered.len() ==> (#[trigger] registered[other].contains(
                registered[owner][position],
            ) <==> other == owner),
{
    let extension = registered[owner][position];
    assert(registered[owner].contains(extension));
    assert forall|other: int| 0 <= other < registered.len() implies (
    #[trigger] registered[other].contains(extension) <==> other == owner) by {
        if other != owner {
            assert(disjoint(registered[owner], registered[other]));
        }
    }
}

/// Whether two strings are made of the same characters.
pub fn same_text(left: &str, right: &str) -> (same: bool)
    ensures
        same == (left@ == right@),
{
    let a = left.as_bytes();
    let b = right.as_bytes();
    // A string is determined by its UTF-8 bytes.
    assert((left@ == right@) == (a@ == b@)) by {
        encode_utf8_decode_utf8(left@);
        encode_utf8_decode_utf8(right@);
    }
    if a.len() != b.len() {
        return false;
    }
    let mut i: usize = 0;
    while i < a.len()
        invariant
            (left@ == right@) == (a@ == b@),
            a@.len() == b@.len(),
            i <= a@.len(),
            a@.subrange(0, i as int) == b@.subrange(0, i as int),
        decreases a@.len() - i,
    {
        if a[i] != b[i] {
            return false;
        }
        assert(a@.subrange(0, i + 1) == a@.subrange(0, i as int).push(a@[i as int]));
        assert(b@.subrange(0, i + 1) == b@.subrange(0, i as int).push(b@[i as int]));
        i += 1;
    }
    assert(a@ == a@.subrange(0, i as int));
    assert(b@ == b@.subrange(0, i as int));
    true
}

/// Whether `extension` is one of the extensions in `list`.
pub fn includes(list: &[&'static str], extension: &str) -> (found: bool)
    ensures
        found == names(list@).contains(extension@),
{
    let mut i: usize = 0;
    while i < list.len()
        invariant
            i <= list@.len(),
            forall|k: int| 0 <= k < i ==> names(list@)[k] != extension@,
        decreases list@.len() - i,
    {
        if same_text(list[i], extension) {
            assert(names(list@)[i as int] == extension@);
            return true;
        }
        i += 1;
    }
    false
}

} // verus!
