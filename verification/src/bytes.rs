//! Searching and comparing byte strings.

use vstd::prelude::*;

verus! {

/// `i` is the position of the first `needle` in `hay`.
pub open spec fn is_first_at(hay: Seq<u8>, needle: u8, i: int) -> bool {
    &&& 0 <= i < hay.len()
    &&& hay[i] == needle
    &&& forall|j: int| 0 <= j < i ==> hay[j] != needle
}

/// The position of the first `needle` in `hay`, or the length of `hay`
/// where it holds none.
pub open spec fn first_index(hay: Seq<u8>, needle: u8) -> int
    decreases hay.len(),
{
    if hay.len() == 0 {
        0
    } else if hay[0] == needle {
        0
    } else {
        1 + first_index(hay.drop_first(), needle)
    }
}

/// `first_index` is the one position that `is_first_at` accepts.
pub proof fn lemma_first_index(hay: Seq<u8>, needle: u8)
    ensures
        0 <= first_index(hay, needle) <= hay.len(),
        first_index(hay, needle) < hay.len() ==> is_first_at(hay, needle, first_index(hay, needle)),
        forall|j: int| 0 <= j < first_index(hay, needle) ==> hay[j] != needle,
    decreases hay.len(),
{
    if hay.len() != 0 && hay[0] != needle {
        let tail = hay.drop_first();
        lemma_first_index(tail, needle);
        assert forall|j: int| 0 <= j < first_index(hay, needle) implies hay[j] != needle by {
            if j > 0 {
                assert(hay[j] == tail[j - 1]);
            }
        }
        if first_index(hay, needle) < hay.len() {
            assert(hay[first_index(hay, needle)] == tail[first_index(tail, needle)]);
        }
    }
}

/// Any position that `is_first_at` accepts is `first_index`.
pub proof fn lemma_first_index_unique(hay: Seq<u8>, needle: u8, i: int)
    requires
        is_first_at(hay, needle, i) || (i == hay.len() && forall|j: int|
            0 <= j < hay.len() ==> hay[j] != needle),
    ensures
        first_index(hay, needle) == i,
{
    lemma_first_index(hay, needle);
    let k = first_index(hay, needle);
    if k < i {
        assert(hay[k] == needle);
    } else if i < k {
        assert(hay[i] != needle);
    }
}

/// The first occurrence of a byte, found by `memchr::memchr`: the index it
/// returns is in range, holds `needle`, and no earlier position does; it
/// returns `None` exactly where `needle` does not occur.
#[verifier::external_body]
pub(crate) fn memchr(needle: u8, haystack: &[u8]) -> (found: Option<usize>)
    ensures
        match found {
            Some(i) => is_first_at(haystack@, needle, i as int),
            None => forall|j: int| 0 <= j < haystack@.len() ==> haystack@[j] != needle,
        },
{
    memchr::memchr(needle, haystack)
}

/// The position of the first `needle` in `hay`.
pub fn find_byte(hay: &[u8], needle: u8) -> (found: Option<usize>)
    ensures
        match found {
            Some(i) => i as int == first_index(hay@, needle) && i < hay@.len(),
            None => first_index(hay@, needle) == hay@.len(),
        },
{
    let found = memchr(needle, hay);
    proof {
        match found {
            Some(i) => lemma_first_index_unique(hay@, needle, i as int),
            None => lemma_first_index_unique(hay@, needle, hay@.len() as int),
        }
    }
    found
}

/// Whether two byte strings are equal.
pub fn bytes_eq(a: &[u8], b: &[u8]) -> (same: bool)
    ensures
        same == (a@ == b@),
{
    if a.len() != b.len() {
        return false;
    }
    let mut i: usize = 0;
    while i < a.len()
        invariant
            a@.len() == b@.len(),
            0 <= i <= a@.len(),
            forall|j: int| 0 <= j < i ==> a@[j] == b@[j],
        decreases a@.len() - i,
    {
        if a[i] != b[i] {
            return false;
        }
        i += 1;
    }
    assert(a@ =~= b@);
    true
}

} // verus!
