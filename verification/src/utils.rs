use vstd::prelude::*;

verus! {

/// The bytes of `needle` occur in `hay` starting at index `i`.
pub open spec fn match_at(hay: Seq<u8>, needle: Seq<u8>, i: int) -> bool
    recommends
        0 <= i,
        i + needle.len() <= hay.len(),
{
    hay.subrange(i, i + needle.len()) == needle
}

/// `needle` occurs nowhere in `hay`.
pub open spec fn no_match_in(hay: Seq<u8>, needle: Seq<u8>) -> bool {
    forall|j: int| 0 <= j <= hay.len() - needle.len() ==> !match_at(hay, needle, j)
}

/// `needle` occurs in `hay` at index `g` and nowhere earlier.
pub open spec fn first_match_at(hay: Seq<u8>, needle: Seq<u8>, g: int) -> bool {
    &&& 0 <= g
    &&& g + needle.len() <= hay.len()
    &&& match_at(hay, needle, g)
    &&& forall|j: int| 0 <= j < g ==> !match_at(hay, needle, j)
}

/// Two positions that are both a first match are the same position.
pub proof fn lemma_first_match_unique(hay: Seq<u8>, needle: Seq<u8>, g1: int, g2: int)
    requires
        first_match_at(hay, needle, g1),
        first_match_at(hay, needle, g2),
    ensures
        g1 == g2,
{
    if g1 < g2 {
        assert(!match_at(hay, needle, g1));
    } else if g2 < g1 {
        assert(!match_at(hay, needle, g2));
    }
}

/// Whether `needle` occurs in `hay` starting exactly at `i`.
fn is_match_at(hay: &[u8], needle: &[u8], i: usize) -> (r: bool)
    requires
        i + needle@.len() <= hay@.len(),
    ensures
        r == match_at(hay@, needle@, i as int),
{
    let n = needle.len();
    proof {
        assert(hay.len() == hay@.len());
    }
    let mut t: usize = 0;
    while t < n
        invariant
            n == needle@.len(),
            i + n <= hay@.len(),
            hay@.len() <= usize::MAX,
            t <= n,
            forall|u: int| 0 <= u < t ==> hay@[i + u] == needle@[u],
        decreases n - t,
    {
        if hay[i + t] != needle[t] {
            proof {
                if match_at(hay@, needle@, i as int) {
                    let ti = t as int;
                    assert(hay@.subrange(i as int, i + needle@.len())[ti] == needle@[ti]);
                }
            }
            return false;
        }
        t += 1;
    }
    proof {
        assert(hay@.subrange(i as int, i + needle@.len()) =~= needle@);
    }
    true
}

/// Find the first occurrence of `needle` inside `hay`, scanning from the
/// front, as a non-streaming full scan would.
pub fn find_subslice(hay: &[u8], needle: &[u8]) -> (r: Option<usize>)
    requires
        needle@.len() >= 1,
    ensures
        match r {
            Some(g) => first_match_at(hay@, needle@, g as int),
            None => no_match_in(hay@, needle@),
        },
{
    if hay.len() < needle.len() {
        return None;
    }
    let last = hay.len() - needle.len();
    let mut i: usize = 0;
    while i <= last
        invariant
            needle@.len() >= 1,
            hay@.len() <= usize::MAX,
            needle@.len() <= hay@.len(),
            last == hay@.len() - needle@.len(),
            i <= last + 1,
            forall|j: int| 0 <= j < i ==> !match_at(hay@, needle@, j),
        decreases last + 1 - i,
    {
        if is_match_at(hay, needle, i) {
            return Some(i);
        }
        i += 1;
    }
    None
}

} // verus!
