//! Substring search on strings, seen as sequences of characters.

use vstd::prelude::*;
use vstd::std_specs::iter::IteratorSpec;
use vstd::string::*;

verus! {

/// `needle` stands in `hay` at position `i`.
pub open spec fn occurs_at(hay: Seq<char>, needle: Seq<char>, i: int) -> bool {
    &&& 0 <= i
    &&& i + needle.len() <= hay.len()
    &&& hay.subrange(i, i + needle.len()) == needle
}

/// `needle` stands somewhere in `hay`.
pub open spec fn occurs(hay: Seq<char>, needle: Seq<char>) -> bool {
    exists|i: int| occurs_at(hay, needle, i)
}

/// `i` is the leftmost position at which `needle` stands in `hay`.
pub open spec fn is_first_occurrence(hay: Seq<char>, needle: Seq<char>, i: int) -> bool {
    &&& occurs_at(hay, needle, i)
    &&& forall|j: int| j < i ==> !occurs_at(hay, needle, j)
}

/// `i` is the rightmost position at which `needle` stands in `hay`.
pub open spec fn is_last_occurrence(hay: Seq<char>, needle: Seq<char>, i: int) -> bool {
    &&& occurs_at(hay, needle, i)
    &&& forall|j: int| i < j ==> !occurs_at(hay, needle, j)
}

/// The leftmost position of `needle` in `hay`, if it occurs at all.
pub open spec fn first_occurrence(hay: Seq<char>, needle: Seq<char>) -> Option<int> {
    if occurs(hay, needle) {
        Some(choose|i: int| is_first_occurrence(hay, needle, i))
    } else {
        None
    }
}

/// The rightmost position of `needle` in `hay`, if it occurs at all.
pub open spec fn last_occurrence(hay: Seq<char>, needle: Seq<char>) -> Option<int> {
    if occurs(hay, needle) {
        Some(choose|i: int| is_last_occurrence(hay, needle, i))
    } else {
        None
    }
}

/// A leftmost position is the only one, and `first_occurrence` names it.
pub proof fn lemma_first_occurrence_is(hay: Seq<char>, needle: Seq<char>, i: int)
    requires
        is_first_occurrence(hay, needle, i),
    ensures
        first_occurrence(hay, needle) == Some(i),
{
}

/// A rightmost position is the only one, and `last_occurrence` names it.
pub proof fn lemma_last_occurrence_is(hay: Seq<char>, needle: Seq<char>, i: int)
    requires
        is_last_occurrence(hay, needle, i),
    ensures
        last_occurrence(hay, needle) == Some(i),
{
}

/// Wherever `needle` occurs, it has a leftmost position, and `first_occurrence`
/// names it.
pub proof fn lemma_first_occurrence_exists(hay: Seq<char>, needle: Seq<char>, k: int)
    requires
        occurs_at(hay, needle, k),
    ensures
        first_occurrence(hay, needle) is Some,
        is_first_occurrence(hay, needle, first_occurrence(hay, needle)->0),
        first_occurrence(hay, needle)->0 <= k,
    decreases k,
{
    if exists|j: int| j < k && occurs_at(hay, needle, j) {
        let j = choose|j: int| j < k && occurs_at(hay, needle, j);
        lemma_first_occurrence_exists(hay, needle, j);
    } else {
        lemma_first_occurrence_is(hay, needle, k);
    }
}

/// Wherever `needle` occurs, it has a rightmost position, and `last_occurrence`
/// names it.
pub proof fn lemma_last_occurrence_exists(hay: Seq<char>, needle: Seq<char>, k: int)
    requires
        occurs_at(hay, needle, k),
    ensures
        last_occurrence(hay, needle) is Some,
        is_last_occurrence(hay, needle, last_occurrence(hay, needle)->0),
        k <= last_occurrence(hay, needle)->0,
    decreases hay.len() - k,
{
    if exists|j: int| k < j && occurs_at(hay, needle, j) {
        let j = choose|j: int| k < j && occurs_at(hay, needle, j);
        lemma_last_occurrence_exists(hay, needle, j);
    } else {
        lemma_last_occurrence_is(hay, needle, k);
    }
}

/// The first character of `needle` stands nowhere else in it, so that two
/// occurrences of `needle` never overlap.
pub open spec fn head_is_unique(needle: Seq<char>) -> bool {
    &&& needle.len() > 0
    &&& forall|k: int| 0 < k < needle.len() ==> #[trigger] needle[k] != needle[0]
}

/// In `before + needle + after`, the `needle` in the middle is the leftmost
/// one when `before` holds none.
pub proof fn lemma_first_occurrence_in_concat(
    before: Seq<char>,
    needle: Seq<char>,
    after: Seq<char>,
)
    requires
        head_is_unique(needle),
        !occurs(before, needle),
    ensures
        is_first_occurrence(before + needle + after, needle, before.len() as int),
        first_occurrence(before + needle + after, needle) == Some(before.len() as int),
{
    let whole = before + needle + after;
    let at = before.len() as int;
    let n = needle.len() as int;
    assert(whole.subrange(at, at + n) =~= needle);
    assert forall|j: int| j < at implies !occurs_at(whole, needle, j) by {
        if occurs_at(whole, needle, j) {
            let found = whole.subrange(j, j + n);
            if j + n <= at {
                assert(before.subrange(j, j + n) =~= found);
                assert(occurs_at(before, needle, j));
            } else {
                assert(found[at - j] == whole[at]);
            }
        }
    }
    lemma_first_occurrence_is(whole, needle, at);
}

/// In `before + needle + after`, the `needle` in the middle is the rightmost
/// one when `after` holds none.
pub proof fn lemma_last_occurrence_in_concat(
    before: Seq<char>,
    needle: Seq<char>,
    after: Seq<char>,
)
    requires
        head_is_unique(needle),
        !occurs(after, needle),
    ensures
        is_last_occurrence(before + needle + after, needle, before.len() as int),
        last_occurrence(before + needle + after, needle) == Some(before.len() as int),
{
    let whole = before + needle + after;
    let at = before.len() as int;
    let n = needle.len() as int;
    assert(whole.subrange(at, at + n) =~= needle);
    assert forall|j: int| at < j implies !occurs_at(whole, needle, j) by {
        if occurs_at(whole, needle, j) {
            let found = whole.subrange(j, j + n);
            if at + n <= j {
                assert(after.subrange(j - at - n, j - at) =~= found);
                assert(occurs_at(after, needle, j - at - n));
            } else {
                assert(whole[j] == needle[j - at]);
            }
        }
    }
    lemma_last_occurrence_is(whole, needle, at);
}

/// The characters of `s`, in order.
pub fn chars_of(s: &str) -> (v: Vec<char>)
    ensures
        v@ == s@,
{
    broadcast use group_string_axioms;

    let mut v: Vec<char> = Vec::new();
    let mut it = s.chars();
    loop
        invariant
            it.obeys_prophetic_iter_laws(),
            it.decrease() is Some,
            v@ + it.remaining() == s@,
        decreases it.decrease()->0,
    {
        match it.next() {
            Some(c) => {
                v.push(c);
            },
            None => {
                return v;
            },
        }
    }
}

/// Whether `needle` stands in `hay` at position `i`.
pub fn matches_at(hay: &Vec<char>, needle: &Vec<char>, i: usize) -> (b: bool)
    ensures
        b == occurs_at(hay@, needle@, i as int),
{
    let m: usize = needle.len();
    if m > hay.len() || i > hay.len() - m {
        return false;
    }
    let mut k: usize = 0;
    while k < m
        invariant
            m == needle.len(),
            i + m <= hay.len(),
            k <= m,
            forall|j: int| 0 <= j < k ==> hay@[i + j] == needle@[j],
        decreases m - k,
    {
        if hay[i + k] != needle[k] {
            return false;
        }
        k += 1;
    }
    proof {
        assert(hay@.subrange(i as int, i + m) =~= needle@);
    }
    true
}

/// The leftmost position of `needle` in `hay`, counted in characters.
pub fn find(hay: &str, needle: &str) -> (r: Option<usize>)
    ensures
        match r {
            Some(i) => first_occurrence(hay@, needle@) == Some(i as int) && is_first_occurrence(
                hay@,
                needle@,
                i as int,
            ),
            None => first_occurrence(hay@, needle@) is None,
        },
{
    let h = chars_of(hay);
    let n = chars_of(needle);
    if n.len() > h.len() {
        return None;
    }
    let last: usize = h.len() - n.len();
    let mut i: usize = 0;
    loop
        invariant
            h@ == hay@,
            n@ == needle@,
            last + n.len() == h.len(),
            i <= last,
            forall|j: int| j < i ==> !occurs_at(hay@, needle@, j),
        decreases last - i,
    {
        if matches_at(&h, &n, i) {
            proof {
                lemma_first_occurrence_is(hay@, needle@, i as int);
            }
            return Some(i);
        }
        if i == last {
            return None;
        }
        i += 1;
    }
}

/// The rightmost position of `needle` in `hay`, counted in characters.
pub fn rfind(hay: &str, needle: &str) -> (r: Option<usize>)
    ensures
        match r {
            Some(i) => last_occurrence(hay@, needle@) == Some(i as int) && is_last_occurrence(
                hay@,
                needle@,
                i as int,
            ),
            None => last_occurrence(hay@, needle@) is None,
        },
{
    let h = chars_of(hay);
    let n = chars_of(needle);
    if n.len() > h.len() {
        return None;
    }
    let mut i: usize = h.len() - n.len();
    loop
        invariant
            h@ == hay@,
            n@ == needle@,
            i + n.len() <= h.len(),
            forall|j: int| i < j ==> !occurs_at(hay@, needle@, j),
        decreases i,
    {
        if matches_at(&h, &n, i) {
            proof {
                lemma_last_occurrence_is(hay@, needle@, i as int);
            }
            return Some(i);
        }
        if i == 0 {
            return None;
        }
        i -= 1;
    }
}

} // verus!
