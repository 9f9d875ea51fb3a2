//! Case-sensitive substring containment on text, the predicate behind every
//! derived relationship.

use vstd::prelude::*;

verus! {

/// `needle` stands in `hay` starting at offset `at`.
pub open spec fn occurs_at(hay: Seq<char>, needle: Seq<char>, at: int) -> bool {
    &&& 0 <= at
    &&& at + needle.len() <= hay.len()
    &&& hay.subrange(at, at + needle.len()) == needle
}

/// `needle` is a contiguous, case-sensitive part of `hay`.
///
/// The empty text is part of every text. No tokenising is done: `"Ann"` is part
/// of `"Anna Smith"`.
pub open spec fn contains_text(hay: Seq<char>, needle: Seq<char>) -> bool {
    exists|at: int| occurs_at(hay, needle, at)
}

/// The characters of `s`, in order.
pub fn chars_of(s: &str) -> (out: Vec<char>)
    ensures
        out@ == s@,
{
    let mut out: Vec<char> = Vec::new();
    for c in it: s.chars()
        invariant
            out@ == it.seq().take(it.index() as int),
    {
        out.push(c);
    }
    out
}

/// Whether `needle` stands in `hay` at offset `at`.
fn matches_at(hay: &Vec<char>, needle: &Vec<char>, at: usize) -> (ok: bool)
    requires
        at + needle.len() <= hay.len(),
    ensures
        ok == occurs_at(hay@, needle@, at as int),
{
    let ghost window = hay@.subrange(at as int, at + needle.len());
    let mut k: usize = 0;
    while k < needle.len()
        invariant
            k <= needle.len(),
            at + needle.len() <= hay.len(),
            window == hay@.subrange(at as int, at + needle.len()),
            forall|j: int| 0 <= j < k ==> window[j] == needle@[j],
        decreases needle.len() - k,
    {
        if hay[at + k] != needle[k] {
            assert(window[k as int] != needle@[k as int]);
            return false;
        }
        k += 1;
    }
    assert(window =~= needle@);
    true
}

/// Tells whether `needle` is a case-sensitive substring of `hay`.
pub fn contains(hay: &str, needle: &str) -> (found: bool)
    ensures
        found == contains_text(hay@, needle@),
{
    let h = chars_of(hay);
    let n = chars_of(needle);
    if n.len() > h.len() {
        return false;
    }
    let last: usize = h.len() - n.len();
    let mut at: usize = 0;
    loop
        invariant
            at <= last,
            last == h.len() - n.len(),
            h@ == hay@,
            n@ == needle@,
            forall|a: int| 0 <= a < at ==> !occurs_at(h@, n@, a),
        decreases last - at,
    {
        if matches_at(&h, &n, at) {
            return true;
        }
        if at == last {
            return false;
        }
        at += 1;
    }
}

/// Tells whether an optional text field is present and contains `needle`.
pub open spec fn field_contains_text(field: Option<Seq<char>>, needle: Seq<char>) -> bool {
    match field {
        Some(hay) => contains_text(hay, needle),
        None => false,
    }
}

/// Tells whether `list` holds a text equal to `value`.
pub fn holds_text(list: &Vec<String>, value: &String) -> (found: bool)
    ensures
        found == list.deep_view().contains(value@),
{
    let ghost texts = list.deep_view();
    for i in 0..list.len()
        invariant
            texts == list.deep_view(),
            forall|j: int| 0 <= j < i ==> texts[j] != value@,
    {
        if list[i] == *value {
            assert(texts[i as int] == value@);
            return true;
        }
    }
    false
}

} // verus!
