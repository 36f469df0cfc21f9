//! Searching in text without regard to case.

use vstd::prelude::*;

verus! {

/// The lowercase form that std gives to a text.
pub uninterp spec fn lowercase_of(text: Seq<char>) -> Seq<char>;

/// `str::to_lowercase`: the lowercase form of the text, which depends on the
/// text alone.
#[verifier::external_body]
fn lowercase(text: &str) -> (lower: String)
    ensures
        lower@ == lowercase_of(text@),
{
    text.to_lowercase()
}

/// Whether `needle` occurs at position `at` of `hay`.
pub open spec fn occurs_at(needle: Seq<char>, hay: Seq<char>, at: int) -> bool {
    0 <= at && at + needle.len() <= hay.len() && hay.subrange(at, at + needle.len()) == needle
}

/// Whether `needle` occurs somewhere in `hay` as a run of adjacent characters.
/// The empty text occurs in every text.
pub open spec fn is_infix(needle: Seq<char>, hay: Seq<char>) -> bool {
    exists|at: int| occurs_at(needle, hay, at)
}

/// Whether a name is found by a query: the query is empty, or its lowercase
/// form occurs in the lowercase form of the name.
pub open spec fn found_by(name: Seq<char>, query: Seq<char>) -> bool {
    query.len() == 0 || is_infix(lowercase_of(query), lowercase_of(name))
}

/// The characters of a text.
fn chars_of(text: &str) -> (chars: Vec<char>)
    ensures
        chars@ == text@,
{
    let len = text.unicode_len();
    let mut chars: Vec<char> = Vec::new();
    let mut i: usize = 0;
    while i < len
        invariant
            len == text@.len(),
            i <= len,
            chars@ == text@.subrange(0, i as int),
        decreases len - i,
    {
        chars.push(text.get_char(i));
        i += 1;
        assert(chars@ =~= text@.subrange(0, i as int));
    }
    assert(text@.subrange(0, len as int) =~= text@);
    chars
}

/// Whether `needle` stands at position `at` of `hay`.
fn matches_at(needle: &Vec<char>, hay: &Vec<char>, at: usize) -> (found: bool)
    requires
        at + needle.len() <= hay.len(),
    ensures
        found == occurs_at(needle@, hay@, at as int),
{
    let mut k: usize = 0;
    while k < needle.len()
        invariant
            at + needle.len() <= hay.len(),
            k <= needle.len(),
            forall|j: int| 0 <= j < k ==> hay@[at + j] == needle@[j],
        decreases needle.len() - k,
    {
        if hay[at + k] != needle[k] {
            proof {
                let part = hay@.subrange(at as int, at + needle.len());
                assert(part[k as int] == hay@[at + k]);
            }
            return false;
        }
        k += 1;
    }
    assert(hay@.subrange(at as int, at + needle.len()) =~= needle@);
    true
}

/// Whether `needle` occurs in `hay`, case and all.
pub fn contains_text(hay: &str, needle: &str) -> (found: bool)
    ensures
        found == is_infix(needle@, hay@),
{
    let hay_chars = chars_of(hay);
    let needle_chars = chars_of(needle);
    if needle_chars.len() > hay_chars.len() {
        return false;
    }
    let last: usize = hay_chars.len() - needle_chars.len();
    let mut at: usize = 0;
    loop
        invariant
            hay_chars@ == hay@,
            needle_chars@ == needle@,
            last + needle_chars.len() == hay_chars.len(),
            at <= last,
            forall|j: int| 0 <= j < at ==> !occurs_at(needle@, hay@, j),
        decreases last - at,
    {
        if matches_at(&needle_chars, &hay_chars, at) {
            return true;
        }
        if at == last {
            return false;
        }
        at += 1;
    }
}

/// Whether a name is found by a query, whatever the case of either: an empty
/// query finds every name.
pub fn name_matches(name: &str, query: &str) -> (found: bool)
    ensures
        found == found_by(name@, query@),
{
    if query.is_empty() {
        return true;
    }
    let lower_name = lowercase(name);
    let lower_query = lowercase(query);
    contains_text(lower_name.as_str(), lower_query.as_str())
}

} // verus!
