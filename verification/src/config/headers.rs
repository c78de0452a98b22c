//! Lists of headers: where the content type stands, what media type it
//! names, and the content type that is set where there is none.

use vstd::prelude::*;
use crate::config::{APPLICATION_JSON, CONTENT_TYPE};
use crate::entries::{
    key_index, lemma_key_index, lemma_key_index_is_first, lemma_no_key_index, pairs_view, Entries,
};
use crate::json::text_view;
use crate::text::{
    ascii_lowered, chars_of, eq_ignore_ascii_case, find_char, first_index, lemma_no_first_index,
    string_of,
};

verus! {

/// The entries `m` with their keys in lower case.
pub open spec fn lowered_keys(m: Entries) -> Entries {
    Seq::new(m.len(), |i: int| (ascii_lowered(m[i].0), m[i].1))
}

/// The value of the first header of `m` named `name`, whatever the case of
/// the letters of either name.
pub open spec fn header_value(m: Entries, name: Seq<char>) -> Option<Seq<char>> {
    match key_index(lowered_keys(m), ascii_lowered(name)) {
        Some(i) => Some(m[i].1),
        None => None,
    }
}

/// The media type that a content type names: what stands before its first
/// semicolon.
pub open spec fn media_type(value: Seq<char>) -> Seq<char> {
    match first_index(value, ';') {
        Some(i) => value.take(i),
        None => value,
    }
}

/// The media type of the content type of the headers `m`.
pub open spec fn content_type(m: Entries) -> Option<Seq<char>> {
    match header_value(m, CONTENT_TYPE@) {
        Some(value) => Some(media_type(value)),
        None => None,
    }
}

/// Whether `media` is the media type `name`, whatever the case of the
/// letters.
pub open spec fn is_media(media: Seq<char>, name: Seq<char>) -> bool {
    ascii_lowered(media) == ascii_lowered(name)
}

/// The headers `m`, with the content type of JSON at the end where `m` has
/// no content type.
pub open spec fn with_content_type(m: Entries) -> Entries {
    if header_value(m, CONTENT_TYPE@).is_some() {
        m
    } else {
        m.push((CONTENT_TYPE@, APPLICATION_JSON@))
    }
}

/// Headers without a content type get that of JSON: it is the media type of
/// the headers with the content type set.
pub proof fn lemma_default_content_type(m: Entries)
    requires
        header_value(m, CONTENT_TYPE@).is_none(),
    ensures
        with_content_type(m) == m.push((CONTENT_TYPE@, APPLICATION_JSON@)),
        content_type(with_content_type(m)) == Some(APPLICATION_JSON@),
{
    let set = m.push((CONTENT_TYPE@, APPLICATION_JSON@));
    let low = lowered_keys(set);
    let name = ascii_lowered(CONTENT_TYPE@);
    lemma_key_index_is_first(lowered_keys(m), name);
    assert forall|j: int| 0 <= j < m.len() implies low[j].0 != name by {
        assert(low[j].0 == lowered_keys(m)[j].0);
    }
    assert(low[m.len() as int].0 == name);
    lemma_key_index(low, name, m.len() as int);
    reveal_strlit("application/json");
    lemma_no_first_index(APPLICATION_JSON@, ';');
}

/// The place of the first header of `v` named `name`, whatever the case of
/// the letters of either name.
pub(crate) fn find_header(v: &Vec<(String, String)>, name: &str) -> (r: Option<usize>)
    ensures
        match r {
            Some(i) => i < v.len() && key_index(lowered_keys(pairs_view(v@)), ascii_lowered(name@))
                == Some(i as int),
            None => key_index(lowered_keys(pairs_view(v@)), ascii_lowered(name@)).is_none(),
        },
{
    let ghost m = lowered_keys(pairs_view(v@));
    let mut i: usize = 0;
    while i < v.len()
        invariant
            i <= v.len(),
            m == lowered_keys(pairs_view(v@)),
            forall|j: int| 0 <= j < i ==> m[j].0 != ascii_lowered(name@),
        decreases v.len() - i,
    {
        if eq_ignore_ascii_case(v[i].0.as_str(), name) {
            proof {
                lemma_key_index(m, ascii_lowered(name@), i as int);
            }
            return Some(i);
        }
        i += 1;
    }
    proof {
        lemma_no_key_index(m, ascii_lowered(name@));
    }
    None
}

/// The media type that a content type names.
pub(crate) fn media_type_of(value: &str) -> (r: String)
    ensures
        r@ == media_type(value@),
{
    let v = chars_of(value);
    match find_char(&v, ';') {
        Some(i) => string_of(&v, 0, i),
        None => {
            assert(v@.subrange(0, v.len() as int) == v@);
            string_of(&v, 0, v.len())
        },
    }
}

/// The media type of the content type of the headers, where they have one.
pub fn get_content_type(headers: &Vec<(String, String)>) -> (r: Option<String>)
    ensures
        text_view(r) == content_type(pairs_view(headers@)),
{
    match find_header(headers, CONTENT_TYPE) {
        Some(i) => Some(media_type_of(headers[i].1.as_str())),
        None => None,
    }
}

/// Sets the content type of JSON where the headers have no content type,
/// and gives the place of the content type.
pub fn ensure_content_type(headers: &mut Vec<(String, String)>) -> (at: usize)
    ensures
        pairs_view(final(headers)@) == with_content_type(pairs_view(old(headers)@)),
        at < final(headers)@.len(),
        content_type(pairs_view(final(headers)@)) == Some(
            media_type(pairs_view(final(headers)@)[at as int].1),
        ),
{
    let ghost set = pairs_view(headers@);
    match find_header(headers, CONTENT_TYPE) {
        Some(i) => i,
        None => {
            let name = CONTENT_TYPE.to_string();
            let value = APPLICATION_JSON.to_string();
            headers.push((name, value));
            assert(pairs_view(headers@) == set.push((CONTENT_TYPE@, APPLICATION_JSON@)));
            let ghost low = lowered_keys(pairs_view(headers@));
            assert(low[set.len() as int].0 == ascii_lowered(CONTENT_TYPE@));
            assert forall|j: int| 0 <= j < set.len() implies low[j].0 != ascii_lowered(
                CONTENT_TYPE@,
            ) by {
                lemma_key_index_is_first(
                    lowered_keys(set),
                    ascii_lowered(CONTENT_TYPE@),
                );
                assert(low[j].0 == lowered_keys(set)[j].0);
            }
            proof {
                lemma_key_index(low, ascii_lowered(CONTENT_TYPE@), set.len() as int);
            }
            headers.len() - 1
        },
    }
}

} // verus!
