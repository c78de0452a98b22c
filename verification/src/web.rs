//! What the library asks of `reqwest`'s header types and of `url`: whether a
//! header name and a header value may go on the wire, and how a URL is taken
//! apart and put together.

use vstd::prelude::*;
use std::str::FromStr;
use crate::entries::{pairs_view, Entries};
use crate::json::text_view;
use crate::text::ascii_lowered;

verus! {

/// Whether a character may stand in a header name: an ASCII letter or
/// digit, or one of the signs that the table of `reqwest`'s `HeaderName`
/// admits.
pub open spec fn is_header_name_char(c: char) -> bool {
    ||| 'a' <= c <= 'z'
    ||| 'A' <= c <= 'Z'
    ||| '0' <= c <= '9'
    ||| c == '!'
    ||| c == '"'
    ||| c == '#'
    ||| c == '$'
    ||| c == '%'
    ||| c == '&'
    ||| c == '\''
    ||| c == '*'
    ||| c == '+'
    ||| c == '-'
    ||| c == '.'
    ||| c == '^'
    ||| c == '_'
    ||| c == '`'
    ||| c == '|'
    ||| c == '~'
}

/// The greatest length of a header name.
pub const MAX_HEADER_NAME_LEN: usize = 65535;

/// Whether `name` may be a header name: it is not empty, not longer than the
/// greatest length, and made of the characters of a header name.
pub open spec fn valid_header_name(name: Seq<char>) -> bool {
    &&& 1 <= name.len() <= MAX_HEADER_NAME_LEN
    &&& forall|i: int| 0 <= i < name.len() ==> is_header_name_char(#[trigger] name[i])
}

/// The form in which a header name goes on the wire: in lower case; none
/// where `name` is no header name.
pub open spec fn canonical_header_name(name: Seq<char>) -> Option<Seq<char>> {
    if valid_header_name(name) {
        Some(ascii_lowered(name))
    } else {
        None
    }
}

/// Whether a character may stand in a header value: a tab, or any character
/// from the space on but the delete character.
pub open spec fn is_header_value_char(c: char) -> bool {
    c == '\t' || (' ' <= c && c != '\x7f')
}

/// Whether `value` may be a header value.
pub open spec fn valid_header_value(value: Seq<char>) -> bool {
    forall|i: int| 0 <= i < value.len() ==> is_header_value_char(#[trigger] value[i])
}

/// The URL `url` as `url` writes it once parsed; none where `url` does not
/// parse.
pub uninterp spec fn url_text(url: Seq<char>) -> Option<Seq<char>>;

/// The URL `url` with `query` as its query string, as `url` writes it,
/// where `url` parses.
pub uninterp spec fn url_queried(url: Seq<char>, query: Seq<char>) -> Seq<char>;

/// The URL `url` with `query` as its query string; none where `url` does not
/// parse.
pub open spec fn url_with_query(url: Seq<char>, query: Seq<char>) -> Option<Seq<char>> {
    if url_text(url) is Some {
        Some(url_queried(url, query))
    } else {
        None
    }
}

/// The URL `url` without its query string, as `url` writes it, and the pairs
/// of its query string, decoded, in their order, where `url` parses.
pub uninterp spec fn url_split(url: Seq<char>) -> (Seq<char>, Entries);

/// The URL `url` without its query string and the pairs of its query string;
/// none where `url` does not parse.
pub open spec fn url_parts(url: Seq<char>) -> Option<(Seq<char>, Entries)> {
    if url_text(url) is Some {
        Some(url_split(url))
    } else {
        None
    }
}

/// `HeaderName::from_str` and `HeaderName::as_str` of `reqwest::header`.
/// `from_str` takes a name of 1 to 65535 bytes, each of which its table of
/// characters admits, and holds it in lower case; for the bytes of a string
/// that is a name of as many characters, each an ASCII letter or digit or
/// one of the signs admitted.
#[verifier::external_body]
pub(crate) fn header_name(name: &str) -> (r: Option<String>)
    ensures
        text_view(r) == canonical_header_name(name@),
{
    reqwest::header::HeaderName::from_str(name).ok().map(|n| n.as_str().to_string())
}

/// `HeaderValue::from_str` of `reqwest::header`: it accepts a value whose
/// bytes are all a tab or at least 32 and not 127, which for the bytes of a
/// string means that every character is a tab, or at least a space and not
/// the delete character.
#[verifier::external_body]
pub(crate) fn header_value_ok(value: &str) -> (r: bool)
    ensures
        r == valid_header_value(value@),
{
    reqwest::header::HeaderValue::from_str(value).is_ok()
}

/// `Url::parse` and `Url::to_string` of `url`. The result depends on the text
/// alone.
#[verifier::external_body]
pub(crate) fn parse_url(url: &str) -> (r: Option<String>)
    ensures
        text_view(r) == url_text(url@),
{
    url::Url::parse(url).ok().map(|u| u.to_string())
}

/// `Url::parse`, `Url::set_query` with `query` and `Url::to_string` of `url`.
/// There is a result where the URL parses; it depends on the two texts
/// alone.
#[verifier::external_body]
pub(crate) fn set_url_query(url: &str, query: &str) -> (r: Option<String>)
    ensures
        r is Some <==> url_text(url@) is Some,
        r is Some ==> r->0@ == url_queried(url@, query@),
{
    let mut parsed = url::Url::parse(url).ok()?;
    parsed.set_query(Some(query));
    Some(parsed.to_string())
}

/// The mathematical value of the parts of a URL.
pub open spec fn parts_view(parts: Option<(String, Vec<(String, String)>)>) -> Option<
    (Seq<char>, Entries),
> {
    match parts {
        Some((base, pairs)) => Some((base@, pairs_view(pairs@))),
        None => None,
    }
}

/// `Url::parse`, `Url::query_pairs`, `Url::set_query` with no query and
/// `Url::to_string` of `url`. There is a result where the URL parses; it
/// depends on the text alone.
#[verifier::external_body]
pub(crate) fn split_url(url: &str) -> (r: Option<(String, Vec<(String, String)>)>)
    ensures
        r is Some <==> url_text(url@) is Some,
        r is Some ==> parts_view(r)->0 == url_split(url@),
{
    let mut parsed = url::Url::parse(url).ok()?;
    let pairs = parsed.query_pairs().map(|(k, v)| (k.into_owned(), v.into_owned())).collect();
    parsed.set_query(None);
    Some((parsed.to_string(), pairs))
}

} // verus!
