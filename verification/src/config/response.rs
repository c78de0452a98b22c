//! The response normaliser: the text that a response is compared by, made of
//! its status line, its headers but those to skip, and its body, a JSON body
//! without the fields to skip and indented.

use vstd::prelude::*;
use crate::config::xdiff::ResponseProfile;
use crate::config::headers::{content_type, get_content_type, is_media};
use crate::config::APPLICATION_JSON;
use crate::entries::{
    contains_string, pairs_view, remove_keys, strings_view, without_keys, Entries,
};
use crate::json::{
    compact_text, json_parsed, json_pretty, read_json, write_pretty, JsonModel, JsonValue,
};
use crate::text::{decimal, eq_ignore_ascii_case, push_decimal};

verus! {

/// A response as it was received: the protocol version as it is written,
/// the status code, the headers in the order received, and the body.
#[derive(Clone, Debug, PartialEq, Eq)]
pub struct Response {
    pub version: String,
    pub status: u16,
    pub headers: Vec<(String, String)>,
    pub body: String,
}

/// The mathematical value of a [`Response`].
pub struct ResponseModel {
    pub version: Seq<char>,
    pub status: u16,
    pub headers: Entries,
    pub body: Seq<char>,
}

impl View for Response {
    type V = ResponseModel;

    open spec fn view(&self) -> ResponseModel {
        ResponseModel {
            version: self.version@,
            status: self.status,
            headers: pairs_view(self.headers@),
            body: self.body@,
        }
    }
}

/// A response, with what the library can make of it.
#[derive(Clone, Debug, PartialEq, Eq)]
pub struct ResponseExt(pub Response);

/// Why a response has no normal form.
#[derive(Clone, Copy, Debug, PartialEq, Eq, Structural)]
pub enum NormalizeError {
    /// The body is declared as JSON and is no JSON text.
    InvalidJson,
    /// The filtered body cannot be written as JSON text.
    Unwritable,
}

impl NormalizeError {
    /// The error in words.
    pub open spec fn text(&self) -> Seq<char> {
        match self {
            NormalizeError::InvalidJson => "body is declared as JSON and is no JSON text"@,
            NormalizeError::Unwritable => "body cannot be written as JSON text"@,
        }
    }

    /// The error in words.
    pub fn message(&self) -> (r: &'static str)
        ensures
            r@ == self.text(),
    {
        match self {
            NormalizeError::InvalidJson => "body is declared as JSON and is no JSON text",
            NormalizeError::Unwritable => "body cannot be written as JSON text",
        }
    }
}

/// The status line of a response: the protocol version, a space, the status
/// code in decimal digits, a line feed.
pub open spec fn status_text(version: Seq<char>, status: u16) -> Seq<char> {
    version + " "@ + decimal(status as nat) + "\n"@
}

/// The line of one header.
pub open spec fn header_line(name: Seq<char>, value: Seq<char>) -> Seq<char> {
    name + ": "@ + value + "\n"@
}

/// The lines of the headers whose name is none of `skip`, in the order in
/// which the headers were received.
pub open spec fn header_text(headers: Entries, skip: Seq<Seq<char>>) -> Seq<char>
    decreases headers.len(),
{
    if headers.len() == 0 {
        Seq::empty()
    } else if skip.contains(headers.last().0) {
        header_text(headers.drop_last(), skip)
    } else {
        header_text(headers.drop_last(), skip) + header_line(headers.last().0, headers.last().1)
    }
}

/// A JSON value without the top-level fields named in `skip`; a value that
/// is no object is left as it is.
pub open spec fn without_fields(v: JsonModel, skip: Seq<Seq<char>>) -> JsonModel {
    match v {
        JsonModel::Object(members) => JsonModel::Object(without_keys(members, skip)),
        JsonModel::Other(text) => JsonModel::Other(text),
    }
}

/// The normal form of a JSON body: parsed, without the top-level fields
/// named in `skip`, indented.
pub open spec fn filtered_json(text: Seq<char>, skip: Seq<Seq<char>>) -> Result<
    Seq<char>,
    NormalizeError,
> {
    match json_parsed(text) {
        None => Err(NormalizeError::InvalidJson),
        Some(v) => match compact_text(without_fields(v, skip)) {
            None => Err(NormalizeError::Unwritable),
            Some(compact) => match json_pretty(compact) {
                None => Err(NormalizeError::Unwritable),
                Some(pretty) => Ok(pretty),
            },
        },
    }
}

/// Whether the headers declare a JSON body.
pub open spec fn declares_json(headers: Entries) -> bool {
    match content_type(headers) {
        Some(media) => is_media(media, APPLICATION_JSON@),
        None => false,
    }
}

/// The normal form of a body: that of a JSON body where the headers
/// declare JSON, the body as it stands under any other content type or none.
pub open spec fn body_text(headers: Entries, body: Seq<char>, skip: Seq<Seq<char>>) -> Result<
    Seq<char>,
    NormalizeError,
> {
    if declares_json(headers) {
        filtered_json(body, skip)
    } else {
        Ok(body)
    }
}

/// The text that a response is compared by: status line, header lines and
/// body.
pub open spec fn canonical_text(res: ResponseModel, profile: ResponseProfile) -> Result<
    Seq<char>,
    NormalizeError,
> {
    match body_text(res.headers, res.body, strings_view(profile.skip_body@)) {
        Err(e) => Err(e),
        Ok(body) => Ok(
            status_text(res.version, res.status) + header_text(
                res.headers,
                strings_view(profile.skip_headers@),
            ) + body,
        ),
    }
}

/// The mathematical value of the result of a normalisation.
pub open spec fn normal_view(r: Result<String, NormalizeError>) -> Result<
    Seq<char>,
    NormalizeError,
> {
    match r {
        Ok(text) => Ok(text@),
        Err(e) => Err(e),
    }
}

/// A header whose name is to be skipped leaves no trace in the header
/// lines: they are those of the headers without the skipped ones.
pub proof fn lemma_skipped_headers_leave_no_trace(headers: Entries, skip: Seq<Seq<char>>)
    ensures
        header_text(headers, skip) == header_text(without_keys(headers, skip), Seq::empty()),
    decreases headers.len(),
{
    let none = Seq::<Seq<char>>::empty();
    if headers.len() > 0 {
        lemma_skipped_headers_leave_no_trace(headers.drop_last(), skip);
        if !skip.contains(headers.last().0) {
            let kept = without_keys(headers.drop_last(), skip).push(headers.last());
            assert(kept.drop_last() == without_keys(headers.drop_last(), skip));
            assert(kept.last() == headers.last());
            assert(!none.contains(headers.last().0));
        }
    }
}

/// The header lines do not depend on the value of a header that is to be
/// skipped: two lists of headers with the same names, which differ only in
/// values of skipped headers, give the same lines.
pub proof fn lemma_skipped_header_values_do_not_count(
    a: Entries,
    b: Entries,
    skip: Seq<Seq<char>>,
)
    requires
        a.len() == b.len(),
        forall|i: int| 0 <= i < a.len() ==> a[i].0 == b[i].0,
        forall|i: int| 0 <= i < a.len() && !skip.contains(a[i].0) ==> a[i].1 == b[i].1,
    ensures
        header_text(a, skip) == header_text(b, skip),
    decreases a.len(),
{
    if a.len() > 0 {
        lemma_skipped_header_values_do_not_count(a.drop_last(), b.drop_last(), skip);
    }
}

/// The status line of a response.
pub fn get_status_text(res: &Response) -> (r: String)
    ensures
        r@ == status_text(res@.version, res@.status),
{
    let mut out = String::new();
    out.append(res.version.as_str());
    out.append(" ");
    push_decimal(&mut out, res.status as u128);
    out.append("\n");
    out
}

/// The lines of the headers of a response whose name is none of `skip`.
pub fn get_header_text(res: &Response, skip: &[String]) -> (r: String)
    ensures
        r@ == header_text(res@.headers, strings_view(skip@)),
{
    let mut out = String::new();
    let ghost all = pairs_view(res.headers@);
    let mut i: usize = 0;
    while i < res.headers.len()
        invariant
            i <= res.headers.len(),
            all == pairs_view(res.headers@),
            out@ == header_text(all.take(i as int), strings_view(skip@)),
        decreases res.headers.len() - i,
    {
        proof {
            assert(all.take(i as int + 1).drop_last() == all.take(i as int));
            assert(all.take(i as int + 1).last() == all[i as int]);
        }
        if !contains_string(skip, &res.headers[i].0) {
            out.append(res.headers[i].0.as_str());
            out.append(": ");
            out.append(res.headers[i].1.as_str());
            out.append("\n");
        }
        i += 1;
    }
    assert(all.take(res.headers.len() as int) == all);
    out
}

/// The normal form of a JSON body.
pub fn filter_json(text: &str, skip: &[String]) -> (r: Result<String, NormalizeError>)
    ensures
        normal_view(r) == filtered_json(text@, strings_view(skip@)),
{
    let value = match read_json(text) {
        Some(value) => value,
        None => {
            return Err(NormalizeError::InvalidJson);
        },
    };
    let kept = match value {
        JsonValue::Object(members) => JsonValue::Object(remove_keys(&members, skip)),
        JsonValue::Other(other) => JsonValue::Other(other),
    };
    let compact = match kept.to_text() {
        Some(compact) => compact,
        None => {
            return Err(NormalizeError::Unwritable);
        },
    };
    match write_pretty(compact.as_str()) {
        Some(pretty) => Ok(pretty),
        None => Err(NormalizeError::Unwritable),
    }
}

/// The normal form of the body of a response.
pub fn get_body_text(res: &Response, skip: &[String]) -> (r: Result<String, NormalizeError>)
    ensures
        normal_view(r) == body_text(res@.headers, res@.body, strings_view(skip@)),
{
    let json = match get_content_type(&res.headers) {
        Some(media) => eq_ignore_ascii_case(media.as_str(), APPLICATION_JSON),
        None => false,
    };
    if json {
        filter_json(res.body.as_str(), skip)
    } else {
        Ok(res.body.clone())
    }
}

impl ResponseExt {
    /// The response itself.
    pub fn into_inner(self) -> (r: Response)
        ensures
            r == self.0,
    {
        self.0
    }

    /// The text that the response is compared by under `profile`.
    pub fn filter_text(self, profile: &ResponseProfile) -> (r: Result<String, NormalizeError>)
        ensures
            normal_view(r) == canonical_text(self.0@, *profile),
    {
        let body = match get_body_text(&self.0, profile.skip_body.as_slice()) {
            Ok(body) => body,
            Err(e) => {
                return Err(e);
            },
        };
        let mut out = get_status_text(&self.0);
        let headers = get_header_text(&self.0, profile.skip_headers.as_slice());
        out.append(headers.as_str());
        out.append(body.as_str());
        Ok(out)
    }

    /// The names of the headers, in the order received.
    pub fn get_header_keys(&self) -> (r: Vec<String>)
        ensures
            r@.len() == self.0@.headers.len(),
            forall|i: int| 0 <= i < r@.len() ==> r@[i]@ == self.0@.headers[i].0,
    {
        let mut keys: Vec<String> = Vec::new();
        let mut i: usize = 0;
        while i < self.0.headers.len()
            invariant
                i <= self.0.headers.len(),
                keys@.len() == i,
                forall|j: int| 0 <= j < i ==> keys@[j]@ == pairs_view(self.0.headers@)[j].0,
            decreases self.0.headers.len() - i,
        {
            keys.push(self.0.headers[i].0.clone());
            i += 1;
        }
        keys
    }
}

} // verus!
