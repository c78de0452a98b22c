//! The request renderer: the headers, the query parameters and the body
//! that a request profile renders to under a set of overrides, and the URL
//! of the request for display.

use vstd::prelude::*;
use crate::config::headers::{
    content_type, ensure_content_type, header_value, is_media, lemma_default_content_type,
    lowered_keys, media_type_of, with_content_type,
};
use crate::config::{
    ConfigError, ConfigErrorModel, Field, Method, ValidateConfig, APPLICATION_JSON,
    APPLICATION_WWW_FORM_URLENCODED, CONTENT_TYPE, MULTIPART_FORM_DATA,
};
use crate::entries::{
    clone_entries, distinct_keys, has_key, lemma_no_key_index, lemma_put_keeps_others,
    lemma_put_replaces, lemma_put_sets_value, lemma_put_twice, pairs_view, put, put_entry,
    value_of, Entries,
};
use crate::json::{
    all_json, form_urlencoded, json_object_text, json_view, member_text, object_written,
    query_string, to_member_text, write_query, write_urlencoded, JsonModel, JsonValue,
};
use crate::text::{ascii_lowered, eq_ignore_ascii_case};
use crate::web::{
    canonical_header_name, header_name, header_value_ok, parse_url, set_url_query, split_url,
    url_parts, url_text, url_with_query, valid_header_name, valid_header_value,
};
use crate::ExtraArgs;
use crate::ExtraArgsModel;

verus! {

/// Why a request cannot be made of a profile and its overrides.
#[derive(Clone, Copy, Debug, PartialEq, Eq, Structural)]
pub enum RequestError {
    /// The URL does not parse.
    InvalidUrl,
    /// The value of a query or body override is no JSON text.
    InvalidValue,
    /// A header's name is no header name.
    InvalidHeaderName,
    /// A header's value holds a character that no header value may hold.
    InvalidHeaderValue,
    /// The content type is none of JSON, URL-encoded form and form in parts.
    UnsupportedContentType,
    /// The body or the query cannot be written in the form asked for.
    Unwritable,
}

impl RequestError {
    /// The error in words.
    pub open spec fn text(&self) -> Seq<char> {
        match self {
            RequestError::InvalidUrl => "invalid url"@,
            RequestError::InvalidValue => "invalid override value: no JSON text"@,
            RequestError::InvalidHeaderName => "invalid header name"@,
            RequestError::InvalidHeaderValue => "invalid header value"@,
            RequestError::UnsupportedContentType => "unsupported content type"@,
            RequestError::Unwritable => "body or query cannot be written"@,
        }
    }

    /// The error in words.
    pub fn message(&self) -> (r: &'static str)
        ensures
            r@ == self.text(),
    {
        match self {
            RequestError::InvalidUrl => "invalid url",
            RequestError::InvalidValue => "invalid override value: no JSON text",
            RequestError::InvalidHeaderName => "invalid header name",
            RequestError::InvalidHeaderValue => "invalid header value",
            RequestError::UnsupportedContentType => "unsupported content type",
            RequestError::Unwritable => "body or query cannot be written",
        }
    }
}

/// Whether an override sets a header or a member of a JSON object.
#[derive(Clone, Copy, Debug, PartialEq, Eq, Structural)]
pub enum Target {
    Header,
    Member,
}

/// The template of one request.
#[derive(Clone, Debug, PartialEq, Eq)]
pub struct RequestProfile {
    pub method: Method,
    pub url: String,
    pub params: Option<JsonValue>,
    pub headers: Vec<(String, String)>,
    pub body: Option<JsonValue>,
}

/// The mathematical value of a [`RequestProfile`].
pub struct RequestModel {
    pub method: Method,
    pub url: Seq<char>,
    pub params: Option<JsonModel>,
    pub headers: Entries,
    pub body: Option<JsonModel>,
}

impl View for RequestProfile {
    type V = RequestModel;

    open spec fn view(&self) -> RequestModel {
        RequestModel {
            method: self.method,
            url: self.url@,
            params: json_view(self.params),
            headers: pairs_view(self.headers@),
            body: json_view(self.body),
        }
    }
}

/// A request ready to be sent: its headers, its query parameters and its
/// body as text.
pub type Rendered = (Vec<(String, String)>, JsonValue, String);

/// The mathematical value of a [`Rendered`].
pub type RenderedModel = (Entries, JsonModel, Seq<char>);

/// The mathematical value of the result of a rendering.
pub open spec fn rendered_view(r: Result<Rendered, RequestError>) -> Result<
    RenderedModel,
    RequestError,
> {
    match r {
        Ok((headers, query, body)) => Ok((pairs_view(headers@), query@, body@)),
        Err(e) => Err(e),
    }
}

/// `m` with one override put into it: a header under the name in the form
/// that goes on the wire, with its value as it stands; a member under its
/// key, with the compact JSON text of the value that the override's text
/// reads as.
pub open spec fn set_one(target: Target, m: Entries, key: Seq<char>, value: Seq<char>) -> Result<
    Entries,
    RequestError,
> {
    match target {
        Target::Header => match canonical_header_name(key) {
            None => Err(RequestError::InvalidHeaderName),
            Some(name) => if valid_header_value(value) {
                Ok(put(m, name, value))
            } else {
                Err(RequestError::InvalidHeaderValue)
            },
        },
        Target::Member => match member_text(value) {
            None => Err(RequestError::InvalidValue),
            Some(text) => Ok(put(m, key, text)),
        },
    }
}

/// `m` with the overrides `list` put into it, from the first to the last,
/// or the fault of the first override that has one.
pub open spec fn set_all(target: Target, m: Entries, list: Entries) -> Result<
    Entries,
    RequestError,
>
    decreases list.len(),
{
    if list.len() == 0 {
        Ok(m)
    } else {
        match set_all(target, m, list.drop_last()) {
            Err(e) => Err(e),
            Ok(m1) => set_one(target, m1, list.last().0, list.last().1),
        }
    }
}

/// The members of a JSON object that may be absent: none where it is.
pub open spec fn members_of(v: Option<JsonModel>) -> Entries {
    match v {
        Some(JsonModel::Object(members)) => members,
        _ => Seq::empty(),
    }
}

/// A value is absent or an object.
pub open spec fn object_or_absent(v: Option<JsonModel>) -> bool {
    match v {
        Some(v) => v is Object,
        None => true,
    }
}

/// The form in which a body is written.
#[derive(Clone, Copy, Debug, PartialEq, Eq, Structural)]
pub enum BodyForm {
    /// Compact JSON.
    Json,
    /// Keys and values, URL-encoded.
    UrlEncoded,
}

/// The form that a media type asks for: JSON for `application/json`, the
/// URL-encoded form for `application/x-www-form-urlencoded` and for
/// `multipart/form-data`, none for any other media type.
pub open spec fn form_of(media: Seq<char>) -> Option<BodyForm> {
    if is_media(media, APPLICATION_JSON@) {
        Some(BodyForm::Json)
    } else if is_media(media, APPLICATION_WWW_FORM_URLENCODED@) || is_media(
        media,
        MULTIPART_FORM_DATA@,
    ) {
        Some(BodyForm::UrlEncoded)
    } else {
        None
    }
}

/// The body with the members `body`, written as the media type `media`
/// asks: as compact JSON, or as a URL-encoded form.
pub open spec fn body_text(media: Seq<char>, body: Entries) -> Result<Seq<char>, RequestError> {
    match form_of(media) {
        None => Err(RequestError::UnsupportedContentType),
        Some(form) => match json_object_text(body) {
            None => Err(RequestError::Unwritable),
            Some(text) => match form {
                BodyForm::Json => Ok(text),
                BodyForm::UrlEncoded => match form_urlencoded(text) {
                    Some(encoded) => Ok(encoded),
                    None => Err(RequestError::Unwritable),
                },
            },
        },
    }
}

/// The request that the profile `p` and the overrides `args` render to.
/// The headers are those of the profile, then the header overrides, then
/// the content type of JSON where none is set; the query parameters are
/// those of the profile with the query overrides; the body is that of the
/// profile with the body overrides, written as the content type asks.
pub open spec fn rendered(p: RequestModel, args: ExtraArgsModel) -> Result<
    RenderedModel,
    RequestError,
> {
    match set_all(Target::Header, Seq::empty(), p.headers) {
        Err(e) => Err(e),
        Ok(own) => match set_all(Target::Header, own, args.headers) {
            Err(e) => Err(e),
            Ok(set) => {
                let headers = with_content_type(set);
                match set_all(Target::Member, members_of(p.params), args.querys) {
                    Err(e) => Err(e),
                    Ok(query) => match set_all(Target::Member, members_of(p.body), args.bodys) {
                        Err(e) => Err(e),
                        Ok(body) => match body_text(content_type(headers)->0, body) {
                            Err(e) => Err(e),
                            Ok(text) => Ok((headers, JsonModel::Object(query), text)),
                        },
                    },
                }
            },
        }
    }
}

/// The URL of the request that `p` and `args` render to, for display: the
/// profile's URL, with the query parameters as its query string where there
/// are any.
pub open spec fn rendered_url(p: RequestModel, args: ExtraArgsModel) -> Result<
    Seq<char>,
    RequestError,
> {
    match rendered(p, args) {
        Err(e) => Err(e),
        Ok((_, query, _)) => if query->Object_0.len() == 0 {
            match url_text(p.url) {
                Some(url) => Ok(url),
                None => Err(RequestError::InvalidUrl),
            }
        } else {
            match json_object_text(query->Object_0) {
                None => Err(RequestError::Unwritable),
                Some(text) => match query_string(text) {
                    None => Err(RequestError::Unwritable),
                    Some(qs) => match url_with_query(p.url, qs) {
                        Some(url) => Ok(url),
                        None => Err(RequestError::InvalidUrl),
                    },
                },
            }
        },
    }
}

/// The profile that a URL stands for: a GET of the URL without its query
/// string, with the pairs of the query string as parameters, each value read
/// as JSON text.
pub open spec fn profile_of_url(s: Seq<char>) -> Result<RequestModel, RequestError> {
    match url_parts(s) {
        None => Err(RequestError::InvalidUrl),
        Some((base, pairs)) => match set_all(Target::Member, Seq::empty(), pairs) {
            Err(e) => Err(e),
            Ok(params) => Ok(
                RequestModel {
                    method: Method::Get,
                    url: base,
                    params: Some(JsonModel::Object(params)),
                    headers: Seq::empty(),
                    body: None,
                },
            ),
        },
    }
}

/// A fault among the first overrides of a list is the fault of the list.
pub proof fn lemma_set_all_fault(target: Target, m: Entries, list: Entries, n: int)
    requires
        0 <= n <= list.len(),
        set_all(target, m, list.take(n)) is Err,
    ensures
        set_all(target, m, list) == set_all(target, m, list.take(n)),
    decreases list.len(),
{
    if n == list.len() {
        assert(list.take(n) == list);
    } else {
        assert(list.drop_last().take(n) == list.take(n));
        lemma_set_all_fault(target, m, list.drop_last(), n);
    }
}

/// Putting one more override after the first `n` of a list.
pub proof fn lemma_set_all_step(target: Target, m: Entries, list: Entries, n: int)
    requires
        0 <= n < list.len(),
    ensures
        set_all(target, m, list.take(n + 1)) == match set_all(target, m, list.take(n)) {
            Err(e) => Err(e),
            Ok(m1) => set_one(target, m1, list[n].0, list[n].1),
        },
{
    assert(list.take(n + 1).drop_last() == list.take(n));
    assert(list.take(n + 1).last() == list[n]);
}

/// Without overrides nothing is set.
pub proof fn lemma_set_nothing(target: Target, m: Entries)
    ensures
        set_all(target, m, Seq::empty()) == Ok::<Entries, RequestError>(m),
{
}

/// The overrides of no override.
pub open spec fn no_overrides() -> ExtraArgsModel {
    ExtraArgsModel { headers: Seq::empty(), querys: Seq::empty(), bodys: Seq::empty() }
}

/// The merge identity of any valid profile: without overrides it renders to
/// its own query parameters and its own body, and to its own headers set
/// one after the other under their names on the wire, with the content type
/// of JSON where the profile sets none. A fault is that of a header or of
/// the writing of the body.
pub proof fn lemma_merge_identity(p: RequestModel)
    requires
        object_or_absent(p.params),
        object_or_absent(p.body),
    ensures
        match rendered(p, no_overrides()) {
            Ok((headers, query, body)) => {
                &&& set_all(Target::Header, Seq::empty(), p.headers) is Ok
                &&& headers == with_content_type(
                    set_all(Target::Header, Seq::empty(), p.headers)->Ok_0,
                )
                &&& query == JsonModel::Object(members_of(p.params))
                &&& body_text(content_type(headers)->0, members_of(p.body)) == Ok::<
                    Seq<char>,
                    RequestError,
                >(body)
            },
            Err(e) => set_all(Target::Header, Seq::empty(), p.headers) == Err::<
                Entries,
                RequestError,
            >(e) || body_text(
                content_type(
                    with_content_type(set_all(Target::Header, Seq::empty(), p.headers)->Ok_0),
                )->0,
                members_of(p.body),
            ) == Err::<Seq<char>, RequestError>(e),
        },
{
    match set_all(Target::Header, Seq::empty(), p.headers) {
        Ok(own) => {
            lemma_set_nothing(Target::Header, own);
            lemma_set_nothing(Target::Member, members_of(p.params));
            lemma_set_nothing(Target::Member, members_of(p.body));
        },
        Err(e) => {},
    }
}

/// Whether a header name is in the form that goes on the wire: a header name
/// without ASCII capitals.
pub open spec fn is_wire_name(name: Seq<char>) -> bool {
    valid_header_name(name) && ascii_lowered(name) == name
}

/// Headers as they go on the wire: each name in the form that goes on the
/// wire, no name twice, each value a header value.
pub open spec fn wire_headers(headers: Entries) -> bool {
    &&& distinct_keys(headers)
    &&& forall|i: int|
        0 <= i < headers.len() ==> is_wire_name((#[trigger] headers[i]).0) && valid_header_value(
            headers[i].1,
        )
}

/// The content type of the headers is that of JSON, or there is none.
pub open spec fn json_or_no_content_type(headers: Entries) -> bool {
    match content_type(headers) {
        Some(media) => is_media(media, APPLICATION_JSON@),
        None => true,
    }
}

/// Headers as they go on the wire are set as they stand: the same names
/// with the same values in the same order, nothing added and nothing
/// dropped.
pub proof fn lemma_wire_headers_are_kept(headers: Entries)
    requires
        wire_headers(headers),
    ensures
        set_all(Target::Header, Seq::empty(), headers) == Ok::<Entries, RequestError>(headers),
    decreases headers.len(),
{
    if headers.len() > 0 {
        let before = headers.drop_last();
        assert forall|i: int| 0 <= i < before.len() implies is_wire_name(
            (#[trigger] before[i]).0,
        ) && valid_header_value(before[i].1) by {
            assert(before[i] == headers[i]);
        }
        lemma_wire_headers_are_kept(before);
        assert forall|j: int| 0 <= j < before.len() implies before[j].0 != headers.last().0 by {
            assert(before[j] == headers[j]);
        }
        lemma_no_key_index(before, headers.last().0);
        assert(is_wire_name(headers[headers.len() - 1].0));
        assert(before.push(headers.last()) == headers);
    } else {
        assert(headers == Seq::<(Seq<char>, Seq<char>)>::empty());
    }
}

/// The merge identity on the wire: a valid profile whose headers are as
/// they go on the wire renders without overrides to its own headers, with
/// the content type of JSON added where there was none, to its own query
/// parameters, and to its own body written as the content type asks; where
/// the body cannot be written so, that is the fault. Absent parameters and
/// an absent body count as the object without members.
pub proof fn lemma_merge_identity_on_the_wire(p: RequestModel)
    requires
        object_or_absent(p.params),
        object_or_absent(p.body),
        wire_headers(p.headers),
    ensures
        rendered(p, no_overrides()) == match body_text(
            content_type(with_content_type(p.headers))->0,
            members_of(p.body),
        ) {
            Ok(text) => Ok::<RenderedModel, RequestError>(
                (with_content_type(p.headers), JsonModel::Object(members_of(p.params)), text),
            ),
            Err(e) => Err(e),
        },
        header_value(p.headers, CONTENT_TYPE@).is_some() ==> with_content_type(p.headers)
            == p.headers,
        header_value(p.headers, CONTENT_TYPE@).is_none() ==> with_content_type(p.headers)
            == p.headers.push((CONTENT_TYPE@, APPLICATION_JSON@)),
{
    lemma_wire_headers_are_kept(p.headers);
    lemma_set_nothing(Target::Header, p.headers);
    lemma_set_nothing(Target::Member, members_of(p.params));
    lemma_set_nothing(Target::Member, members_of(p.body));
}

/// The merge identity under JSON: a valid profile whose headers are as they
/// go on the wire, whose content type is that of JSON or absent, and whose
/// body holds JSON text, renders without overrides, and the body that it
/// renders to is the compact JSON text of its own body.
pub proof fn lemma_merge_identity_of_json(p: RequestModel)
    requires
        object_or_absent(p.params),
        object_or_absent(p.body),
        wire_headers(p.headers),
        json_or_no_content_type(p.headers),
        all_json(members_of(p.body)),
    ensures
        rendered(p, no_overrides()) == Ok::<RenderedModel, RequestError>(
            (
                with_content_type(p.headers),
                JsonModel::Object(members_of(p.params)),
                object_written(members_of(p.body)),
            ),
        ),
{
    lemma_merge_identity_on_the_wire(p);
    if header_value(p.headers, CONTENT_TYPE@).is_none() {
        lemma_default_content_type(p.headers);
    }
}

/// The simplest profile, with no parameters, no headers and no body, renders
/// without overrides to the content type of JSON alone, no query parameter
/// and the compact JSON text of the object without members.
pub proof fn lemma_bare_profile_renders(p: RequestModel)
    requires
        p.params is None,
        p.headers.len() == 0,
        p.body is None,
    ensures
        rendered(p, no_overrides()) == Ok::<RenderedModel, RequestError>(
            (
                seq![(CONTENT_TYPE@, APPLICATION_JSON@)],
                JsonModel::Object(Seq::empty()),
                object_written(Seq::empty()),
            ),
        ),
{
    lemma_no_key_index(lowered_keys(p.headers), ascii_lowered(CONTENT_TYPE@));
    lemma_merge_identity_of_json(p);
    lemma_default_content_type(p.headers);
    assert(p.headers.push((CONTENT_TYPE@, APPLICATION_JSON@)) == seq![
        (CONTENT_TYPE@, APPLICATION_JSON@),
    ]);
}

/// An override of a query parameter or of a field of the body replaces the
/// member of that key and adds none beside it: the object has as many
/// members as before where the key was there, and one more where it was not;
/// the key has the new value, and every other key the value that it had.
pub proof fn lemma_override_replaces(m: Entries, key: Seq<char>, value: Seq<char>, other: Seq<char>)
    requires
        set_one(Target::Member, m, key, value) is Ok,
        other != key,
    ensures
        ({
            let r = set_one(Target::Member, m, key, value)->Ok_0;
            &&& has_key(m, key) ==> r.len() == m.len()
            &&& !has_key(m, key) ==> r.len() == m.len() + 1
            &&& distinct_keys(m) ==> distinct_keys(r)
            &&& value_of(r, key) == member_text(value)
            &&& value_of(r, other) == value_of(m, other)
        }),
{
    let text = member_text(value)->0;
    lemma_put_replaces(m, key, text);
    lemma_put_sets_value(m, key, text);
    lemma_put_keeps_others(m, key, text, other);
}

/// The last override wins: of two overrides of one key, set one after the
/// other, the second alone decides what is rendered.
pub proof fn lemma_last_override_wins(
    target: Target,
    m: Entries,
    key: Seq<char>,
    first: Seq<char>,
    last: Seq<char>,
)
    requires
        set_one(target, m, key, first) is Ok,
    ensures
        set_one(target, set_one(target, m, key, first)->Ok_0, key, last) == set_one(
            target,
            m,
            key,
            last,
        ),
{
    match target {
        Target::Header => {
            let name = canonical_header_name(key)->0;
            if valid_header_value(last) {
                lemma_put_twice(m, name, first, last);
            }
        },
        Target::Member => {
            if member_text(last).is_some() {
                lemma_put_twice(m, key, member_text(first)->0, member_text(last)->0);
            }
        },
    }
}

/// The key under which an override is set: the name of a header in the form
/// that goes on the wire, the key of a member as it stands.
pub open spec fn set_key(target: Target, key: Seq<char>) -> Seq<char> {
    match target {
        Target::Header => canonical_header_name(key)->0,
        Target::Member => key,
    }
}

/// The value that an override sets: the value of a header as it stands, the
/// compact JSON text of the value of a member.
pub open spec fn set_value(target: Target, value: Seq<char>) -> Seq<char> {
    match target {
        Target::Header => value,
        Target::Member => member_text(value)->0,
    }
}

/// Among the overrides of a list that is set without a fault, the last one
/// of a key gives the key its value, whatever came before it.
pub proof fn lemma_last_of_a_key_wins(target: Target, m: Entries, list: Entries, i: int)
    requires
        0 <= i < list.len(),
        set_all(target, m, list) is Ok,
        forall|j: int|
            i < j < list.len() ==> set_key(target, list[j].0) != set_key(target, list[i].0),
    ensures
        value_of(set_all(target, m, list)->Ok_0, set_key(target, list[i].0))
            == Some(set_value(target, list[i].1)),
    decreases list.len(),
{
    let before = set_all(target, m, list.drop_last())->Ok_0;
    let k = set_key(target, list.last().0);
    let v = set_value(target, list.last().1);
    assert(set_all(target, m, list) == Ok::<Entries, RequestError>(put(before, k, v)));
    if i == list.len() - 1 {
        lemma_put_sets_value(before, k, v);
    } else {
        assert(list.drop_last()[i] == list[i]);
        assert forall|j: int| i < j < list.drop_last().len() implies set_key(
            target,
            list.drop_last()[j].0,
        ) != set_key(target, list.drop_last()[i].0) by {
            assert(list.drop_last()[j] == list[j]);
        }
        lemma_last_of_a_key_wins(target, m, list.drop_last(), i);
        lemma_put_keeps_others(before, k, v, set_key(target, list[i].0));
    }
}

/// Puts one override into `m`.
fn apply_one(target: Target, m: &mut Vec<(String, String)>, key: &String, value: &String) -> (r:
    Result<(), RequestError>)
    ensures
        match r {
            Ok(()) => set_one(target, pairs_view(old(m)@), key@, value@) == Ok::<
                Entries,
                RequestError,
            >(pairs_view(final(m)@)),
            Err(e) => set_one(target, pairs_view(old(m)@), key@, value@) == Err::<
                Entries,
                RequestError,
            >(e),
        },
{
    match target {
        Target::Header => {
            let name = match header_name(key.as_str()) {
                Some(name) => name,
                None => {
                    return Err(RequestError::InvalidHeaderName);
                },
            };
            if !header_value_ok(value.as_str()) {
                return Err(RequestError::InvalidHeaderValue);
            }
            put_entry(m, name, value.clone());
            Ok(())
        },
        Target::Member => {
            let text = match to_member_text(value.as_str()) {
                Some(text) => text,
                None => {
                    return Err(RequestError::InvalidValue);
                },
            };
            put_entry(m, key.clone(), text);
            Ok(())
        },
    }
}

/// Puts the overrides `list` into `m`, from the first to the last.
fn apply_all(target: Target, m: &mut Vec<(String, String)>, list: &Vec<(String, String)>) -> (r:
    Result<(), RequestError>)
    ensures
        match r {
            Ok(()) => set_all(target, pairs_view(old(m)@), pairs_view(list@)) == Ok::<
                Entries,
                RequestError,
            >(pairs_view(final(m)@)),
            Err(e) => set_all(target, pairs_view(old(m)@), pairs_view(list@)) == Err::<
                Entries,
                RequestError,
            >(e),
        },
{
    let ghost start = pairs_view(m@);
    let ghost all = pairs_view(list@);
    let mut i: usize = 0;
    while i < list.len()
        invariant
            i <= list.len(),
            all == pairs_view(list@),
            start == pairs_view(old(m)@),
            set_all(target, start, all.take(i as int)) == Ok::<Entries, RequestError>(
                pairs_view(m@),
            ),
        decreases list.len() - i,
    {
        proof {
            lemma_set_all_step(target, start, all, i as int);
            assert(all[i as int] == (list@[i as int].0@, list@[i as int].1@));
        }
        match apply_one(target, m, &list[i].0, &list[i].1) {
            Ok(()) => {},
            Err(e) => {
                proof {
                    lemma_set_all_fault(target, start, all, i as int + 1);
                }
                return Err(e);
            },
        }
        i += 1;
    }
    assert(all.take(list.len() as int) == all);
    Ok(())
}

/// The members of a JSON object that may be absent, copied.
fn members_copy(v: &Option<JsonValue>) -> (r: Vec<(String, String)>)
    ensures
        pairs_view(r@) == members_of(json_view(*v)),
{
    match v {
        Some(JsonValue::Object(members)) => clone_entries(members),
        _ => {
            let r: Vec<(String, String)> = Vec::new();
            assert(pairs_view(r@) == Seq::<(Seq<char>, Seq<char>)>::empty());
            r
        },
    }
}

/// The form that a media type asks for.
pub fn body_form(media: &str) -> (r: Option<BodyForm>)
    ensures
        r == form_of(media@),
{
    if eq_ignore_ascii_case(media, APPLICATION_JSON) {
        Some(BodyForm::Json)
    } else if eq_ignore_ascii_case(media, APPLICATION_WWW_FORM_URLENCODED) || eq_ignore_ascii_case(
        media,
        MULTIPART_FORM_DATA,
    ) {
        Some(BodyForm::UrlEncoded)
    } else {
        None
    }
}

/// Writes the body with the members `body` as the media type asks.
fn write_body(media: &str, body: &JsonValue) -> (r: Result<String, RequestError>)
    requires
        body@ is Object,
    ensures
        match r {
            Ok(text) => body_text(media@, body@->Object_0) == Ok::<Seq<char>, RequestError>(text@),
            Err(e) => body_text(media@, body@->Object_0) == Err::<Seq<char>, RequestError>(e),
        },
{
    let form = match body_form(media) {
        Some(form) => form,
        None => {
            return Err(RequestError::UnsupportedContentType);
        },
    };
    let text = match body.to_text() {
        Some(text) => text,
        None => {
            return Err(RequestError::Unwritable);
        },
    };
    match form {
        BodyForm::Json => Ok(text),
        BodyForm::UrlEncoded => match write_urlencoded(text.as_str()) {
            Some(encoded) => Ok(encoded),
            None => Err(RequestError::Unwritable),
        },
    }
}

impl RequestProfile {
    /// A profile of the given parts.
    pub fn new(
        method: Method,
        url: String,
        params: Option<JsonValue>,
        headers: Vec<(String, String)>,
        body: Option<JsonValue>,
    ) -> (r: RequestProfile)
        ensures
            r.method == method,
            r.url == url,
            r.params == params,
            r.headers == headers,
            r.body == body,
    {
        RequestProfile { method, url, params, headers, body }
    }

    /// The headers, the query parameters and the body of the request that
    /// the profile renders to under the overrides `args`.
    pub fn generate(&self, args: &ExtraArgs) -> (r: Result<Rendered, RequestError>)
        requires
            self.validation() is Ok,
        ensures
            rendered_view(r) == rendered(self@, args@),
    {
        let mut headers: Vec<(String, String)> = Vec::new();
        assert(pairs_view(headers@) == Seq::<(Seq<char>, Seq<char>)>::empty());
        match apply_all(Target::Header, &mut headers, &self.headers) {
            Ok(()) => {},
            Err(e) => {
                return Err(e);
            },
        }
        match apply_all(Target::Header, &mut headers, &args.headers) {
            Ok(()) => {},
            Err(e) => {
                return Err(e);
            },
        }
        let at = ensure_content_type(&mut headers);
        let mut query = members_copy(&self.params);
        match apply_all(Target::Member, &mut query, &args.querys) {
            Ok(()) => {},
            Err(e) => {
                return Err(e);
            },
        }
        let mut body = members_copy(&self.body);
        match apply_all(Target::Member, &mut body, &args.bodys) {
            Ok(()) => {},
            Err(e) => {
                return Err(e);
            },
        }
        let media = media_type_of(headers[at].1.as_str());
        let body = JsonValue::Object(body);
        match write_body(media.as_str(), &body) {
            Ok(text) => Ok((headers, JsonValue::Object(query), text)),
            Err(e) => Err(e),
        }
    }

    /// The URL of the request that the profile renders to under the
    /// overrides `args`, for display.
    pub fn get_url(&self, args: &ExtraArgs) -> (r: Result<String, RequestError>)
        requires
            self.validation() is Ok,
        ensures
            match r {
                Ok(url) => rendered_url(self@, args@) == Ok::<Seq<char>, RequestError>(url@),
                Err(e) => rendered_url(self@, args@) == Err::<Seq<char>, RequestError>(e),
            },
    {
        let (_, query, _) = match self.generate(args) {
            Ok(parts) => parts,
            Err(e) => {
                return Err(e);
            },
        };
        let empty = match &query {
            JsonValue::Object(members) => members.len() == 0,
            JsonValue::Other(_) => false,
        };
        if empty {
            return match parse_url(self.url.as_str()) {
                Some(url) => Ok(url),
                None => Err(RequestError::InvalidUrl),
            };
        }
        let text = match query.to_text() {
            Some(text) => text,
            None => {
                return Err(RequestError::Unwritable);
            },
        };
        let qs = match write_query(text.as_str()) {
            Some(qs) => qs,
            None => {
                return Err(RequestError::Unwritable);
            },
        };
        match set_url_query(self.url.as_str(), qs.as_str()) {
            Some(url) => Ok(url),
            None => Err(RequestError::InvalidUrl),
        }
    }

    /// The profile that a URL stands for.
    pub fn from_url(s: &str) -> (r: Result<RequestProfile, RequestError>)
        ensures
            match r {
                Ok(p) => profile_of_url(s@) == Ok::<RequestModel, RequestError>(p@),
                Err(e) => profile_of_url(s@) == Err::<RequestModel, RequestError>(e),
            },
    {
        let (base, pairs) = match split_url(s) {
            Some(parts) => parts,
            None => {
                return Err(RequestError::InvalidUrl);
            },
        };
        let mut params: Vec<(String, String)> = Vec::new();
        assert(pairs_view(params@) == Seq::<(Seq<char>, Seq<char>)>::empty());
        match apply_all(Target::Member, &mut params, &pairs) {
            Ok(()) => {},
            Err(e) => {
                return Err(e);
            },
        }
        let headers: Vec<(String, String)> = Vec::new();
        assert(pairs_view(headers@) == Seq::<(Seq<char>, Seq<char>)>::empty());
        Ok(
            RequestProfile {
                method: Method::Get,
                url: base,
                params: Some(JsonValue::Object(params)),
                headers,
                body: None,
            },
        )
    }
}

impl std::str::FromStr for RequestProfile {
    type Err = RequestError;

    fn from_str(s: &str) -> (r: Result<RequestProfile, RequestError>)
        ensures
            match r {
                Ok(p) => profile_of_url(s@) == Ok::<RequestModel, RequestError>(p@),
                Err(e) => profile_of_url(s@) == Err::<RequestModel, RequestError>(e),
            },
    {
        RequestProfile::from_url(s)
    }
}

/// The fault of a JSON field that is neither absent nor an object.
pub open spec fn field_fault(v: Option<JsonModel>, field: Field) -> Option<ConfigErrorModel> {
    if object_or_absent(v) {
        None
    } else {
        Some(ConfigErrorModel { profile: None, side: None, field })
    }
}

impl ValidateConfig for RequestProfile {
    /// `params` and `body`, where present, are JSON objects; the fault of
    /// `params` comes before that of `body`.
    open spec fn validation(&self) -> Result<(), ConfigErrorModel> {
        match field_fault(self@.params, Field::Params) {
            Some(e) => Err(e),
            None => match field_fault(self@.body, Field::Body) {
                Some(e) => Err(e),
                None => Ok(()),
            },
        }
    }

    fn validate(&self) -> (r: Result<(), ConfigError>) {
        if let Some(params) = &self.params {
            if !params.is_object() {
                return Err(ConfigError { profile: None, side: None, field: Field::Params });
            }
        }
        if let Some(body) = &self.body {
            if !body.is_object() {
                return Err(ConfigError { profile: None, side: None, field: Field::Body });
            }
        }
        Ok(())
    }
}

} // verus!
