//! Profiles and what is made of them: the request that a request profile
//! renders to, the text that a response is compared by, the stores of
//! profiles, and the validation of all of them.

use vstd::prelude::*;
use vstd::std_specs::cmp::PartialEqSpec;

pub mod headers;
pub mod request;
pub mod response;
pub mod xdiff;
pub mod xreq;

pub use headers::{ensure_content_type, get_content_type};
pub use request::{body_form, BodyForm, RequestError, RequestProfile};
pub use response::{
    filter_json, get_body_text, get_header_text, get_status_text, NormalizeError, Response,
    ResponseExt,
};
pub use xdiff::{DiffConfig, DiffProfile, ResponseProfile};
pub use xreq::ReqConfig;

verus! {

/// The name of the header that says what the body is.
pub const CONTENT_TYPE: &'static str = "content-type";

/// The media type of JSON.
pub const APPLICATION_JSON: &'static str = "application/json";

/// The media type of a form of keys and values.
pub const APPLICATION_WWW_FORM_URLENCODED: &'static str = "application/x-www-form-urlencoded";

/// The media type of a form in parts.
pub const MULTIPART_FORM_DATA: &'static str = "multipart/form-data";

/// The verb of a request.
#[derive(Clone, Copy, Debug, PartialEq, Eq, Structural)]
pub enum Method {
    Get,
    Post,
    Put,
    Delete,
    Head,
    Options,
    Connect,
    Patch,
    Trace,
}

impl Default for Method {
    fn default() -> (r: Method)
        ensures
            r == Method::Get,
    {
        Method::Get
    }
}

impl Method {
    /// The verb as it is written in a request.
    pub fn as_str(&self) -> (r: &'static str)
        ensures
            r@ == self.name(),
    {
        match self {
            Method::Get => "GET",
            Method::Post => "POST",
            Method::Put => "PUT",
            Method::Delete => "DELETE",
            Method::Head => "HEAD",
            Method::Options => "OPTIONS",
            Method::Connect => "CONNECT",
            Method::Patch => "PATCH",
            Method::Trace => "TRACE",
        }
    }

    /// The verb as it is written in a request.
    pub open spec fn name(&self) -> Seq<char> {
        match self {
            Method::Get => "GET"@,
            Method::Post => "POST"@,
            Method::Put => "PUT"@,
            Method::Delete => "DELETE"@,
            Method::Head => "HEAD"@,
            Method::Options => "OPTIONS"@,
            Method::Connect => "CONNECT"@,
            Method::Patch => "PATCH"@,
            Method::Trace => "TRACE"@,
        }
    }
}

/// Which of the two JSON fields of a request profile.
#[derive(Clone, Copy, Debug, PartialEq, Eq, Structural)]
pub enum Field {
    Params,
    Body,
}

/// Which of the two requests of a diff profile.
#[derive(Clone, Copy, Debug, PartialEq, Eq, Structural)]
pub enum Side {
    Req1,
    Req2,
}

/// Why a configuration is refused: a field of a request that is no JSON
/// object, with the request of a diff profile and the profile that it was
/// found in, as far as they are known where the error is raised.
#[derive(Clone, Debug, PartialEq, Eq)]
pub struct ConfigError {
    pub profile: Option<String>,
    pub side: Option<Side>,
    pub field: Field,
}

/// The mathematical value of a [`ConfigError`].
pub struct ConfigErrorModel {
    pub profile: Option<Seq<char>>,
    pub side: Option<Side>,
    pub field: Field,
}

impl View for ConfigError {
    type V = ConfigErrorModel;

    open spec fn view(&self) -> ConfigErrorModel {
        ConfigErrorModel {
            profile: match self.profile {
                Some(name) => Some(name@),
                None => None,
            },
            side: self.side,
            field: self.field,
        }
    }
}

/// A fault in words: the profile, the request and the field, as far as they
/// are known.
pub open spec fn fault_text(e: ConfigErrorModel) -> Seq<char> {
    (match e.profile {
        Some(name) => "profile error ["@ + name + "]: "@,
        None => Seq::empty(),
    }) + (match e.side {
        Some(Side::Req1) => "req1 error: "@,
        Some(Side::Req2) => "req2 error: "@,
        None => Seq::empty(),
    }) + (match e.field {
        Field::Params => "config params error"@,
        Field::Body => "config body error"@,
    })
}

impl ConfigError {
    /// The fault in words.
    pub fn message(&self) -> (r: String)
        ensures
            r@ == fault_text(self@),
    {
        let mut out = String::new();
        match &self.profile {
            Some(name) => {
                out.append("profile error [");
                out.append(name.as_str());
                out.append("]: ");
            },
            None => {},
        }
        match self.side {
            Some(Side::Req1) => {
                out.append("req1 error: ");
            },
            Some(Side::Req2) => {
                out.append("req2 error: ");
            },
            None => {},
        }
        match self.field {
            Field::Params => {
                out.append("config params error");
            },
            Field::Body => {
                out.append("config body error");
            },
        }
        out
    }
}

/// The mathematical value of the result of a validation.
pub open spec fn validation_view(r: Result<(), ConfigError>) -> Result<(), ConfigErrorModel> {
    match r {
        Ok(()) => Ok(()),
        Err(e) => Err(e@),
    }
}

/// What can be validated: a request profile, a diff profile, a store of
/// either.
pub trait ValidateConfig {
    /// What the validation finds: nothing, or the first fault.
    spec fn validation(&self) -> Result<(), ConfigErrorModel>;

    /// Validates the value.
    fn validate(&self) -> (r: Result<(), ConfigError>)
        ensures
            validation_view(r) == self.validation(),
    ;
}

/// Whether `v` is the default value of its type.
pub fn is_default<T: Default + PartialEq>(v: &T) -> (r: bool)
    ensures
        T::obeys_eq_spec() ==> exists|d: T| call_ensures(T::default, (), d) && r == v.eq_spec(&d),
{
    let d = T::default();
    *v == d
}

} // verus!
