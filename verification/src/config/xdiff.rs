//! Diff profiles: two requests whose responses are compared, what to leave
//! out of the comparison, and the store of such profiles by name.

use vstd::prelude::*;
use crate::config::response::{
    canonical_text, declares_json, lemma_skipped_header_values_do_not_count, normal_view,
    NormalizeError, ResponseExt, ResponseModel,
};
use crate::config::{
    ConfigError, ConfigErrorModel, RequestProfile, Side, ValidateConfig,
};
use crate::diff::{diff_of, lemma_equal_texts_do_not_differ, render_diff};
use crate::entries::{same_strings, strings_view};

verus! {

/// What to leave out when two responses are compared.
#[derive(Clone, Debug, Eq)]
pub struct ResponseProfile {
    /// Names of the headers to leave out.
    pub skip_headers: Vec<String>,
    /// Names of the top-level fields of a JSON body to leave out.
    pub skip_body: Vec<String>,
}

impl ResponseProfile {
    /// A profile that leaves out the given headers and fields.
    pub fn new(skip_headers: Vec<String>, skip_body: Vec<String>) -> (r: ResponseProfile)
        ensures
            r.skip_headers == skip_headers,
            r.skip_body == skip_body,
    {
        ResponseProfile { skip_headers, skip_body }
    }
}

impl PartialEq for ResponseProfile {
    /// Two profiles are equal where they leave out the same headers and the
    /// same fields, each list in the same order.
    fn eq(&self, other: &ResponseProfile) -> (r: bool) {
        same_strings(&self.skip_headers, &other.skip_headers) && same_strings(
            &self.skip_body,
            &other.skip_body,
        )
    }
}

impl vstd::std_specs::cmp::PartialEqSpecImpl for ResponseProfile {
    open spec fn obeys_eq_spec() -> bool {
        true
    }

    open spec fn eq_spec(&self, other: &ResponseProfile) -> bool {
        strings_view(self.skip_headers@) == strings_view(other.skip_headers@) && strings_view(
            self.skip_body@,
        ) == strings_view(other.skip_body@)
    }
}

impl Default for ResponseProfile {
    /// The profile that leaves nothing out.
    fn default() -> (r: ResponseProfile)
        ensures
            r.skip_headers@ == Seq::<String>::empty(),
            r.skip_body@ == Seq::<String>::empty(),
    {
        ResponseProfile { skip_headers: Vec::new(), skip_body: Vec::new() }
    }
}

/// Two requests and what to leave out of the comparison of their responses.
#[derive(Clone, Debug, PartialEq, Eq)]
pub struct DiffProfile {
    pub req1: RequestProfile,
    pub req2: RequestProfile,
    pub response: ResponseProfile,
}

/// The fault `e`, found in the request `side` of a diff profile.
pub open spec fn on_side(e: ConfigErrorModel, side: Side) -> ConfigErrorModel {
    ConfigErrorModel { profile: e.profile, side: Some(side), field: e.field }
}

/// The fault `e`, found in the profile `name`.
pub open spec fn in_profile(e: ConfigErrorModel, name: Seq<char>) -> ConfigErrorModel {
    ConfigErrorModel { profile: Some(name), side: e.side, field: e.field }
}

impl DiffProfile {
    /// A diff profile of the given parts.
    pub fn new(req1: RequestProfile, req2: RequestProfile, res: ResponseProfile) -> (r:
        DiffProfile)
        ensures
            r.req1 == req1,
            r.req2 == req2,
            r.response == res,
    {
        DiffProfile { req1, req2, response: res }
    }
}

/// What the comparison of two responses gives: the diff of their texts, or
/// the fault of the first response that has no text.
pub open spec fn compared(
    profile: ResponseProfile,
    res1: ResponseModel,
    res2: ResponseModel,
    colors: bool,
) -> Result<Seq<char>, NormalizeError> {
    match canonical_text(res1, profile) {
        Err(e) => Err(e),
        Ok(old) => match canonical_text(res2, profile) {
            Err(e) => Err(e),
            Ok(new) => Ok(diff_of(old, new, colors)),
        },
    }
}

/// Two responses that differ in nothing but the values of headers that are
/// left out, and that both declare a JSON body or both do not, are compared
/// as equal: where they have a text to compare, their diff has no hunk and
/// is the empty text.
pub proof fn lemma_skipped_headers_do_not_differ(
    profile: ResponseProfile,
    res1: ResponseModel,
    res2: ResponseModel,
    colors: bool,
)
    requires
        res1.version == res2.version,
        res1.status == res2.status,
        res1.body == res2.body,
        res1.headers.len() == res2.headers.len(),
        forall|i: int| 0 <= i < res1.headers.len() ==> res1.headers[i].0 == res2.headers[i].0,
        forall|i: int|
            0 <= i < res1.headers.len() && !strings_view(profile.skip_headers@).contains(
                res1.headers[i].0,
            ) ==> res1.headers[i].1 == res2.headers[i].1,
        declares_json(res1.headers) == declares_json(res2.headers),
    ensures
        canonical_text(res1, profile) == canonical_text(res2, profile),
        match compared(profile, res1, res2, colors) {
            Ok(text) => text == Seq::<char>::empty(),
            Err(e) => canonical_text(res1, profile) == Err::<Seq<char>, NormalizeError>(e),
        },
{
    lemma_skipped_header_values_do_not_count(
        res1.headers,
        res2.headers,
        strings_view(profile.skip_headers@),
    );
    match canonical_text(res1, profile) {
        Ok(text) => {
            lemma_equal_texts_do_not_differ(text, colors);
        },
        Err(e) => {},
    }
}

impl DiffProfile {
    /// The diff of the responses to the two requests, the first response as
    /// the old text, with colours or without.
    pub fn diff_responses(&self, res1: ResponseExt, res2: ResponseExt, colors: bool) -> (r: Result<
        String,
        NormalizeError,
    >)
        ensures
            normal_view(r) == compared(self.response, res1.0@, res2.0@, colors),
    {
        let text1 = match res1.filter_text(&self.response) {
            Ok(text) => text,
            Err(e) => {
                return Err(e);
            },
        };
        let text2 = match res2.filter_text(&self.response) {
            Ok(text) => text,
            Err(e) => {
                return Err(e);
            },
        };
        Ok(render_diff(text1.as_str(), text2.as_str(), colors))
    }
}

impl ValidateConfig for DiffProfile {
    /// Both requests are valid; the fault of the first request comes before
    /// that of the second, each with the request that it was found in.
    open spec fn validation(&self) -> Result<(), ConfigErrorModel> {
        match self.req1.validation() {
            Err(e) => Err(on_side(e, Side::Req1)),
            Ok(()) => match self.req2.validation() {
                Err(e) => Err(on_side(e, Side::Req2)),
                Ok(()) => Ok(()),
            },
        }
    }

    fn validate(&self) -> (r: Result<(), ConfigError>) {
        match self.req1.validate() {
            Err(e) => {
                return Err(
                    ConfigError { profile: e.profile, side: Some(Side::Req1), field: e.field },
                );
            },
            Ok(()) => {},
        }
        match self.req2.validate() {
            Err(e) => Err(
                ConfigError { profile: e.profile, side: Some(Side::Req2), field: e.field },
            ),
            Ok(()) => Ok(()),
        }
    }
}

/// What the validation of a list of named profiles finds: the fault of the
/// first profile that has one, with the profile's name.
pub open spec fn validation_of<P: ValidateConfig>(profiles: Seq<(String, P)>) -> Result<
    (),
    ConfigErrorModel,
>
    decreases profiles.len(),
{
    if profiles.len() == 0 {
        Ok(())
    } else {
        match validation_of(profiles.drop_last()) {
            Err(e) => Err(e),
            Ok(()) => match profiles.last().1.validation() {
                Err(e) => Err(in_profile(e, profiles.last().0@)),
                Ok(()) => Ok(()),
            },
        }
    }
}

/// A fault among the first profiles of a list is the fault of the list.
pub proof fn lemma_validation_fault<P: ValidateConfig>(profiles: Seq<(String, P)>, n: int)
    requires
        0 <= n <= profiles.len(),
        validation_of(profiles.take(n)) is Err,
    ensures
        validation_of(profiles) == validation_of(profiles.take(n)),
    decreases profiles.len(),
{
    if n == profiles.len() {
        assert(profiles.take(n) == profiles);
    } else {
        assert(profiles.drop_last().take(n) == profiles.take(n));
        lemma_validation_fault(profiles.drop_last(), n);
    }
}

/// Validates the profiles of a list in their order.
pub fn validate_all<P: ValidateConfig>(profiles: &Vec<(String, P)>) -> (r: Result<
    (),
    ConfigError,
>)
    ensures
        crate::config::validation_view(r) == validation_of(profiles@),
{
    let mut i: usize = 0;
    while i < profiles.len()
        invariant
            i <= profiles.len(),
            validation_of(profiles@.take(i as int)) is Ok,
        decreases profiles.len() - i,
    {
        proof {
            assert(profiles@.take(i as int + 1).drop_last() == profiles@.take(i as int));
            assert(profiles@.take(i as int + 1).last() == profiles@[i as int]);
        }
        match profiles[i].1.validate() {
            Err(e) => {
                proof {
                    lemma_validation_fault(profiles@, i as int + 1);
                }
                return Err(
                    ConfigError {
                        profile: Some(profiles[i].0.clone()),
                        side: e.side,
                        field: e.field,
                    },
                );
            },
            Ok(()) => {},
        }
        i += 1;
    }
    assert(profiles@.take(profiles.len() as int) == profiles@);
    Ok(())
}

/// `i` is the place of the first profile of `profiles` named `name`.
pub open spec fn is_first_named<P>(profiles: Seq<(String, P)>, name: Seq<char>, i: int) -> bool {
    &&& 0 <= i < profiles.len()
    &&& profiles[i].0@ == name
    &&& forall|j: int| 0 <= j < i ==> profiles[j].0@ != name
}

/// The first profile of a list that has the given name.
pub fn find_profile<'a, P>(profiles: &'a Vec<(String, P)>, name: &str) -> (r: Option<&'a P>)
    ensures
        match r {
            Some(p) => exists|i: int| is_first_named(profiles@, name@, i) && *p == profiles@[i].1,
            None => forall|i: int| 0 <= i < profiles@.len() ==> profiles@[i].0@ != name@,
        },
{
    let mut i: usize = 0;
    while i < profiles.len()
        invariant
            i <= profiles.len(),
            forall|j: int| 0 <= j < i ==> profiles@[j].0@ != name@,
        decreases profiles.len() - i,
    {
        if crate::text::same_text(profiles[i].0.as_str(), name) {
            assert(is_first_named(profiles@, name@, i as int));
            return Some(&profiles[i].1);
        }
        i += 1;
    }
    None
}

/// No name occurs twice among the profiles.
pub open spec fn distinct_names<P>(profiles: Seq<(String, P)>) -> bool {
    forall|i: int, j: int| 0 <= i < j < profiles.len() ==> profiles[i].0@ != profiles[j].0@
}

/// Among profiles of which no two have the same name, a name belongs to one
/// profile at most: the first of a name is the only one.
pub proof fn lemma_one_profile_of_a_name<P>(profiles: Seq<(String, P)>, name: Seq<char>, i: int)
    requires
        distinct_names(profiles),
        is_first_named(profiles, name, i),
    ensures
        forall|j: int| 0 <= j < profiles.len() && profiles[j].0@ == name ==> j == i,
{
    assert forall|j: int| 0 <= j < profiles.len() && profiles[j].0@ == name implies j == i by {
        if i < j {
            assert(profiles[i].0@ != profiles[j].0@);
        }
    }
}

/// Whether no name occurs twice among the profiles.
pub fn names_differ<P>(profiles: &Vec<(String, P)>) -> (r: bool)
    ensures
        r == distinct_names(profiles@),
{
    let mut j: usize = 0;
    while j < profiles.len()
        invariant
            j <= profiles.len(),
            forall|a: int, b: int| 0 <= a < b < j ==> profiles@[a].0@ != profiles@[b].0@,
        decreases profiles.len() - j,
    {
        let mut i: usize = 0;
        while i < j
            invariant
                i <= j < profiles.len(),
                forall|a: int| 0 <= a < i ==> profiles@[a].0@ != profiles@[j as int].0@,
            decreases j - i,
        {
            if crate::text::same_text(profiles[i].0.as_str(), profiles[j].0.as_str()) {
                return false;
            }
            i += 1;
        }
        j += 1;
    }
    true
}

/// The diff profiles of a configuration, each under its name, no name
/// twice.
#[derive(Clone, Debug, PartialEq, Eq)]
pub struct DiffConfig {
    pub profiles: Vec<(String, DiffProfile)>,
}

impl DiffConfig {
    /// What holds of a store: no two of its profiles have the same name.
    pub open spec fn well_formed(&self) -> bool {
        distinct_names(self.profiles@)
    }

    /// The store of the given profiles, of which no two have the same name.
    pub fn new(profiles: Vec<(String, DiffProfile)>) -> (r: DiffConfig)
        requires
            distinct_names(profiles@),
        ensures
            r.profiles == profiles,
            r.well_formed(),
    {
        DiffConfig { profiles }
    }

    /// The profile named `name`, where the store has one.
    pub fn get_profile(&self, name: &str) -> (r: Option<&DiffProfile>)
        ensures
            match r {
                Some(p) => exists|i: int|
                    is_first_named(self.profiles@, name@, i) && *p == self.profiles@[i].1,
                None => forall|i: int|
                    0 <= i < self.profiles@.len() ==> self.profiles@[i].0@ != name@,
            },
    {
        find_profile(&self.profiles, name)
    }
}

impl ValidateConfig for DiffConfig {
    /// Every profile is valid; the fault reported is that of the first
    /// profile that has one, with the profile's name.
    open spec fn validation(&self) -> Result<(), ConfigErrorModel> {
        validation_of(self.profiles@)
    }

    fn validate(&self) -> (r: Result<(), ConfigError>) {
        validate_all(&self.profiles)
    }
}

} // verus!
