//! The store of request profiles by name.

use vstd::prelude::*;
use crate::config::xdiff::{
    distinct_names, find_profile, is_first_named, validate_all, validation_of,
};
use crate::config::{ConfigError, ConfigErrorModel, RequestProfile, ValidateConfig};

verus! {

/// The request profiles of a configuration, each under its name, no name
/// twice.
#[derive(Clone, Debug, PartialEq, Eq)]
pub struct ReqConfig {
    pub profiles: Vec<(String, RequestProfile)>,
}

impl ReqConfig {
    /// What holds of a store: no two of its profiles have the same name.
    pub open spec fn well_formed(&self) -> bool {
        distinct_names(self.profiles@)
    }

    /// The store of the given profiles, of which no two have the same name.
    pub fn new(profiles: Vec<(String, RequestProfile)>) -> (r: ReqConfig)
        requires
            distinct_names(profiles@),
        ensures
            r.profiles == profiles,
            r.well_formed(),
    {
        ReqConfig { profiles }
    }

    /// The profile named `name`, where the store has one.
    pub fn get_profile(&self, name: &str) -> (r: Option<&RequestProfile>)
        ensures
            match r {
                Some(p) => exists|i: int|
                    is_first_named(self.profiles@, name@, i) && *p == self.profiles@[i].1,
                None => forall|i: int|
                    0 <= i < self.profiles@.len() ==> self.profiles@[i].0@ != name@,
            },
    {
        find_profile(&self.profiles, name)
    }
}

impl ValidateConfig for ReqConfig {
    /// Every profile is valid; the fault reported is that of the first
    /// profile that has one, with the profile's name.
    open spec fn validation(&self) -> Result<(), ConfigErrorModel> {
        validation_of(self.profiles@)
    }

    fn validate(&self) -> (r: Result<(), ConfigError>) {
        validate_all(&self.profiles)
    }
}

} // verus!
