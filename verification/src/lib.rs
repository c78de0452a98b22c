//! Request profiles, response normalisation and line diffs for comparing
//! the answers of HTTP endpoints.

use vstd::prelude::*;

pub mod cli;
pub mod config;
pub mod diff;
pub mod display;
pub mod entries;
pub mod json;
pub mod text;
pub mod web;

pub use config::{
    get_body_text, get_header_text, get_status_text, DiffConfig, DiffProfile, ReqConfig,
    RequestProfile, ResponseProfile, ValidateConfig,
};
pub use diff::diff_text;
pub use display::highlight_text;

verus! {

/// The overrides of one run, sorted by what they are aimed at: headers,
/// query parameters and fields of the body, each list in the order given.
#[derive(Clone, Debug, Eq, PartialEq)]
pub struct ExtraArgs {
    pub headers: Vec<(String, String)>,
    pub querys: Vec<(String, String)>,
    pub bodys: Vec<(String, String)>,
}

/// The mathematical value of an [`ExtraArgs`].
pub struct ExtraArgsModel {
    pub headers: entries::Entries,
    pub querys: entries::Entries,
    pub bodys: entries::Entries,
}

impl View for ExtraArgs {
    type V = ExtraArgsModel;

    open spec fn view(&self) -> ExtraArgsModel {
        ExtraArgsModel {
            headers: entries::pairs_view(self.headers@),
            querys: entries::pairs_view(self.querys@),
            bodys: entries::pairs_view(self.bodys@),
        }
    }
}

impl Default for ExtraArgs {
    fn default() -> (r: ExtraArgs)
        ensures
            r@.headers == Seq::<(Seq<char>, Seq<char>)>::empty(),
            r@.querys == Seq::<(Seq<char>, Seq<char>)>::empty(),
            r@.bodys == Seq::<(Seq<char>, Seq<char>)>::empty(),
    {
        ExtraArgs { headers: Vec::new(), querys: Vec::new(), bodys: Vec::new() }
    }
}

} // verus!
