//! View models of the HTML pages and the JSON response wrapper; rendering
//! and serialization belong to the surrounding program.
use vstd::prelude::*;

verus! {

/// The view model of the root page.
pub struct RootTemplate<'a> {
    pub name: &'a str,
    pub title: &'a str,
}

/// The view model of the home page.
pub struct HomeTemplate<'a> {
    pub name: &'a str,
}

/// A JSON response wrapper: the payload and an optional API version, sent as
/// `{apiVersion?, data}`.
pub struct JsonData<T>(pub T, pub Option<String>);

} // verus!
