//! The shapes that the gateway exchanges with the browser client.

use vstd::prelude::*;

verus! {

/// The answer of the settings route.
#[derive(Debug)]
pub struct SettingsResponse {
    pub loglevel: String,
    pub traceids: Vec<String>,
}

/// The answer of the random-pair route: two article titles, in the order in
/// which they were resolved.
#[derive(Debug)]
pub struct SpecialRandomResponse {
    pub start: String,
    pub goal: String,
}

/// The request of the read-article route.
#[derive(Debug)]
pub struct WikiPageRequest {
    pub subject: String,
}

/// A page together with the reason why it could not be had.
#[derive(Debug)]
pub struct WikiPageResponse {
    pub page: String,
    pub error: String,
}

} // verus!
