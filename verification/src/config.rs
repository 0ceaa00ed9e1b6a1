//! The upload endpoint, the one piece of configuration that outlives a run.

use vstd::prelude::*;
use vstd::string::StringExecFns;

verus! {

/// The endpoint that is used until another is set.
pub const API_ENDPOINT: &'static str = "https://nano.rayhanadev.com";

/// Process-wide state: the base URL of the upload service. It is taken as an
/// opaque string; a malformed endpoint shows only when an upload fails.
#[derive(Debug, Clone, PartialEq, Eq)]
pub struct AppState {
    pub upload_endpoint: String,
}

impl View for AppState {
    type V = Seq<char>;

    open spec fn view(&self) -> Seq<char> {
        self.upload_endpoint@
    }
}

impl AppState {
    /// State that points at the default endpoint.
    pub fn new() -> (state: AppState)
        ensures
            state@ == API_ENDPOINT@,
    {
        AppState { upload_endpoint: String::from_str(API_ENDPOINT) }
    }
}

/// The endpoint currently configured.
pub fn get_upload_endpoint(state: &AppState) -> (endpoint: String)
    ensures
        endpoint@ == state@,
{
    state.upload_endpoint.clone()
}

/// Replaces the endpoint. Any string is accepted.
pub fn set_upload_endpoint(state: &mut AppState, endpoint: String)
    ensures
        final(state)@ == endpoint@,
{
    state.upload_endpoint = endpoint;
}

} // verus!
