//! Access to the Responses API endpoints.

use vstd::prelude::*;

use crate::config::OpenAI;
use crate::resources::{path_of, resource_path};

verus! {

/// Access to the Responses API endpoints.
pub struct Responses<'a> {
    client: &'a OpenAI,
}

impl<'a> Responses<'a> {
    /// The handle of the client's endpoints.
    pub(crate) fn new(client: &'a OpenAI) -> (r: Responses<'a>)
        ensures
            r.client() == client,
    {
        Responses { client }
    }

    /// The client the requests go through.
    pub closed spec fn client(&self) -> &'a OpenAI {
        self.client
    }

    /// The client the requests go through.
    pub fn client_ref(&self) -> (r: &'a OpenAI)
        ensures
            r == self.client(),
    {
        self.client
    }

    /// The path of one response: `/responses/{response_id}`.
    pub fn response_path(response_id: &str) -> (r: String)
        ensures
            r@ == path_of(seq!["responses"@, response_id@]),
    {
        let segments = ["responses", response_id];
        let r = resource_path(&segments);
        proof {
            assert(segments@.map_values(|s: &str| s@) =~= seq!["responses"@, response_id@]);
        }
        r
    }
}

} // verus!
