//! Access to the embedding endpoint.

use vstd::prelude::*;

use crate::config::OpenAI;

verus! {

/// Access to the embedding endpoint.
pub struct Embeddings<'a> {
    client: &'a OpenAI,
}

impl<'a> Embeddings<'a> {
    /// The handle of the client's endpoints.
    pub(crate) fn new(client: &'a OpenAI) -> (r: Embeddings<'a>)
        ensures
            r.client() == client,
    {
        Embeddings { client }
    }

    /// The client the requests go through.
    pub closed spec fn client(&self) -> &'a OpenAI {
        self.client
    }

    /// The client the requests go through.
    pub fn client_ref(&self) -> (r: &'a OpenAI)
        ensures
            r == self.client(),
    {
        self.client
    }
}

} // verus!
