//! Access to the realtime endpoints (ephemeral client secrets).

use vstd::prelude::*;

use crate::config::OpenAI;

verus! {

/// Access to the realtime endpoints (ephemeral client secrets).
pub struct Realtime<'a> {
    client: &'a OpenAI,
}

impl<'a> Realtime<'a> {
    /// The handle of the client's endpoints.
    pub(crate) fn new(client: &'a OpenAI) -> (r: Realtime<'a>)
        ensures
            r.client() == client,
    {
        Realtime { client }
    }

    /// The client the requests go through.
    pub closed spec fn client(&self) -> &'a OpenAI {
        self.client
    }

    /// The client the requests go through.
    pub fn client_ref(&self) -> (r: &'a OpenAI)
        ensures
            r == self.client(),
    {
        self.client
    }

    /// The client secrets endpoint.
    pub fn client_secrets(&self) -> (r: ClientSecrets<'a>)
        ensures
            r.client() == self.client(),
    {
        ClientSecrets { client: self.client }
    }
}

/// The realtime client secrets endpoint: short-lived tokens for end-user
/// clients.
pub struct ClientSecrets<'a> {
    client: &'a OpenAI,
}

impl<'a> ClientSecrets<'a> {
    /// The client the requests go through.
    pub closed spec fn client(&self) -> &'a OpenAI {
        self.client
    }

    /// The client the requests go through.
    pub fn client_ref(&self) -> (r: &'a OpenAI)
        ensures
            r == self.client(),
    {
        self.client
    }
}

} // verus!
