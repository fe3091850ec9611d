//! Access to conversation endpoints (server-side multi-turn state).

use vstd::prelude::*;

use crate::config::OpenAI;
use crate::resources::{path_of, resource_path};

verus! {

/// Access to conversation endpoints (server-side multi-turn state).
pub struct Conversations<'a> {
    client: &'a OpenAI,
}

impl<'a> Conversations<'a> {
    /// The handle of the client's endpoints.
    pub(crate) fn new(client: &'a OpenAI) -> (r: Conversations<'a>)
        ensures
            r.client() == client,
    {
        Conversations { client }
    }

    /// The client the requests go through.
    pub closed spec fn client(&self) -> &'a OpenAI {
        self.client
    }

    /// The client the requests go through.
    pub fn client_ref(&self) -> (r: &'a OpenAI)
        ensures
            r == self.client(),
    {
        self.client
    }

    /// The path of one conversation: `/conversations/{conversation_id}`.
    pub fn conversation_path(conversation_id: &str) -> (r: String)
        ensures
            r@ == path_of(seq!["conversations"@, conversation_id@]),
    {
        let segments = ["conversations", conversation_id];
        let r = resource_path(&segments);
        proof {
            assert(segments@.map_values(|s: &str| s@) =~= seq!["conversations"@, conversation_id@]);
        }
        r
    }

    /// The path of a conversation's items: `/conversations/{conversation_id}/items`.
    pub fn items_path(conversation_id: &str) -> (r: String)
        ensures
            r@ == path_of(seq!["conversations"@, conversation_id@, "items"@]),
    {
        let segments = ["conversations", conversation_id, "items"];
        let r = resource_path(&segments);
        proof {
            assert(segments@.map_values(|s: &str| s@) =~= seq!["conversations"@, conversation_id@, "items"@]);
        }
        r
    }

    /// The path of one item: `/conversations/{conversation_id}/items/{item_id}`.
    pub fn item_path(conversation_id: &str, item_id: &str) -> (r: String)
        ensures
            r@ == path_of(seq!["conversations"@, conversation_id@, "items"@, item_id@]),
    {
        let segments = ["conversations", conversation_id, "items", item_id];
        let r = resource_path(&segments);
        proof {
            assert(segments@.map_values(|s: &str| s@) =~= seq!["conversations"@, conversation_id@, "items"@, item_id@]);
        }
        r
    }
}

} // verus!
