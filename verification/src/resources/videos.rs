//! Access to video generation endpoints.

use vstd::prelude::*;

use crate::config::OpenAI;
use crate::resources::{path_of, resource_path};

verus! {

/// Access to video generation endpoints.
pub struct Videos<'a> {
    client: &'a OpenAI,
}

impl<'a> Videos<'a> {
    /// The handle of the client's endpoints.
    pub(crate) fn new(client: &'a OpenAI) -> (r: Videos<'a>)
        ensures
            r.client() == client,
    {
        Videos { client }
    }

    /// The client the requests go through.
    pub closed spec fn client(&self) -> &'a OpenAI {
        self.client
    }

    /// The client the requests go through.
    pub fn client_ref(&self) -> (r: &'a OpenAI)
        ensures
            r == self.client(),
    {
        self.client
    }

    /// The path of one video: `/videos/{video_id}`.
    pub fn video_path(video_id: &str) -> (r: String)
        ensures
            r@ == path_of(seq!["videos"@, video_id@]),
    {
        let segments = ["videos", video_id];
        let r = resource_path(&segments);
        proof {
            assert(segments@.map_values(|s: &str| s@) =~= seq!["videos"@, video_id@]);
        }
        r
    }

    /// The path of a video's content: `/videos/{video_id}/content`.
    pub fn video_content_path(video_id: &str) -> (r: String)
        ensures
            r@ == path_of(seq!["videos"@, video_id@, "content"@]),
    {
        let segments = ["videos", video_id, "content"];
        let r = resource_path(&segments);
        proof {
            assert(segments@.map_values(|s: &str| s@) =~= seq!["videos"@, video_id@, "content"@]);
        }
        r
    }

    /// The path of a video's remix: `/videos/{video_id}/remix`.
    pub fn remix_path(video_id: &str) -> (r: String)
        ensures
            r@ == path_of(seq!["videos"@, video_id@, "remix"@]),
    {
        let segments = ["videos", video_id, "remix"];
        let r = resource_path(&segments);
        proof {
            assert(segments@.map_values(|s: &str| s@) =~= seq!["videos"@, video_id@, "remix"@]);
        }
        r
    }

    /// The path of one character: `/videos/characters/{character_id}`.
    pub fn character_path(character_id: &str) -> (r: String)
        ensures
            r@ == path_of(seq!["videos"@, "characters"@, character_id@]),
    {
        let segments = ["videos", "characters", character_id];
        let r = resource_path(&segments);
        proof {
            assert(segments@.map_values(|s: &str| s@) =~= seq!["videos"@, "characters"@, character_id@]);
        }
        r
    }
}

} // verus!
