//! Client configuration.

use vstd::prelude::*;

use reqwest::header::HeaderMap;

use crate::request_options::{opt_headers, opt_query, RequestOptions, copy_query};
use crate::resources::containers::Containers;
use crate::resources::conversations::Conversations;
use crate::resources::embeddings::Embeddings;
use crate::resources::realtime::Realtime;
use crate::resources::responses::Responses;
use crate::resources::videos::Videos;
use crate::headers::header_map_clone;

verus! {

/// The API base URL used unless another is set.
pub open spec fn default_base_url() -> Seq<char> {
    "https://api.openai.com/v1"@
}

/// The request timeout, in seconds, used unless another is set.
pub const DEFAULT_TIMEOUT_SECS: u64 = 600;

/// How many times a failed request is retried unless another count is set.
pub const DEFAULT_MAX_RETRIES: u32 = 2;

/// Configuration for the OpenAI client.
#[derive(Debug)]
pub struct ClientConfig {
    pub api_key: String,
    pub base_url: String,
    pub organization: Option<String>,
    pub project: Option<String>,
    pub timeout_secs: u64,
    pub max_retries: u32,
    /// Default headers sent with every request.
    pub default_headers: Option<HeaderMap>,
    /// Default query parameters appended to every request URL.
    pub default_query: Option<Vec<(String, String)>>,
    /// When true, the key goes in an `api-key` header instead of
    /// `Authorization: Bearer` (Azure OpenAI deployments).
    pub use_azure_api_key_header: bool,
}

/// Whether a configuration is the default one for the given key.
pub open spec fn is_default_config(c: ClientConfig, api_key: Seq<char>) -> bool {
    &&& c.api_key@ == api_key
    &&& c.base_url@ == default_base_url()
    &&& c.organization is None
    &&& c.project is None
    &&& c.timeout_secs == DEFAULT_TIMEOUT_SECS
    &&& c.max_retries == DEFAULT_MAX_RETRIES
    &&& c.default_headers is None
    &&& c.default_query is None
    &&& !c.use_azure_api_key_header
}

impl ClientConfig {
    /// A configuration with the given API key and every other setting at its
    /// default.
    pub fn new(api_key: &str) -> (c: ClientConfig)
        ensures
            is_default_config(c, api_key@),
    {
        ClientConfig {
            api_key: String::from_str(api_key),
            base_url: String::from_str("https://api.openai.com/v1"),
            organization: None,
            project: None,
            timeout_secs: DEFAULT_TIMEOUT_SECS,
            max_retries: DEFAULT_MAX_RETRIES,
            default_headers: None,
            default_query: None,
            use_azure_api_key_header: false,
        }
    }

    /// Sets the API base URL.
    pub fn base_url(self, url: &str) -> (c: ClientConfig)
        ensures
            c.base_url@ == url@,
            c == (ClientConfig { base_url: c.base_url, ..self }),
    {
        ClientConfig { base_url: String::from_str(url), ..self }
    }

    /// Sets the organization.
    pub fn organization(self, org: &str) -> (c: ClientConfig)
        ensures
            c.organization matches Some(o) && o@ == org@,
            c == (ClientConfig { organization: c.organization, ..self }),
    {
        ClientConfig { organization: Some(String::from_str(org)), ..self }
    }

    /// Sets the project.
    pub fn project(self, project: &str) -> (c: ClientConfig)
        ensures
            c.project matches Some(p) && p@ == project@,
            c == (ClientConfig { project: c.project, ..self }),
    {
        ClientConfig { project: Some(String::from_str(project)), ..self }
    }

    /// Sets the request timeout in seconds.
    pub fn timeout_secs(self, secs: u64) -> (c: ClientConfig)
        ensures
            c == (ClientConfig { timeout_secs: secs, ..self }),
    {
        ClientConfig { timeout_secs: secs, ..self }
    }

    /// Sets how many times a failed request is retried.
    pub fn max_retries(self, retries: u32) -> (c: ClientConfig)
        ensures
            c == (ClientConfig { max_retries: retries, ..self }),
    {
        ClientConfig { max_retries: retries, ..self }
    }

    /// Sets the headers sent with every request.
    pub fn default_headers(self, headers: HeaderMap) -> (c: ClientConfig)
        ensures
            c == (ClientConfig { default_headers: Some(headers), ..self }),
    {
        ClientConfig { default_headers: Some(headers), ..self }
    }

    /// Sets the query parameters appended to every request URL.
    pub fn default_query(self, query: Vec<(String, String)>) -> (c: ClientConfig)
        ensures
            c == (ClientConfig { default_query: Some(query), ..self }),
    {
        ClientConfig { default_query: Some(query), ..self }
    }

    /// Sends the key in an `api-key` header instead of
    /// `Authorization: Bearer`.
    pub fn use_azure_api_key_header(self, enabled: bool) -> (c: ClientConfig)
        ensures
            c == (ClientConfig { use_azure_api_key_header: enabled, ..self }),
    {
        ClientConfig { use_azure_api_key_header: enabled, ..self }
    }

    /// The request options every request starts from: the configured
    /// default headers and default query parameters, nothing else.
    pub fn initial_options(&self) -> (r: RequestOptions)
        ensures
            opt_headers(r.headers) == opt_headers(self.default_headers),
            opt_query(r.query) == opt_query(self.default_query),
            r.extra_body is None,
            r.timeout is None,
    {
        let mut opts = RequestOptions::new();
        if let Some(h) = &self.default_headers {
            opts.headers = Some(header_map_clone(h));
        }
        if let Some(q) = &self.default_query {
            opts.query = Some(copy_query(q));
        }
        opts
    }
}

/// The OpenAI client: its configuration, which every request follows.
#[derive(Debug)]
pub struct OpenAI {
    pub config: ClientConfig,
}

impl OpenAI {
    /// A client with the given configuration.
    pub fn with_config(config: ClientConfig) -> (client: OpenAI)
        ensures
            client.config == config,
    {
        OpenAI { config }
    }

    /// Container endpoints.
    pub fn containers(&self) -> (r: Containers<'_>)
        ensures
            r.client() == self,
    {
        Containers::new(self)
    }

    /// Conversation endpoints.
    pub fn conversations(&self) -> (r: Conversations<'_>)
        ensures
            r.client() == self,
    {
        Conversations::new(self)
    }

    /// Embedding endpoints.
    pub fn embeddings(&self) -> (r: Embeddings<'_>)
        ensures
            r.client() == self,
    {
        Embeddings::new(self)
    }

    /// Realtime endpoints.
    pub fn realtime(&self) -> (r: Realtime<'_>)
        ensures
            r.client() == self,
    {
        Realtime::new(self)
    }

    /// Responses API endpoints.
    pub fn responses(&self) -> (r: Responses<'_>)
        ensures
            r.client() == self,
    {
        Responses::new(self)
    }

    /// Video endpoints.
    pub fn videos(&self) -> (r: Videos<'_>)
        ensures
            r.client() == self,
    {
        Videos::new(self)
    }
}

} // verus!
