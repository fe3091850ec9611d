//! Cloudflare Workers AI client configuration.
//!
//! Workers AI offers an OpenAI-compatible API at
//! `https://api.cloudflare.com/client/v4/accounts/{account_id}/ai/v1`, with
//! bearer authentication by a Cloudflare API token and prefix caching routed
//! by the `x-session-affinity` header.

use vstd::prelude::*;
use vstd::utf8::encode_utf8;

use crate::config::{ClientConfig, OpenAI, DEFAULT_MAX_RETRIES, DEFAULT_TIMEOUT_SECS};
use crate::error::OpenAIError;
use crate::headers::{
    header_entries, header_map_insert, header_map_new, lower_name, no_headers, valid_header_name,
    valid_header_value,
};

verus! {

/// Configuration builder for Cloudflare Workers AI.
#[derive(Debug)]
pub struct CloudflareConfig {
    /// Cloudflare account ID.
    pub account_id: String,
    /// Cloudflare API token (bearer auth).
    pub api_token: String,
    /// Session affinity key for prefix caching: requests go to the same
    /// model instance.
    pub session_affinity: Option<String>,
    /// AI Gateway ID; when set, requests go through the AI Gateway endpoint.
    pub gateway_id: Option<String>,
}

/// The base URL for a Cloudflare account, direct or through an AI Gateway.
pub open spec fn cloudflare_base_url(account_id: Seq<char>, gateway_id: Option<String>) -> Seq<char> {
    match gateway_id {
        Some(gw) => "https://gateway.ai.cloudflare.com/v1/"@ + account_id + "/"@ + gw@ + "/openai"@,
        None => "https://api.cloudflare.com/client/v4/accounts/"@ + account_id + "/ai/v1"@,
    }
}

/// The name of the session affinity header.
pub open spec fn session_affinity_header() -> Seq<char> {
    "x-session-affinity"@
}

/// The prefix of the message for a session affinity key that is not a valid
/// header value.
pub open spec fn invalid_session_key_prefix() -> Seq<char> {
    "invalid session affinity key: "@
}

/// `x-session-affinity` is a valid, lower-case header name.
pub proof fn lemma_session_affinity_header_name()
    ensures
        valid_header_name(session_affinity_header()),
        lower_name(session_affinity_header()) == session_affinity_header(),
{
    reveal_strlit("x-session-affinity");
    let n = session_affinity_header();
    assert(lower_name(n) =~= n);
}

impl CloudflareConfig {
    /// A configuration for the given account and API token.
    pub fn new(account_id: &str, api_token: &str) -> (c: CloudflareConfig)
        ensures
            c.account_id@ == account_id@,
            c.api_token@ == api_token@,
            c.session_affinity is None,
            c.gateway_id is None,
    {
        CloudflareConfig {
            account_id: String::from_str(account_id),
            api_token: String::from_str(api_token),
            session_affinity: None,
            gateway_id: None,
        }
    }

    /// Sets the session affinity key for prefix caching.
    pub fn session_affinity(self, key: &str) -> (c: CloudflareConfig)
        ensures
            c.session_affinity matches Some(k) && k@ == key@,
            c == (CloudflareConfig { session_affinity: c.session_affinity, ..self }),
    {
        CloudflareConfig { session_affinity: Some(String::from_str(key)), ..self }
    }

    /// Sets the AI Gateway ID.
    pub fn gateway_id(self, id: &str) -> (c: CloudflareConfig)
        ensures
            c.gateway_id matches Some(g) && g@ == id@,
            c == (CloudflareConfig { gateway_id: c.gateway_id, ..self }),
    {
        CloudflareConfig { gateway_id: Some(String::from_str(id)), ..self }
    }

    /// Builds a client from this configuration: bearer auth with the API
    /// token, the account's base URL, and the `x-session-affinity` header
    /// when a key is set. It fails when the key is not a valid header value.
    pub fn build(self) -> (r: Result<OpenAI, OpenAIError>)
        ensures
            r is Ok <==> (match self.session_affinity {
                Some(k) => valid_header_value(encode_utf8(k@)),
                None => true,
            }),
            r matches Ok(client) ==> {
                &&& client.config.api_key@ == self.api_token@
                &&& client.config.base_url@ == cloudflare_base_url(
                    self.account_id@,
                    self.gateway_id,
                )
                &&& match self.session_affinity {
                    None => client.config.default_headers is None,
                    Some(k) => client.config.default_headers matches Some(h) && header_entries(h)
                        == no_headers().insert(session_affinity_header(), seq![encode_utf8(k@)]),
                }
                &&& client.config.organization is None
                &&& client.config.project is None
                &&& client.config.timeout_secs == DEFAULT_TIMEOUT_SECS
                &&& client.config.max_retries == DEFAULT_MAX_RETRIES
                &&& client.config.default_query is None
                &&& !client.config.use_azure_api_key_header
            },
            r matches Err(e) ==> e matches OpenAIError::InvalidArgument(m)
                && invalid_session_key_prefix().is_prefix_of(m@),
    {
        let mut base_url: String;
        match &self.gateway_id {
            Some(gw) => {
                base_url = String::from_str("https://gateway.ai.cloudflare.com/v1/");
                base_url.append(self.account_id.as_str());
                base_url.append("/");
                base_url.append(gw.as_str());
                base_url.append("/openai");
            },
            None => {
                base_url = String::from_str("https://api.cloudflare.com/client/v4/accounts/");
                base_url.append(self.account_id.as_str());
                base_url.append("/ai/v1");
            },
        }
        let mut config = ClientConfig::new(self.api_token.as_str()).base_url(base_url.as_str());
        if let Some(session_key) = &self.session_affinity {
            let mut headers = header_map_new();
            proof {
                lemma_session_affinity_header_name();
            }
            match header_map_insert(&mut headers, "x-session-affinity", session_key.as_str().as_bytes()) {
                Ok(()) => {},
                Err(detail) => {
                    let mut message = String::from_str("invalid session affinity key: ");
                    message.append(detail.as_str());
                    proof {
                        reveal_strlit("invalid session affinity key: ");
                        assert(message@.subrange(0, invalid_session_key_prefix().len() as int)
                            =~= invalid_session_key_prefix());
                    }
                    return Err(OpenAIError::InvalidArgument(message));
                },
            }
            config = config.default_headers(headers);
        }
        Ok(OpenAI::with_config(config))
    }
}

} // verus!
