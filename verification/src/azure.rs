//! Azure OpenAI client configuration.
//!
//! Azure OpenAI builds URLs and authenticates differently from the standard
//! API:
//! - URL: `{endpoint}/openai/deployments/{deployment}` or `{endpoint}/openai`;
//! - auth: an `api-key` header (or a bearer Azure AD token);
//! - query: an `api-version` parameter on every request.

use vstd::prelude::*;

use crate::config::{ClientConfig, OpenAI, DEFAULT_MAX_RETRIES, DEFAULT_TIMEOUT_SECS};
use crate::error::{is_invalid_argument, OpenAIError};
use crate::resources::containers::query_view;
use crate::text::{trim_end_char, trim_end_char_spec};

verus! {

/// The API version used unless another is set.
pub open spec fn default_api_version() -> Seq<char> {
    "2024-10-21"@
}

/// Configuration builder for Azure OpenAI deployments.
#[derive(Debug, Default)]
pub struct AzureConfig {
    /// Azure endpoint URL, such as `https://my-resource.openai.azure.com`.
    pub azure_endpoint: Option<String>,
    /// Azure deployment name, such as `gpt-4`.
    pub azure_deployment: Option<String>,
    /// Azure API version, such as `2024-10-21`.
    pub api_version: Option<String>,
    /// Azure API key (exclusive with `azure_ad_token`).
    pub api_key: Option<String>,
    /// Azure AD token (exclusive with `api_key`).
    pub azure_ad_token: Option<String>,
}

/// The message when no endpoint is set.
pub open spec fn missing_endpoint_message() -> Seq<char> {
    "Azure endpoint is required. Set azure_endpoint() or AZURE_OPENAI_ENDPOINT env var"@
}

/// The message when both an API key and an AD token are set.
pub open spec fn both_credentials_message() -> Seq<char> {
    "api_key and azure_ad_token are mutually exclusive; only one can be set"@
}

/// The message when neither an API key nor an AD token is set.
pub open spec fn missing_credentials_message() -> Seq<char> {
    "Azure credentials required. Set api_key() or azure_ad_token()"@
}

/// The base URL of an Azure deployment: the endpoint without trailing
/// slashes, then `/openai/deployments/{deployment}`, or `/openai` without a
/// deployment.
pub open spec fn azure_base_url(endpoint: Seq<char>, deployment: Option<String>) -> Seq<char> {
    match deployment {
        Some(d) => trim_end_char_spec(endpoint, '/') + "/openai/deployments/"@ + d@,
        None => trim_end_char_spec(endpoint, '/') + "/openai"@,
    }
}

/// The text of an optional string, or a default.
pub open spec fn text_or(s: Option<String>, default: Seq<char>) -> Seq<char> {
    match s {
        Some(t) => t@,
        None => default,
    }
}

/// The client configuration built from an Azure configuration that has an
/// endpoint and exactly one credential.
pub open spec fn azure_client_config(c: ClientConfig, a: AzureConfig) -> bool {
    &&& c.api_key@ == (match a.api_key {
        Some(k) => k@,
        None => a.azure_ad_token->Some_0@,
    })
    &&& c.base_url@ == azure_base_url(a.azure_endpoint->Some_0@, a.azure_deployment)
    &&& c.default_query matches Some(q) && query_view(q@) == seq![
        ("api-version"@, text_or(a.api_version, default_api_version())),
    ]
    &&& c.use_azure_api_key_header == a.api_key is Some
    &&& c.organization is None
    &&& c.project is None
    &&& c.timeout_secs == DEFAULT_TIMEOUT_SECS
    &&& c.max_retries == DEFAULT_MAX_RETRIES
    &&& c.default_headers is None
}

/// The base URL of a built Azure client is the endpoint with its trailing
/// slashes dropped (and nothing else), followed by `/openai` without a
/// deployment, or `/openai/deployments/{deployment}` with one.
pub proof fn law_azure_base_url(c: ClientConfig, a: AzureConfig)
    requires
        azure_client_config(c, a),
    ensures
        exists|n: int|
            0 <= n <= a.azure_endpoint->Some_0@.len() && (forall|i: int|
                n <= i < a.azure_endpoint->Some_0@.len() ==> a.azure_endpoint->Some_0@[i] == '/') && (
            n == 0 || a.azure_endpoint->Some_0@[n - 1] != '/') && c.base_url@ == a.azure_endpoint->Some_0@.subrange(0, n)
                + (match a.azure_deployment {
                None => "/openai"@,
                Some(d) => "/openai/deployments/"@ + d@,
            }),
{
    let n = crate::text::lemma_trim_end_char_prefix(a.azure_endpoint->Some_0@, '/');
    match a.azure_deployment {
        Some(d) => {
            assert(c.base_url@ == a.azure_endpoint->Some_0@.subrange(0, n) + "/openai/deployments/"@ + d@);
            assert(a.azure_endpoint->Some_0@.subrange(0, n) + "/openai/deployments/"@ + d@
                =~= a.azure_endpoint->Some_0@.subrange(0, n) + ("/openai/deployments/"@ + d@));
        },
        None => {},
    }
}

impl AzureConfig {
    /// An empty Azure configuration.
    pub fn new() -> (a: AzureConfig)
        ensures
            a.azure_endpoint is None,
            a.azure_deployment is None,
            a.api_version is None,
            a.api_key is None,
            a.azure_ad_token is None,
    {
        AzureConfig {
            azure_endpoint: None,
            azure_deployment: None,
            api_version: None,
            api_key: None,
            azure_ad_token: None,
        }
    }

    /// Sets the Azure endpoint URL.
    pub fn azure_endpoint(self, endpoint: &str) -> (a: AzureConfig)
        ensures
            a.azure_endpoint matches Some(e) && e@ == endpoint@,
            a == (AzureConfig { azure_endpoint: a.azure_endpoint, ..self }),
    {
        AzureConfig { azure_endpoint: Some(String::from_str(endpoint)), ..self }
    }

    /// Sets the deployment name; the base URL then becomes
    /// `{endpoint}/openai/deployments/{deployment}`.
    pub fn azure_deployment(self, deployment: &str) -> (a: AzureConfig)
        ensures
            a.azure_deployment matches Some(d) && d@ == deployment@,
            a == (AzureConfig { azure_deployment: a.azure_deployment, ..self }),
    {
        AzureConfig { azure_deployment: Some(String::from_str(deployment)), ..self }
    }

    /// Sets the API version (`2024-10-21` when unset).
    pub fn api_version(self, version: &str) -> (a: AzureConfig)
        ensures
            a.api_version matches Some(v) && v@ == version@,
            a == (AzureConfig { api_version: a.api_version, ..self }),
    {
        AzureConfig { api_version: Some(String::from_str(version)), ..self }
    }

    /// Sets the API key (exclusive with an AD token).
    pub fn api_key(self, key: &str) -> (a: AzureConfig)
        ensures
            a.api_key matches Some(k) && k@ == key@,
            a == (AzureConfig { api_key: a.api_key, ..self }),
    {
        AzureConfig { api_key: Some(String::from_str(key)), ..self }
    }

    /// Sets the Azure AD token (exclusive with an API key); requests then
    /// carry `Authorization: Bearer {token}`.
    pub fn azure_ad_token(self, token: &str) -> (a: AzureConfig)
        ensures
            a.azure_ad_token matches Some(t) && t@ == token@,
            a == (AzureConfig { azure_ad_token: a.azure_ad_token, ..self }),
    {
        AzureConfig { azure_ad_token: Some(String::from_str(token)), ..self }
    }

    /// Builds a client from this configuration. It fails when no endpoint is
    /// set, when both an API key and an AD token are set, or when neither is,
    /// in this order.
    pub fn build(self) -> (r: Result<OpenAI, OpenAIError>)
        ensures
            self.azure_endpoint is None ==> is_invalid_argument(r, missing_endpoint_message()),
            self.azure_endpoint is Some && self.api_key is Some && self.azure_ad_token is Some
                ==> is_invalid_argument(r, both_credentials_message()),
            self.azure_endpoint is Some && self.api_key is None && self.azure_ad_token is None
                ==> is_invalid_argument(r, missing_credentials_message()),
            r is Ok <==> (self.azure_endpoint is Some && (self.api_key is Some
                != self.azure_ad_token is Some)),
            r matches Ok(client) ==> azure_client_config(client.config, self),
    {
        let ghost a = self;
        let endpoint = match self.azure_endpoint {
            Some(e) => e,
            None => {
                return Err(
                    OpenAIError::InvalidArgument(
                        String::from_str(
                            "Azure endpoint is required. Set azure_endpoint() or AZURE_OPENAI_ENDPOINT env var",
                        ),
                    ),
                );
            },
        };
        let api_version = match self.api_version {
            Some(v) => v,
            None => String::from_str("2024-10-21"),
        };
        if self.api_key.is_some() && self.azure_ad_token.is_some() {
            return Err(
                OpenAIError::InvalidArgument(
                    String::from_str(
                        "api_key and azure_ad_token are mutually exclusive; only one can be set",
                    ),
                ),
            );
        }
        let (auth_key, use_azure_api_key_header) = match (self.api_key, self.azure_ad_token) {
            (Some(key), None) => (key, true),
            (None, Some(token)) => (token, false),
            _ => {
                return Err(
                    OpenAIError::InvalidArgument(
                        String::from_str("Azure credentials required. Set api_key() or azure_ad_token()"),
                    ),
                );
            },
        };
        let trimmed = trim_end_char(endpoint.as_str(), '/');
        let mut base_url = String::from_str(trimmed);
        match &self.azure_deployment {
            Some(deployment) => {
                base_url.append("/openai/deployments/");
                base_url.append(deployment.as_str());
            },
            None => {
                base_url.append("/openai");
            },
        }
        let mut query: Vec<(String, String)> = Vec::new();
        query.push((String::from_str("api-version"), api_version));
        proof {
            assert(query_view(query@) =~= seq![
                ("api-version"@, text_or(a.api_version, default_api_version())),
            ]);
        }
        let config = ClientConfig::new(auth_key.as_str()).base_url(base_url.as_str()).default_query(
            query,
        ).use_azure_api_key_header(use_azure_api_key_header);
        Ok(OpenAI::with_config(config))
    }
}

} // verus!
