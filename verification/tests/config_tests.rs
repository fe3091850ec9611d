use openai_oxide::cloudflare::CloudflareConfig;
use openai_oxide::config::ClientConfig;
use openai_oxide::openrouter::{config, App};
use openai_oxide::{AzureConfig, OpenAI, OpenAIError};

#[test]
fn test_cloudflare_base_url() {
    let client = CloudflareConfig::new("abc123", "cf-token").build().unwrap();

    assert_eq!(
        client.config.base_url,
        "https://api.cloudflare.com/client/v4/accounts/abc123/ai/v1"
    );
}

#[test]
fn test_cloudflare_gateway_url() {
    let client = CloudflareConfig::new("abc123", "cf-token")
        .gateway_id("my-gateway")
        .build()
        .unwrap();

    assert_eq!(
        client.config.base_url,
        "https://gateway.ai.cloudflare.com/v1/abc123/my-gateway/openai"
    );
}

#[test]
fn test_cloudflare_session_affinity_header() {
    let client = CloudflareConfig::new("abc123", "cf-token")
        .session_affinity("ses_12345")
        .build()
        .unwrap();

    let headers = client.config.default_headers.unwrap();
    assert_eq!(headers.get("x-session-affinity").unwrap(), "ses_12345");
}

#[test]
fn test_cloudflare_no_session_affinity() {
    let client = CloudflareConfig::new("abc123", "cf-token").build().unwrap();

    assert!(client.config.default_headers.is_none());
}

#[test]
fn test_cloudflare_bearer_auth() {
    let client = CloudflareConfig::new("abc123", "cf-token").build().unwrap();

    assert_eq!(client.config.api_key, "cf-token");
}

#[test]
fn cloudflare_rejects_invalid_session_key() {
    let result = CloudflareConfig::new("abc123", "cf-token")
        .session_affinity("bad\nkey")
        .build();
    match result {
        Err(OpenAIError::InvalidArgument(m)) => {
            assert!(m.starts_with("invalid session affinity key: "))
        }
        _ => panic!("expected an invalid argument error"),
    }
}

#[test]
fn test_base_url() {
    let cfg = config("sk-or-test", None).unwrap();
    assert_eq!(cfg.base_url, "https://openrouter.ai/api/v1");
}

#[test]
fn test_bearer_auth() {
    let cfg = config("sk-or-test", None).unwrap();
    assert_eq!(cfg.api_key, "sk-or-test");
}

#[test]
fn test_app_headers() {
    let cfg = config(
        "sk-or-test",
        Some(App {
            name: "my-agent",
            url: "https://example.com",
        }),
    )
    .unwrap();
    let headers = cfg.default_headers.as_ref().unwrap();
    assert_eq!(headers.get("http-referer").unwrap(), "https://example.com");
    assert_eq!(headers.get("x-openrouter-title").unwrap(), "my-agent");
}

#[test]
fn test_no_app_no_headers() {
    let cfg = config("sk-or-test", None).unwrap();
    assert!(cfg.default_headers.is_none());
}

#[test]
fn openrouter_rejects_invalid_app_header() {
    let result = config("sk-or-test", Some(App { name: "bad\u{7f}name", url: "" }));
    match result {
        Err(OpenAIError::InvalidArgument(m)) => assert!(m.starts_with("invalid header x-openrouter-title: ")),
        _ => panic!("expected an invalid argument error"),
    }
}

#[test]
fn client_config_defaults() {
    let c = ClientConfig::new("sk-test");
    assert_eq!(c.api_key, "sk-test");
    assert_eq!(c.base_url, "https://api.openai.com/v1");
    assert_eq!(c.timeout_secs, 600);
    assert_eq!(c.max_retries, 2);
    assert!(c.organization.is_none() && c.project.is_none());
    assert!(c.default_headers.is_none() && c.default_query.is_none());
    assert!(!c.use_azure_api_key_header);
}

#[test]
fn client_config_builders() {
    let c = ClientConfig::new("k")
        .base_url("http://localhost:8080/v1")
        .organization("org-1")
        .project("proj-1")
        .timeout_secs(30)
        .max_retries(5)
        .default_query(vec![("a".to_string(), "1".to_string())]);
    assert_eq!(c.base_url, "http://localhost:8080/v1");
    assert_eq!(c.organization.as_deref(), Some("org-1"));
    assert_eq!(c.project.as_deref(), Some("proj-1"));
    assert_eq!(c.timeout_secs, 30);
    assert_eq!(c.max_retries, 5);
    let opts = c.initial_options();
    assert_eq!(opts.query.unwrap(), vec![("a".to_string(), "1".to_string())]);
    assert!(opts.headers.is_none() && opts.extra_body.is_none() && opts.timeout.is_none());
}

#[test]
fn initial_options_carry_default_headers() {
    let mut h = reqwest::header::HeaderMap::new();
    h.insert("x-team", "blue".parse().unwrap());
    let c = ClientConfig::new("k").default_headers(h);
    let opts = c.initial_options();
    assert_eq!(opts.headers.unwrap().get("x-team").unwrap(), "blue");
    assert!(opts.query.is_none());
}

#[test]
fn azure_builds_deployment_url() {
    let client = AzureConfig::new()
        .azure_endpoint("https://my-resource.openai.azure.com/")
        .azure_deployment("gpt-4o")
        .api_key("azure-key")
        .build()
        .unwrap();
    assert_eq!(
        client.config.base_url,
        "https://my-resource.openai.azure.com/openai/deployments/gpt-4o"
    );
    assert_eq!(client.config.api_key, "azure-key");
    assert!(client.config.use_azure_api_key_header);
    let query = client.config.default_query.unwrap();
    assert_eq!(query, vec![("api-version".to_string(), "2024-10-21".to_string())]);
}

#[test]
fn azure_without_endpoint_fails() {
    let result = AzureConfig::new().api_key("k").build();
    assert!(matches!(result, Err(OpenAIError::InvalidArgument(_))));
}

#[test]
fn azure_without_credentials_fails() {
    let result = AzureConfig::new().azure_endpoint("https://x.openai.azure.com").build();
    assert!(matches!(result, Err(OpenAIError::InvalidArgument(_))));
}

#[test]
fn openai_handles_share_the_client() {
    let client = OpenAI::with_config(ClientConfig::new("k"));
    let files = client.containers().files("cntr_1");
    assert_eq!(files.files_path(), "/containers/cntr_1/files");
    assert!(std::ptr::eq(files.client_ref(), &client));
    assert!(std::ptr::eq(client.realtime().client_secrets().client_ref(), &client));
}
