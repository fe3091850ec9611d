use base64::Engine;
use hmac::{Hmac, Mac};
use sha2::Sha256;

use openai_oxide::config::{ClientConfig, OpenAI};
use openai_oxide::error::{api_error_from_body, status_is_success, ErrorDetail, ErrorResponse};
use openai_oxide::resources::containers::{container_list_query, file_list_query};
use openai_oxide::resources::resource_path;
use openai_oxide::resources::webhooks::Webhooks;
use openai_oxide::types::containers::{
    ContainerListParams, ContainerListParamsOrder, FileListParams, FileListParamsOrder,
};
use openai_oxide::OpenAIError;

fn now_secs() -> i64 {
    std::time::SystemTime::now()
        .duration_since(std::time::UNIX_EPOCH)
        .unwrap()
        .as_secs() as i64
}

fn sign(secret_raw: &[u8], timestamp: &str, body: &str) -> String {
    let signed_content = format!("{timestamp}.{body}");
    let mut mac = Hmac::<Sha256>::new_from_slice(secret_raw).unwrap();
    mac.update(signed_content.as_bytes());
    base64::engine::general_purpose::STANDARD.encode(mac.finalize().into_bytes())
}

#[test]
fn container_query_skips_unset_fields() {
    let params = ContainerListParams {
        after: None,
        limit: None,
        name: None,
        order: None,
    };
    assert!(container_list_query(&params).is_empty());
}

#[test]
fn container_query_carries_every_set_field() {
    let params = ContainerListParams {
        after: Some("cntr_abc".to_string()),
        limit: Some(20),
        name: Some("sandbox".to_string()),
        order: Some(ContainerListParamsOrder::Asc),
    };
    assert_eq!(
        container_list_query(&params),
        vec![
            ("after".to_string(), "cntr_abc".to_string()),
            ("limit".to_string(), "20".to_string()),
            ("name".to_string(), "sandbox".to_string()),
            ("order".to_string(), "asc".to_string()),
        ]
    );
}

#[test]
fn file_query_carries_every_set_field() {
    let params = FileListParams {
        after: Some("cfile_abc".to_string()),
        limit: Some(5),
        order: Some(FileListParamsOrder::Desc),
    };
    assert_eq!(
        file_list_query(&params),
        vec![
            ("after".to_string(), "cfile_abc".to_string()),
            ("limit".to_string(), "5".to_string()),
            ("order".to_string(), "desc".to_string()),
        ]
    );
}

#[test]
fn container_query_negative_limit_and_unknown_order() {
    let params = ContainerListParams {
        after: None,
        limit: Some(-7),
        name: None,
        order: Some(ContainerListParamsOrder::Other("sideways".to_string())),
    };
    assert_eq!(
        container_list_query(&params),
        vec![
            ("limit".to_string(), "-7".to_string()),
            ("order".to_string(), "desc".to_string()),
        ]
    );
}

#[test]
fn resource_paths() {
    assert_eq!(resource_path(&["containers", "c1", "files"]), "/containers/c1/files");
    assert_eq!(resource_path(&[]), "");
    let client = OpenAI::with_config(ClientConfig::new("k"));
    let files = client.containers().files("cntr_1");
    assert_eq!(files.file_path("f1"), "/containers/cntr_1/files/f1");
    assert_eq!(files.file_content_path("f1"), "/containers/cntr_1/files/f1/content");
    assert_eq!(
        openai_oxide::resources::containers::Containers::container_path("c9"),
        "/containers/c9"
    );
    assert_eq!(
        openai_oxide::resources::conversations::Conversations::item_path("conv", "it"),
        "/conversations/conv/items/it"
    );
    assert_eq!(
        openai_oxide::resources::conversations::Conversations::items_path("conv"),
        "/conversations/conv/items"
    );
    assert_eq!(
        openai_oxide::resources::responses::Responses::response_path("resp-abc123"),
        "/responses/resp-abc123"
    );
    assert_eq!(
        openai_oxide::resources::videos::Videos::character_path("ch1"),
        "/videos/characters/ch1"
    );
    assert_eq!(
        openai_oxide::resources::videos::Videos::remix_path("v1"),
        "/videos/v1/remix"
    );
}

#[test]
fn test_webhook_verify_valid() {
    let secret_raw = b"test-secret-key-bytes!!";
    let secret_b64 = base64::engine::general_purpose::STANDARD.encode(secret_raw);
    let webhook_secret = format!("whsec_{secret_b64}");

    let timestamp = now_secs().to_string();
    let body = r#"{"type":"test","data":{}}"#;
    let sig = sign(secret_raw, &timestamp, body);
    let sig_header = format!("v1,{sig}");

    let wh = Webhooks::new(&webhook_secret).unwrap();
    wh.verify(body.as_bytes(), &sig_header, &timestamp).unwrap();
}

#[test]
fn test_webhook_verify_invalid_signature() {
    let secret_raw = b"test-secret-key-bytes!!";
    let secret_b64 = base64::engine::general_purpose::STANDARD.encode(secret_raw);

    let timestamp = now_secs().to_string();

    let wh = Webhooks::new(&format!("whsec_{secret_b64}")).unwrap();
    let result = wh.verify(b"body", "v1,invalidsignature", &timestamp);
    assert!(result.is_err());
}

#[test]
fn test_webhook_verify_expired_timestamp() {
    let secret_raw = b"test-secret-key-bytes!!";
    let secret_b64 = base64::engine::general_purpose::STANDARD.encode(secret_raw);

    let old_timestamp = "1000000000"; // year 2001

    let wh = Webhooks::new(&format!("whsec_{secret_b64}")).unwrap();
    let result = wh.verify(b"body", "v1,sig", old_timestamp);
    assert!(result.is_err());
    assert!(format!("{result:?}").contains("too old"));
}

#[test]
fn webhook_verify_at_fixed_time() {
    let secret_raw = b"fixed-time-secret";
    let secret_b64 = base64::engine::general_purpose::STANDARD.encode(secret_raw);
    let wh = Webhooks::new(&secret_b64).unwrap();
    let body = "payload";
    let sig = sign(secret_raw, "1700000000", body);
    // one of several space-separated entries matches
    let header = format!("v1,bogus v1,{sig}");
    assert!(wh.verify_at(body.as_bytes(), &header, "1700000000", 1700000300).is_ok());
    // just outside the tolerance
    match wh.verify_at(body.as_bytes(), &header, "1700000000", 1700000301) {
        Err(OpenAIError::InvalidArgument(m)) => assert_eq!(
            m,
            "webhook timestamp too old or too new (delta=301s, tolerance=300s)"
        ),
        other => panic!("unexpected {other:?}"),
    }
    // a timestamp in the future is measured the same way
    assert!(wh.verify_at(body.as_bytes(), &header, "1700000000", 1699999700).is_ok());
    match wh.verify_at(body.as_bytes(), &header, "17000x", 1700000000) {
        Err(OpenAIError::InvalidArgument(m)) => assert_eq!(m, "invalid webhook-timestamp header"),
        other => panic!("unexpected {other:?}"),
    }
    match wh.verify_at(b"other payload", &header, "1700000000", 1700000000) {
        Err(OpenAIError::InvalidArgument(m)) => assert_eq!(m, "webhook signature verification failed"),
        other => panic!("unexpected {other:?}"),
    }
}

#[test]
fn webhook_rejects_bad_secret() {
    match Webhooks::new("whsec_***not base64***") {
        Err(OpenAIError::InvalidArgument(m)) => assert!(m.starts_with("invalid webhook secret: ")),
        _ => panic!("expected an invalid argument error"),
    }
}

#[test]
fn api_error_from_body_uses_error_object() {
    let parsed = ErrorResponse {
        error: ErrorDetail {
            message: "no such response".to_string(),
            type_: Some("invalid_request_error".to_string()),
            code: None,
        },
    };
    match api_error_from_body(404, "{...}".to_string(), Some(parsed)) {
        OpenAIError::ApiError { status, message, type_, code } => {
            assert_eq!(status, 404);
            assert_eq!(message, "no such response");
            assert_eq!(type_.as_deref(), Some("invalid_request_error"));
            assert!(code.is_none());
        }
        other => panic!("unexpected {other:?}"),
    }
    match api_error_from_body(502, "bad gateway".to_string(), None) {
        OpenAIError::ApiError { status, message, type_, code } => {
            assert_eq!(status, 502);
            assert_eq!(message, "bad gateway");
            assert!(type_.is_none() && code.is_none());
        }
        other => panic!("unexpected {other:?}"),
    }
    assert!(status_is_success(200) && status_is_success(299));
    assert!(!status_is_success(199) && !status_is_success(300) && !status_is_success(404));
}

#[test]
fn webhook_signs_raw_payload_bytes() {
    let secret_raw = b"utf8-secret";
    let secret_b64 = base64::engine::general_purpose::STANDARD.encode(secret_raw);
    let wh = Webhooks::new(&format!("whsec_{secret_b64}")).unwrap();
    // a payload that is not UTF-8 is signed as its raw bytes
    let mut mac = Hmac::<Sha256>::new_from_slice(secret_raw).unwrap();
    mac.update(b"1700000000.");
    mac.update(&[0xff, 0xfe]);
    let sig = base64::engine::general_purpose::STANDARD.encode(mac.finalize().into_bytes());
    let header = format!("v1,{sig}");
    assert!(wh.verify_at(&[0xff, 0xfe], &header, "1700000000", 1700000000).is_ok());
    let empty_sig = sign(secret_raw, "1700000000", "");
    assert!(wh.verify_at(&[0xff, 0xfe], &format!("v1,{empty_sig}"), "1700000000", 1700000000).is_err());
}

#[test]
fn webhook_secret_round_trip() {
    let secret_raw: Vec<u8> = (0u8..=40).collect();
    let secret_b64 = base64::engine::general_purpose::STANDARD.encode(&secret_raw);
    let with_prefix = Webhooks::new(&format!("whsec_{secret_b64}")).unwrap();
    let without_prefix = Webhooks::new(&secret_b64).unwrap();
    let body = "round trip";
    let sig = sign(&secret_raw, "1700000123", body);
    for wh in [with_prefix, without_prefix] {
        assert!(wh.verify_at(body.as_bytes(), &format!("v1,{sig}"), "1700000123", 1700000000).is_ok());
    }
}
