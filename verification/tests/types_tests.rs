use openai_oxide::json::{JsonMap, JsonNumber, JsonValue};
use openai_oxide::types::responses::{
    ResponseCreateRequest, ResponseErrorEvent, ResponseInput, ResponseStreamEvent, ResponseToolChoice,
};
use openai_oxide::types::common::{FinishReason, MaxResponseTokens, ReasoningEffort, Role, ServiceTier};
use openai_oxide::types::embedding::{EmbeddingCreateRequest, EmbeddingInput, EncodingFormat};
use openai_oxide::types::file::FileUploadParams;
use openai_oxide::types::image::{
    Image, ImageBackground, ImageEditRequest, ImageGenerateRequest, ImageModeration,
    ImageOutputFormat, ImageQuality, ImageResponseFormat, ImageSize, ImageStyle,
    ImageVariationRequest,
};
use openai_oxide::types::responses::{
    default_function_type, default_reasoning_text_type, has_function_calls, output_text,
    Reasoning, ReasoningSummary, ResponseOutputContent, ResponseOutputItem, ToolChoiceOptions,
};
use openai_oxide::types::content_provenance::ContentProvenanceCheckParams;
use openai_oxide::OpenAIError;

#[test]
fn no_default_features_compiles() {
    // This test just verifies the crate links successfully
    assert!(std::mem::size_of::<Role>() > 0);
}

#[test]
fn role_wire_names() {
    assert_eq!(Role::User.as_str(), "user");
    assert_eq!(Role::from_wire("user"), Role::User);
    assert_eq!(Role::from_wire("developer"), Role::Developer);
    assert_eq!(Role::from_wire("critic"), Role::Other("critic".to_string()));
    assert_eq!(Role::from_wire("critic").as_str(), "critic");
}

#[test]
fn reasoning_effort_wire_names() {
    assert_eq!(ReasoningEffort::from_wire("high"), ReasoningEffort::High);
    assert_eq!(ReasoningEffort::High.as_str(), "high");
}

#[test]
fn finish_reason_text() {
    assert_eq!(FinishReason::ToolCalls.to_string(), "tool_calls");
    assert_eq!(FinishReason::Other("x".to_string()).to_string(), "x");
    assert_eq!(FinishReason::from_wire("content_filter"), FinishReason::ContentFilter);
    assert_eq!(ServiceTier::from_wire("priority"), ServiceTier::Priority);
}

#[test]
fn plain_enums_wire_names() {
    assert_eq!(ImageSize::from_wire("1024x1792"), Some(ImageSize::S1024x1792));
    assert_eq!(ImageSize::from_wire("9x9"), None);
    assert_eq!(ImageSize::S256x256.as_str(), "256x256");
    assert_eq!(ToolChoiceOptions::from_wire("none"), Some(ToolChoiceOptions::NoTools));
    assert_eq!(ReasoningSummary::Concise.as_str(), "concise");
    assert_eq!(ImageResponseFormat::B64Json.as_str(), "b64_json");
}

#[test]
fn max_response_tokens_json() {
    assert!(matches!(MaxResponseTokens::Inf.to_json(), JsonValue::String(s) if s == "inf"));
    assert!(matches!(
        MaxResponseTokens::Fixed(4096).to_json(),
        JsonValue::Number(JsonNumber::PosInt(4096))
    ));
    assert!(matches!(
        MaxResponseTokens::Fixed(-1).to_json(),
        JsonValue::Number(JsonNumber::NegInt(-1))
    ));
    assert_eq!(
        MaxResponseTokens::from_json(&JsonValue::String("inf".to_string())),
        Ok(MaxResponseTokens::Inf)
    );
    assert_eq!(
        MaxResponseTokens::from_json(&JsonValue::Number(JsonNumber::PosInt(10))),
        Ok(MaxResponseTokens::Fixed(10))
    );
    assert_eq!(
        MaxResponseTokens::from_json(&JsonValue::Number(JsonNumber::PosInt(u64::MAX))),
        Err("expected integer".to_string())
    );
    assert_eq!(
        MaxResponseTokens::from_json(&JsonValue::Bool(true)),
        Err("expected \"inf\" or integer".to_string())
    );
    assert_eq!(
        MaxResponseTokens::from_json(&JsonValue::String("infinite".to_string())),
        Err("expected \"inf\" or integer".to_string())
    );
    for m in [MaxResponseTokens::Inf, MaxResponseTokens::Fixed(0), MaxResponseTokens::Fixed(i64::MIN)] {
        assert_eq!(MaxResponseTokens::from_json(&m.to_json()), Ok(m));
    }
}

#[test]
fn embedding_request_new() {
    let req = EmbeddingCreateRequest::new(EmbeddingInput::from("Hello".to_string()), "text-embedding-3-small");
    assert_eq!(req.input, EmbeddingInput::String("Hello".to_string()));
    assert_eq!(req.model, "text-embedding-3-small");
    assert!(req.encoding_format.is_none() && req.dimensions.is_none() && req.user.is_none());
    assert_eq!(EmbeddingInput::from(vec![vec![1i64, 2]]), EmbeddingInput::Tokens(vec![vec![1, 2]]));
    assert_eq!(EncodingFormat::from_wire("base64"), EncodingFormat::Base64);
}

#[test]
fn upload_params_new() {
    let p = FileUploadParams::new(vec![1, 2, 3], "data.jsonl", "fine-tune");
    assert_eq!(p.file, vec![1, 2, 3]);
    assert_eq!(p.filename, "data.jsonl");
    assert_eq!(p.purpose, "fine-tune");
    let c = ContentProvenanceCheckParams::new(vec![9], "photo.jpg");
    assert_eq!(c.file, vec![9]);
    assert_eq!(c.filename, "photo.jpg");
}

#[test]
fn image_generate_builders() {
    let req = ImageGenerateRequest::new("A cute baby sea otter")
        .model("gpt-image-1")
        .n(2)
        .quality(ImageQuality::High)
        .size(ImageSize::S1024x1024)
        .response_format(ImageResponseFormat::B64Json)
        .style(ImageStyle::Vivid)
        .user("user-1")
        .output_format(ImageOutputFormat::Webp)
        .output_compression(80)
        .background(ImageBackground::Transparent)
        .moderation(ImageModeration::Low);
    assert_eq!(req.prompt, "A cute baby sea otter");
    assert_eq!(req.model.as_deref(), Some("gpt-image-1"));
    assert_eq!(req.n, Some(2));
    assert_eq!(req.quality, Some(ImageQuality::High));
    assert_eq!(req.size, Some(ImageSize::S1024x1024));
    assert_eq!(req.response_format, Some(ImageResponseFormat::B64Json));
    assert_eq!(req.style, Some(ImageStyle::Vivid));
    assert_eq!(req.user.as_deref(), Some("user-1"));
    assert_eq!(req.output_format, Some(ImageOutputFormat::Webp));
    assert_eq!(req.output_compression, Some(80));
    assert_eq!(req.background, Some(ImageBackground::Transparent));
    assert_eq!(req.moderation, Some(ImageModeration::Low));
    let e = ImageEditRequest::new(vec![1], "in.png", "add a hat");
    assert_eq!(e.image_filename, "in.png");
    assert_eq!(e.prompt, "add a hat");
    assert!(e.mask.is_none() && e.model.is_none());
    let v = ImageVariationRequest::new(vec![2], "in.png");
    assert_eq!(v.image, vec![2]);
    assert!(v.n.is_none() && v.size.is_none());
}

#[test]
fn image_decoded_bytes() {
    let img = Image { url: None, b64_json: Some("aGVsbG8=".to_string()), revised_prompt: None };
    assert_eq!(img.decoded_bytes().unwrap(), b"hello".to_vec());
    let none = Image { url: Some("https://x".to_string()), b64_json: None, revised_prompt: None };
    match none.decoded_bytes() {
        Err(OpenAIError::InvalidArgument(m)) => assert_eq!(m, "No base64 data available"),
        other => panic!("unexpected {other:?}"),
    }
    let bad = Image { url: None, b64_json: Some("!!!".to_string()), revised_prompt: None };
    match bad.decoded_bytes() {
        Err(OpenAIError::InvalidArgument(m)) => assert!(m.starts_with("Failed to decode base64: ")),
        other => panic!("unexpected {other:?}"),
    }
}

fn item(type_: &str, blocks: Option<Vec<(&str, Option<&str>)>>) -> ResponseOutputItem {
    ResponseOutputItem {
        type_: type_.to_string(),
        id: None,
        role: None,
        content: blocks.map(|bs| {
            bs.into_iter()
                .map(|(t, text)| ResponseOutputContent {
                    type_: t.to_string(),
                    text: text.map(|s| s.to_string()),
                    annotations: None,
                })
                .collect()
        }),
        status: None,
        name: None,
        arguments: None,
        call_id: None,
    }
}

#[test]
fn output_text_concatenates_text_blocks() {
    let output = vec![
        item("message", Some(vec![("output_text", Some("Hello, ")), ("refusal", Some("no")), ("output_text", None)])),
        item("function_call", None),
        item("message", Some(vec![("output_text", Some("world!"))])),
    ];
    assert_eq!(output_text(&output), "Hello, world!");
    assert!(has_function_calls(&output));
    assert!(!has_function_calls(&output[2..].to_vec()));
    assert_eq!(output_text(&vec![]), "");
}

#[test]
fn reasoning_builders() {
    let mut r = Reasoning::default();
    r.effort(ReasoningEffort::High).summary(ReasoningSummary::Concise);
    let built = r.build().unwrap();
    assert_eq!(built.effort, Some(ReasoningEffort::High));
    assert_eq!(built.summary, Some(ReasoningSummary::Concise));
    assert_eq!(default_reasoning_text_type(), "reasoning_text");
    assert_eq!(default_function_type(), "function");
}

#[test]
fn response_create_request_builders() {
    let req = ResponseCreateRequest::new("o3")
        .input(ResponseInput::from("Explain quantum computing".to_string()))
        .instructions("Be concise")
        .temperature(0.5f64.to_bits())
        .max_output_tokens(2048)
        .reasoning(Reasoning { effort: Some(ReasoningEffort::High), summary: Some(ReasoningSummary::Concise) })
        .truncation("auto")
        .store(true)
        .tool_choice(ResponseToolChoice::Mode("auto".to_string()))
        .previous_response_id("resp-prev");
    assert_eq!(req.model, "o3");
    assert!(matches!(&req.input, Some(ResponseInput::Text(t)) if t == "Explain quantum computing"));
    assert_eq!(req.instructions.as_deref(), Some("Be concise"));
    assert_eq!(req.temperature.map(f64::from_bits), Some(0.5));
    assert_eq!(req.max_output_tokens, Some(2048));
    assert_eq!(req.reasoning.as_ref().unwrap().effort, Some(ReasoningEffort::High));
    assert_eq!(req.truncation.as_deref(), Some("auto"));
    assert_eq!(req.store, Some(true));
    assert_eq!(req.tool_choice, Some(ResponseToolChoice::Mode("auto".to_string())));
    assert_eq!(req.previous_response_id.as_deref(), Some("resp-prev"));
    assert!(req.stream.is_none() && req.top_p.is_none() && req.tools.is_none());
    let d = ResponseCreateRequest::default();
    assert_eq!(d.model, "");
    assert!(d.input.is_none() && d.background.is_none());
}

#[test]
fn stream_event_types() {
    let e = ResponseStreamEvent::OutputTextDone { output_index: 0, content_index: 0, text: "hi".to_string() };
    assert_eq!(e.event_type(), "response.output_text.done");
    let e = ResponseStreamEvent::ResponseError(ResponseErrorEvent {
        sequence_number: 1,
        message: "boom".to_string(),
        code: None,
        param: None,
    });
    assert_eq!(e.event_type(), "error");
    let mut m = JsonMap::new();
    m.insert("type".to_string(), JsonValue::String("response.some_future_event".to_string()));
    let e = ResponseStreamEvent::Other(JsonValue::Object(m));
    assert_eq!(e.event_type(), "response.some_future_event");
    assert!(matches!(e, ResponseStreamEvent::Other(_)));
    assert_eq!(ResponseStreamEvent::Other(JsonValue::Null).event_type(), "unknown");
    let mut m = JsonMap::new();
    m.insert("type".to_string(), JsonValue::Bool(true));
    assert_eq!(ResponseStreamEvent::Other(JsonValue::Object(m)).event_type(), "unknown");
}
