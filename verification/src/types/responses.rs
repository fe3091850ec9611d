//! Responses API types: typed input items, tool choice, reasoning settings,
//! output items and streaming event payloads.

use vstd::prelude::*;

use std::collections::HashMap;

use crate::json::{clone_value, json_view, lemma_entries_view, obj_get, Json, JsonMap, JsonValue};
use crate::text::str_equal;
use crate::types::common::{ReasoningEffort, Role};

verus! {

/// A simplified message input with role and content.
#[derive(Debug, Clone, PartialEq)]
pub struct EasyInputMessage {
    /// The type of the message input. Always `message`.
    pub type_: MessageType,
    /// The role of the message.
    pub role: Role,
    /// Text or structured content.
    pub content: EasyInputContent,
}

/// Message type marker, always `message`.
#[derive(Debug, Clone, Copy, PartialEq, Eq)]
pub enum MessageType {
    Message,
}

impl MessageType {
    /// The wire name (the JSON string) of the value.
    pub open spec fn wire(&self) -> Seq<char> {
        match self {
            MessageType::Message => "message"@,
        }
    }

    /// Whether a wire name is one this version knows.
    pub open spec fn is_known(s: Seq<char>) -> bool {
        s == "message"@
    }

    /// The wire name of the value.
    pub fn as_str(&self) -> (r: &str)
        ensures
            r@ == self.wire(),
    {
        match self {
            MessageType::Message => "message",
        }
    }

    /// The value a wire name stands for, if it is one.
    pub fn from_wire(s: &str) -> (r: Option<MessageType>)
        ensures
            r is Some <==> MessageType::is_known(s@),
            r matches Some(v) ==> v.wire() == s@,
    {
        if str_equal(s, "message") {
            Some(MessageType::Message)
        } else {
            None
        }
    }
}
/// Content of an `EasyInputMessage`: plain text or a structured content list.
#[derive(Debug, Clone, PartialEq)]
pub enum EasyInputContent {
    /// Plain text content.
    Text(String),
    /// Structured content list (text and images).
    ContentList(Vec<InputContent>),
}

/// A single content item within an input message content list.
#[derive(Debug, Clone, PartialEq)]
pub enum InputContent {
    /// Text content.
    InputText(InputTextContent),
    /// Image content.
    InputImage(InputImageContent),
}

/// Text content within an input message.
#[derive(Debug, Clone, PartialEq, Eq)]
pub struct InputTextContent {
    /// The text input.
    pub text: String,
}

/// Image content within an input message.
#[derive(Debug, Clone, PartialEq)]
pub struct InputImageContent {
    /// Image detail level.
    pub detail: ImageDetail,
    /// File ID for uploaded images.
    pub file_id: Option<String>,
    /// URL or base64 data URL.
    pub image_url: Option<String>,
}

/// Image detail level for vision inputs.
#[derive(Debug, Clone, Copy, PartialEq, Eq)]
pub enum ImageDetail {
    Auto,
    Low,
    High,
}

impl ImageDetail {
    /// The wire name (the JSON string) of the value.
    pub open spec fn wire(&self) -> Seq<char> {
        match self {
            ImageDetail::Auto => "auto"@,
            ImageDetail::Low => "low"@,
            ImageDetail::High => "high"@,
        }
    }

    /// Whether a wire name is one this version knows.
    pub open spec fn is_known(s: Seq<char>) -> bool {
        s == "auto"@ || s == "low"@ || s == "high"@
    }

    /// The wire name of the value.
    pub fn as_str(&self) -> (r: &str)
        ensures
            r@ == self.wire(),
    {
        match self {
            ImageDetail::Auto => "auto",
            ImageDetail::Low => "low",
            ImageDetail::High => "high",
        }
    }

    /// The value a wire name stands for, if it is one.
    pub fn from_wire(s: &str) -> (r: Option<ImageDetail>)
        ensures
            r is Some <==> ImageDetail::is_known(s@),
            r matches Some(v) ==> v.wire() == s@,
    {
        if str_equal(s, "auto") {
            Some(ImageDetail::Auto)
        } else if str_equal(s, "low") {
            Some(ImageDetail::Low)
        } else if str_equal(s, "high") {
            Some(ImageDetail::High)
        } else {
            None
        }
    }
}
/// An input item for the Responses API: an easy message or a typed item.
#[derive(Debug, Clone, PartialEq)]
pub enum InputItem {
    /// A simplified message input.
    EasyMessage(EasyInputMessage),
    /// A typed item (function call, function call output, reasoning).
    Item(Item),
}

/// A typed input item: function call, function call output, or reasoning.
#[derive(Debug, Clone, PartialEq)]
pub enum Item {
    /// A function call from the model.
    FunctionCall(FunctionToolCall),
    /// Output from a function call (sent back by the client).
    FunctionCallOutput(FunctionCallOutputItemParam),
    /// Reasoning chain-of-thought item.
    Reasoning(ReasoningItem),
}

/// A function tool call from the model.
#[derive(Debug, Clone, PartialEq, Eq)]
pub struct FunctionToolCall {
    /// JSON-encoded arguments string.
    pub arguments: String,
    /// Unique call ID for matching with function_call_output.
    pub call_id: String,
    /// Function name.
    pub name: String,
    /// Unique ID of the function tool call (when returned by the API).
    pub id: Option<String>,
    /// Item status.
    pub status: Option<String>,
}

/// Output from a function call, sent back to the model.
#[derive(Debug, Clone, PartialEq, Eq)]
pub struct FunctionCallOutputItemParam {
    /// The call ID matching the function call.
    pub call_id: String,
    /// The output content.
    pub output: FunctionCallOutput,
    /// Unique ID (when returned by the API).
    pub id: Option<String>,
    /// Item status.
    pub status: Option<String>,
}

/// The output content of a function call.
#[derive(Debug, Clone, PartialEq, Eq)]
pub enum FunctionCallOutput {
    /// Plain text output.
    Text(String),
}

/// A reasoning chain-of-thought item.
#[derive(Debug, Clone, PartialEq)]
pub struct ReasoningItem {
    /// Unique identifier.
    pub id: String,
    /// Reasoning summary parts.
    pub summary: Vec<SummaryPart>,
    /// Reasoning text content.
    pub content: Option<Vec<ReasoningContent>>,
    /// Encrypted content for multi-turn replay.
    pub encrypted_content: Option<String>,
    /// Item status.
    pub status: Option<String>,
}

/// A part of a reasoning summary.
#[derive(Debug, Clone, PartialEq, Eq)]
pub enum SummaryPart {
    /// Summary text content.
    SummaryText(SummaryTextContent),
}

/// Text content within a reasoning summary.
#[derive(Debug, Clone, PartialEq, Eq)]
pub struct SummaryTextContent {
    /// The summary text.
    pub text: String,
}

/// Reasoning text content within a reasoning item.
#[derive(Debug, Clone, PartialEq, Eq)]
pub struct ReasoningContent {
    /// The reasoning text.
    pub text: String,
    /// Content type, `reasoning_text` when absent on the wire.
    pub type_: String,
}

/// The content type a reasoning content entry has when the wire leaves it
/// out.
pub fn default_reasoning_text_type() -> (r: String)
    ensures
        r@ == "reasoning_text"@,
{
    "reasoning_text".to_string()
}

/// Additional data to include in the response.
#[derive(Debug, Clone, Copy, PartialEq, Eq)]
pub enum IncludeEnum {
    FileSearchCallResults,
    WebSearchCallResults,
    ReasoningEncryptedContent,
    MessageInputImageUrl,
    ComputerCallOutputImageUrl,
    CodeInterpreterCallOutputs,
    MessageOutputTextLogprobs,
}

impl IncludeEnum {
    /// The wire name (the JSON string) of the value.
    pub open spec fn wire(&self) -> Seq<char> {
        match self {
            IncludeEnum::FileSearchCallResults => "file_search_call.results"@,
            IncludeEnum::WebSearchCallResults => "web_search_call.results"@,
            IncludeEnum::ReasoningEncryptedContent => "reasoning.encrypted_content"@,
            IncludeEnum::MessageInputImageUrl => "message.input_image.image_url"@,
            IncludeEnum::ComputerCallOutputImageUrl => "computer_call_output.output.image_url"@,
            IncludeEnum::CodeInterpreterCallOutputs => "code_interpreter_call.outputs"@,
            IncludeEnum::MessageOutputTextLogprobs => "message.output_text.logprobs"@,
        }
    }

    /// Whether a wire name is one this version knows.
    pub open spec fn is_known(s: Seq<char>) -> bool {
        s == "file_search_call.results"@ || s == "web_search_call.results"@ || s == "reasoning.encrypted_content"@ || s == "message.input_image.image_url"@ || s == "computer_call_output.output.image_url"@ || s == "code_interpreter_call.outputs"@ || s == "message.output_text.logprobs"@
    }

    /// The wire name of the value.
    pub fn as_str(&self) -> (r: &str)
        ensures
            r@ == self.wire(),
    {
        match self {
            IncludeEnum::FileSearchCallResults => "file_search_call.results",
            IncludeEnum::WebSearchCallResults => "web_search_call.results",
            IncludeEnum::ReasoningEncryptedContent => "reasoning.encrypted_content",
            IncludeEnum::MessageInputImageUrl => "message.input_image.image_url",
            IncludeEnum::ComputerCallOutputImageUrl => "computer_call_output.output.image_url",
            IncludeEnum::CodeInterpreterCallOutputs => "code_interpreter_call.outputs",
            IncludeEnum::MessageOutputTextLogprobs => "message.output_text.logprobs",
        }
    }

    /// The value a wire name stands for, if it is one.
    pub fn from_wire(s: &str) -> (r: Option<IncludeEnum>)
        ensures
            r is Some <==> IncludeEnum::is_known(s@),
            r matches Some(v) ==> v.wire() == s@,
    {
        if str_equal(s, "file_search_call.results") {
            Some(IncludeEnum::FileSearchCallResults)
        } else if str_equal(s, "web_search_call.results") {
            Some(IncludeEnum::WebSearchCallResults)
        } else if str_equal(s, "reasoning.encrypted_content") {
            Some(IncludeEnum::ReasoningEncryptedContent)
        } else if str_equal(s, "message.input_image.image_url") {
            Some(IncludeEnum::MessageInputImageUrl)
        } else if str_equal(s, "computer_call_output.output.image_url") {
            Some(IncludeEnum::ComputerCallOutputImageUrl)
        } else if str_equal(s, "code_interpreter_call.outputs") {
            Some(IncludeEnum::CodeInterpreterCallOutputs)
        } else if str_equal(s, "message.output_text.logprobs") {
            Some(IncludeEnum::MessageOutputTextLogprobs)
        } else {
            None
        }
    }
}
/// How the model selects tools: a predefined mode or a named function.
#[derive(Debug, Clone, PartialEq, Eq)]
pub enum ToolChoiceParam {
    /// Predefined mode: none, auto, or required.
    Mode(ToolChoiceOptions),
    /// Force a specific function by name.
    Function(ToolChoiceFunction),
}

/// Predefined tool choice modes.
#[derive(Debug, Clone, Copy, PartialEq, Eq)]
pub enum ToolChoiceOptions {
    /// Do not use any tools (wire name `none`).
    NoTools,
    Auto,
    Required,
}

impl ToolChoiceOptions {
    /// The wire name (the JSON string) of the value.
    pub open spec fn wire(&self) -> Seq<char> {
        match self {
            ToolChoiceOptions::NoTools => "none"@,
            ToolChoiceOptions::Auto => "auto"@,
            ToolChoiceOptions::Required => "required"@,
        }
    }

    /// Whether a wire name is one this version knows.
    pub open spec fn is_known(s: Seq<char>) -> bool {
        s == "none"@ || s == "auto"@ || s == "required"@
    }

    /// The wire name of the value.
    pub fn as_str(&self) -> (r: &str)
        ensures
            r@ == self.wire(),
    {
        match self {
            ToolChoiceOptions::NoTools => "none",
            ToolChoiceOptions::Auto => "auto",
            ToolChoiceOptions::Required => "required",
        }
    }

    /// The value a wire name stands for, if it is one.
    pub fn from_wire(s: &str) -> (r: Option<ToolChoiceOptions>)
        ensures
            r is Some <==> ToolChoiceOptions::is_known(s@),
            r matches Some(v) ==> v.wire() == s@,
    {
        if str_equal(s, "none") {
            Some(ToolChoiceOptions::NoTools)
        } else if str_equal(s, "auto") {
            Some(ToolChoiceOptions::Auto)
        } else if str_equal(s, "required") {
            Some(ToolChoiceOptions::Required)
        } else {
            None
        }
    }
}
/// Force a specific function tool by name.
#[derive(Debug, Clone, PartialEq, Eq)]
pub struct ToolChoiceFunction {
    /// The name of the function to call.
    pub name: String,
    /// The type, `function` when absent on the wire.
    pub type_: String,
}

/// The tool choice type a named function has when the wire leaves it out.
pub fn default_function_type() -> (r: String)
    ensures
        r@ == "function"@,
{
    "function".to_string()
}

/// Input for the Responses API: text or structured items.
#[derive(Debug, Clone, PartialEq)]
pub enum InputParam {
    /// Plain text input.
    Text(String),
    /// Structured input items.
    Items(Vec<InputItem>),
}

/// Emitted when there is a reasoning text delta.
#[derive(Debug, Clone, PartialEq, Eq)]
pub struct ResponseReasoningTextDeltaEvent {
    pub sequence_number: i64,
    pub item_id: String,
    pub output_index: i64,
    pub content_index: i64,
    pub delta: String,
}

/// Emitted when there is a reasoning summary text delta.
#[derive(Debug, Clone, PartialEq, Eq)]
pub struct ResponseReasoningSummaryTextDeltaEvent {
    pub sequence_number: i64,
    pub item_id: String,
    pub output_index: i64,
    pub summary_index: i64,
    pub delta: String,
}

/// Emitted when there is a function call arguments delta.
#[derive(Debug, Clone, PartialEq, Eq)]
pub struct ResponseFunctionCallArgumentsDeltaEvent {
    pub sequence_number: i64,
    pub item_id: String,
    pub output_index: u32,
    pub delta: String,
}

/// Emitted when function call arguments are finalized.
#[derive(Debug, Clone, PartialEq, Eq)]
pub struct ResponseFunctionCallArgumentsDoneEvent {
    pub sequence_number: i64,
    pub item_id: String,
    pub output_index: u32,
    /// The complete arguments JSON.
    pub arguments: String,
    /// The function name.
    pub name: Option<String>,
}

/// Emitted when an error occurs during streaming.
#[derive(Debug, Clone, PartialEq, Eq)]
pub struct ResponseErrorEvent {
    pub sequence_number: i64,
    /// Error message.
    pub message: String,
    /// Error code.
    pub code: Option<String>,
    /// Error parameter.
    pub param: Option<String>,
}

/// How the model selects tools in the Responses API: a mode ("none",
/// "auto" or "required") or a named function.
#[derive(Debug, Clone, PartialEq, Eq)]
pub enum ResponseToolChoice {
    Mode(String),
    Named { type_: String, function: ResponseToolChoiceFunction },
}

/// Specifies which function to call in tool choice.
#[derive(Debug, Clone, PartialEq, Eq)]
pub struct ResponseToolChoiceFunction {
    pub name: String,
}

/// Summary mode for reasoning output.
#[derive(Debug, Clone, Copy, PartialEq, Eq)]
pub enum ReasoningSummary {
    Auto,
    Concise,
    Detailed,
}

impl ReasoningSummary {
    /// The wire name (the JSON string) of the value.
    pub open spec fn wire(&self) -> Seq<char> {
        match self {
            ReasoningSummary::Auto => "auto"@,
            ReasoningSummary::Concise => "concise"@,
            ReasoningSummary::Detailed => "detailed"@,
        }
    }

    /// Whether a wire name is one this version knows.
    pub open spec fn is_known(s: Seq<char>) -> bool {
        s == "auto"@ || s == "concise"@ || s == "detailed"@
    }

    /// The wire name of the value.
    pub fn as_str(&self) -> (r: &str)
        ensures
            r@ == self.wire(),
    {
        match self {
            ReasoningSummary::Auto => "auto",
            ReasoningSummary::Concise => "concise",
            ReasoningSummary::Detailed => "detailed",
        }
    }

    /// The value a wire name stands for, if it is one.
    pub fn from_wire(s: &str) -> (r: Option<ReasoningSummary>)
        ensures
            r is Some <==> ReasoningSummary::is_known(s@),
            r matches Some(v) ==> v.wire() == s@,
    {
        if str_equal(s, "auto") {
            Some(ReasoningSummary::Auto)
        } else if str_equal(s, "concise") {
            Some(ReasoningSummary::Concise)
        } else if str_equal(s, "detailed") {
            Some(ReasoningSummary::Detailed)
        } else {
            None
        }
    }
}
/// Reasoning configuration for o-series models.
#[derive(Debug, PartialEq, Eq)]
pub struct Reasoning {
    /// Effort level for reasoning.
    pub effort: Option<ReasoningEffort>,
    /// Summary mode for reasoning output.
    pub summary: Option<ReasoningSummary>,
}

impl Clone for Reasoning {
    fn clone(&self) -> (r: Self)
        ensures
            r == *self,
    {
        let effort = match &self.effort {
            Some(e) => Some(e.clone()),
            None => None,
        };
        Reasoning { effort, summary: self.summary }
    }
}

impl Default for Reasoning {
    fn default() -> (r: Self)
        ensures
            r.effort is None,
            r.summary is None,
    {
        Reasoning { effort: None, summary: None }
    }
}

impl Reasoning {
    /// Sets the effort, in place; hands back the settings for chaining.
    pub fn effort(&mut self, effort: ReasoningEffort) -> (r: &mut Self)
        ensures
            *r == (Reasoning { effort: Some(effort), summary: old(self).summary }),
            *final(self) == *final(r),
    {
        self.effort = Some(effort);
        self
    }

    /// Sets the summary mode, in place; hands back the settings for chaining.
    pub fn summary(&mut self, summary: ReasoningSummary) -> (r: &mut Self)
        ensures
            *r == (Reasoning { effort: old(self).effort, summary: Some(summary) }),
            *final(self) == *final(r),
    {
        self.summary = Some(summary);
        self
    }

    /// A finished copy of the settings; never fails.
    pub fn build(&self) -> (r: Result<Reasoning, String>)
        ensures
            r matches Ok(v) && v == *self,
    {
        Ok(self.clone())
    }
}

/// An error returned when the model fails to generate a response.
#[derive(Debug, Clone, PartialEq, Eq)]
pub struct ResponseError {
    /// The error code (e.g. "server_error", "rate_limit_exceeded").
    pub code: String,
    /// A human-readable description of the error.
    pub message: String,
}

/// Details about why the response is incomplete.
#[derive(Debug, Clone, PartialEq, Eq)]
pub struct IncompleteDetails {
    /// The reason: "max_output_tokens" or "content_filter".
    pub reason: Option<String>,
}

/// An annotation on response output text (e.g. URL citation, file citation).
#[derive(Debug, Clone, PartialEq, Eq)]
pub struct ResponseAnnotation {
    /// Annotation type (e.g. "url_citation", "file_citation", "file_path").
    pub type_: String,
    pub start_index: Option<i64>,
    pub end_index: Option<i64>,
    pub url: Option<String>,
    pub title: Option<String>,
    pub file_id: Option<String>,
}

/// Output item in a response (`message`, `function_call`, `web_search_call`,
/// and so on).
#[derive(Debug, Clone, PartialEq)]
pub struct ResponseOutputItem {
    /// Item type: "message", "function_call", "web_search_call", ...
    pub type_: String,
    pub id: Option<String>,
    /// Role (for message items).
    pub role: Option<Role>,
    /// Content blocks (for message items).
    pub content: Option<Vec<ResponseOutputContent>>,
    /// Item status: "in_progress", "completed", "incomplete".
    pub status: Option<String>,
    /// Function name (for function_call items).
    pub name: Option<String>,
    /// JSON-encoded arguments string (for function_call items).
    pub arguments: Option<String>,
    /// Call ID for matching with function_call_output (function_call items).
    pub call_id: Option<String>,
}

/// Content block within an output item.
#[derive(Debug, Clone, PartialEq, Eq)]
pub struct ResponseOutputContent {
    pub type_: String,
    pub text: Option<String>,
    pub annotations: Option<Vec<ResponseAnnotation>>,
}

/// Usage for the Responses API.
#[derive(Debug, Clone, Copy, PartialEq, Eq)]
pub struct ResponseUsage {
    pub input_tokens: Option<i64>,
    pub output_tokens: Option<i64>,
    pub total_tokens: Option<i64>,
    pub input_tokens_details: Option<InputTokensDetails>,
    pub output_tokens_details: Option<OutputTokensDetails>,
}

/// Input token usage details.
#[derive(Debug, Clone, Copy, PartialEq, Eq)]
pub struct InputTokensDetails {
    pub cached_tokens: Option<i64>,
}

/// Output token usage details.
#[derive(Debug, Clone, Copy, PartialEq, Eq)]
pub struct OutputTokensDetails {
    pub reasoning_tokens: Option<i64>,
}

/// The text a content block contributes: its text when it is an
/// `output_text` block that has one.
pub open spec fn block_text(b: ResponseOutputContent) -> Seq<char> {
    if b.type_@ == "output_text"@ && b.text is Some {
        b.text.unwrap()@
    } else {
        seq![]
    }
}

/// The text of content blocks, in order.
pub open spec fn blocks_text(bs: Seq<ResponseOutputContent>) -> Seq<char>
    decreases bs.len(),
{
    if bs.len() == 0 {
        seq![]
    } else {
        blocks_text(bs.drop_last()) + block_text(bs.last())
    }
}

/// The text of an output item's content blocks.
pub open spec fn item_text(i: ResponseOutputItem) -> Seq<char> {
    match i.content {
        Some(c) => blocks_text(c@),
        None => seq![],
    }
}

/// The text output of a response: the text of every `output_text` block of
/// every output item, concatenated in order.
pub open spec fn output_text_spec(items: Seq<ResponseOutputItem>) -> Seq<char>
    decreases items.len(),
{
    if items.len() == 0 {
        seq![]
    } else {
        output_text_spec(items.drop_last()) + item_text(items.last())
    }
}

/// The text output of a response's output items: all `output_text` content
/// blocks, concatenated in order.
pub fn output_text(output: &Vec<ResponseOutputItem>) -> (r: String)
    ensures
        r@ == output_text_spec(output@),
{
    let mut result = String::new();
    let n = output.len();
    let mut i: usize = 0;
    while i < n
        invariant
            i <= n,
            n == output@.len(),
            result@ == output_text_spec(output@.take(i as int)),
        decreases n - i,
    {
        let ghost before = result@;
        match &output[i].content {
            Some(content) => {
                let m = content.len();
                let mut j: usize = 0;
                while j < m
                    invariant
                        j <= m,
                        m == content@.len(),
                        result@ == before + blocks_text(content@.take(j as int)),
                    decreases m - j,
                {
                    let block = &content[j];
                    let is_text = str_equal(block.type_.as_str(), "output_text");
                    if is_text {
                        match &block.text {
                            Some(t) => {
                                result.append(t.as_str());
                            },
                            None => {},
                        }
                    }
                    proof {
                        assert(content@.take(j + 1).drop_last() =~= content@.take(j as int));
                        assert(content@.take(j + 1).last() == content@[j as int]);
                    }
                    j = j + 1;
                }
                proof {
                    assert(content@.take(m as int) =~= content@);
                }
            },
            None => {},
        }
        proof {
            assert(output@.take(i + 1).drop_last() =~= output@.take(i as int));
            assert(output@.take(i + 1).last() == output@[i as int]);
        }
        i = i + 1;
    }
    proof {
        assert(output@.take(n as int) =~= output@);
    }
    result
}

/// Whether some output item is a function call.
pub fn has_function_calls(output: &Vec<ResponseOutputItem>) -> (r: bool)
    ensures
        r == exists|i: int| 0 <= i < output@.len() && (#[trigger] output@[i]).type_@ == "function_call"@,
{
    let n = output.len();
    let mut i: usize = 0;
    while i < n
        invariant
            i <= n,
            n == output@.len(),
            forall|j: int| 0 <= j < i ==> (#[trigger] output@[j]).type_@ != "function_call"@,
        decreases n - i,
    {
        if str_equal(output[i].type_.as_str(), "function_call") {
            return true;
        }
        i = i + 1;
    }
    false
}

/// The text output of a response is built item by item and block by block:
/// no items give no text; a further item adds its text at the end; an item
/// without content adds nothing, one with content adds the text of its
/// blocks; no blocks give no text; a further block adds its text at the end
/// when it is an `output_text` block with text, and nothing otherwise.
pub proof fn law_output_text_concatenates(
    items: Seq<ResponseOutputItem>,
    it: ResponseOutputItem,
    bs: Seq<ResponseOutputContent>,
    b: ResponseOutputContent,
)
    ensures
        output_text_spec(seq![]) == Seq::<char>::empty(),
        output_text_spec(items.push(it)) == output_text_spec(items) + item_text(it),
        it.content is None ==> item_text(it) == Seq::<char>::empty(),
        it.content matches Some(c) ==> item_text(it) == blocks_text(c@),
        blocks_text(seq![]) == Seq::<char>::empty(),
        blocks_text(bs.push(b)) == blocks_text(bs) + (if b.type_@ == "output_text"@ && b.text is Some {
            b.text.unwrap()@
        } else {
            Seq::<char>::empty()
        }),
{
    assert(items.push(it).drop_last() =~= items);
    assert(bs.push(b).drop_last() =~= bs);
}

/// A function call taken from response output.
#[derive(Debug, Clone)]
pub struct FunctionCall {
    /// The call ID for matching with function_call_output.
    pub call_id: String,
    /// Function name.
    pub name: String,
    /// The arguments, read as JSON.
    pub arguments: JsonValue,
}

/// Whether an output item is a function call.
pub open spec fn is_function_call(i: ResponseOutputItem) -> bool {
    i.type_@ == "function_call"@
}

/// The call ID of a function call item: its `call_id`, else its `id`, else
/// `unknown`.
pub open spec fn call_id_text(i: ResponseOutputItem) -> Seq<char> {
    match i.call_id {
        Some(c) => c@,
        None => match i.id {
            Some(d) => d@,
            None => "unknown"@,
        },
    }
}

/// The function name of a call item (empty when absent).
pub open spec fn call_name_text(i: ResponseOutputItem) -> Seq<char> {
    match i.name {
        Some(n) => n@,
        None => seq![],
    }
}

/// A call's arguments: what reading its arguments text as JSON gave, or an
/// empty object when there is no text or it is not JSON.
pub open spec fn call_arguments(parsed: Option<JsonValue>) -> Json {
    match parsed {
        Some(v) => v@,
        None => Json::Object(seq![]),
    }
}

/// The function calls among output items, in order, each as its call ID,
/// name and arguments (`parsed[i]` is what reading item `i`'s arguments
/// text as JSON gave).
pub open spec fn function_calls_spec(items: Seq<ResponseOutputItem>, parsed: Seq<Option<JsonValue>>) -> Seq<
    (Seq<char>, Seq<char>, Json),
>
    decreases items.len(),
{
    if items.len() == 0 {
        seq![]
    } else {
        let n = items.len() - 1;
        let rest = function_calls_spec(items.drop_last(), parsed.take(n));
        if is_function_call(items.last()) {
            rest.push((call_id_text(items.last()), call_name_text(items.last()), call_arguments(parsed[n])))
        } else {
            rest
        }
    }
}

/// Function calls are taken from output items one by one: no items give
/// no calls; an item that is not a function call adds none; a function call
/// item adds one call at the end, whose call ID is the item's `call_id` when
/// it has one (whatever its `id`), else its `id`, else `unknown`; whose name
/// is the item's name, or empty; and whose arguments are what reading the
/// item's arguments gave, or an empty object.
pub proof fn law_function_calls_extend(
    items: Seq<ResponseOutputItem>,
    parsed: Seq<Option<JsonValue>>,
    it: ResponseOutputItem,
    p: Option<JsonValue>,
)
    requires
        parsed.len() == items.len(),
    ensures
        function_calls_spec(seq![], seq![]) == Seq::<(Seq<char>, Seq<char>, Json)>::empty(),
        it.type_@ != "function_call"@ ==> function_calls_spec(items.push(it), parsed.push(p))
            == function_calls_spec(items, parsed),
        it.type_@ == "function_call"@ ==> {
            let r = function_calls_spec(items.push(it), parsed.push(p));
            &&& r.len() == function_calls_spec(items, parsed).len() + 1
            &&& r.drop_last() == function_calls_spec(items, parsed)
            &&& (it.call_id matches Some(c) ==> r.last().0 == c@)
            &&& (it.call_id is None ==> (it.id matches Some(d) ==> r.last().0 == d@))
            &&& (it.call_id is None && it.id is None ==> r.last().0 == "unknown"@)
            &&& (it.name matches Some(n) ==> r.last().1 == n@)
            &&& (it.name is None ==> r.last().1 == Seq::<char>::empty())
            &&& (p matches Some(v) ==> r.last().2 == v@)
            &&& (p is None ==> r.last().2 == Json::Object(seq![]))
        },
{
    assert(items.push(it).drop_last() =~= items);
    assert(parsed.push(p).take(items.len() as int) =~= parsed);
    assert(parsed.push(p)[items.len() as int] == p);
}

/// The view of extracted function calls.
pub open spec fn calls_view(calls: Seq<FunctionCall>) -> Seq<(Seq<char>, Seq<char>, Json)> {
    calls.map_values(|c: FunctionCall| (c.call_id@, c.name@, c.arguments@))
}

/// The function calls of a response's output items, in order. Reading the
/// arguments text as JSON is left to the caller: `parsed_arguments[i]` is
/// what it gave for item `i` (`None` when the item has no arguments or they
/// are not JSON), and such calls get an empty object.
pub fn function_calls(output: &Vec<ResponseOutputItem>, parsed_arguments: &Vec<Option<JsonValue>>) -> (r:
    Vec<FunctionCall>)
    requires
        parsed_arguments@.len() == output@.len(),
    ensures
        calls_view(r@) == function_calls_spec(output@, parsed_arguments@),
{
    let mut calls: Vec<FunctionCall> = Vec::new();
    let n = output.len();
    let mut i: usize = 0;
    while i < n
        invariant
            i <= n,
            n == output@.len(),
            n == parsed_arguments@.len(),
            calls_view(calls@) == function_calls_spec(output@.take(i as int), parsed_arguments@.take(i as int)),
        decreases n - i,
    {
        let item = &output[i];
        proof {
            assert(output@.take(i + 1).drop_last() =~= output@.take(i as int));
            assert(output@.take(i + 1).last() == output@[i as int]);
            assert(parsed_arguments@.take(i + 1).take(i as int) =~= parsed_arguments@.take(i as int));
            assert(parsed_arguments@.take(i + 1)[i as int] == parsed_arguments@[i as int]);
        }
        if str_equal(item.type_.as_str(), "function_call") {
            let call_id = match &item.call_id {
                Some(c) => c.clone(),
                None => match &item.id {
                    Some(d) => d.clone(),
                    None => "unknown".to_string(),
                },
            };
            let name = match &item.name {
                Some(x) => x.clone(),
                None => String::new(),
            };
            let arguments = match &parsed_arguments[i] {
                Some(v) => clone_value(v),
                None => JsonValue::Object(JsonMap::new()),
            };
            let ghost before = calls@;
            calls.push(FunctionCall { call_id, name, arguments });
            proof {
                assert(calls_view(calls@) =~= calls_view(before).push(
                    (calls@.last().call_id@, calls@.last().name@, calls@.last().arguments@),
                ));
            }
        }
        i = i + 1;
    }
    proof {
        assert(output@.take(n as int) =~= output@);
        assert(parsed_arguments@.take(n as int) =~= parsed_arguments@);
    }
    calls
}

/// Input for the Responses API: text, messages, or raw items (for mixed
/// types such as messages and function call outputs).
#[derive(Debug, Clone)]
pub enum ResponseInput {
    Text(String),
    Messages(Vec<ResponseInputItem>),
    Items(Vec<JsonValue>),
}

impl From<String> for ResponseInput {
    fn from(s: String) -> (r: ResponseInput)
        ensures
            r == ResponseInput::Text(s),
    {
        ResponseInput::Text(s)
    }
}

impl vstd::std_specs::convert::FromSpecImpl<String> for ResponseInput {
    open spec fn obeys_from_spec() -> bool {
        true
    }

    open spec fn from_spec(s: String) -> ResponseInput {
        ResponseInput::Text(s)
    }
}

/// An input message for the Responses API.
#[derive(Debug, Clone)]
pub struct ResponseInputItem {
    pub role: Role,
    pub content: JsonValue,
}

/// Text output format for the Responses API.
#[derive(Debug, Clone)]
pub enum ResponseTextFormat {
    /// Plain text output.
    Text,
    /// JSON object output.
    JsonObject,
    /// JSON schema output with a structured schema.
    JsonSchema {
        name: String,
        description: Option<String>,
        schema: Option<JsonValue>,
        strict: Option<bool>,
    },
}

/// Text output configuration.
#[derive(Debug, Clone)]
pub struct ResponseTextConfig {
    /// Format configuration (text, json_object, or json_schema).
    pub format: Option<ResponseTextFormat>,
    /// Verbosity level for the response.
    pub verbosity: Option<String>,
}

/// Ranking options for file search in the Responses API.
#[derive(Debug, Clone, PartialEq, Eq)]
pub struct ResponseRankingOptions {
    /// Score threshold (0.0 to 1.0), as the bit pattern of its IEEE-754
    /// double.
    pub score_threshold: Option<u64>,
    /// Ranker to use: "auto" or "default-2024-11-15".
    pub ranker: Option<String>,
}

/// Tool types for the Responses API.
#[derive(Debug, Clone)]
pub enum ResponseTool {
    /// Function tool.
    Function {
        name: String,
        description: Option<String>,
        parameters: Option<JsonValue>,
        strict: Option<bool>,
    },
    /// Web search tool; the user location is kept as its JSON object.
    WebSearch { search_context_size: Option<String>, user_location: Option<JsonValue> },
    /// File search tool.
    FileSearch {
        vector_store_ids: Vec<String>,
        max_num_results: Option<i64>,
        ranking_options: Option<ResponseRankingOptions>,
    },
    /// Code interpreter tool.
    CodeInterpreter { container: Option<String> },
    /// Computer use tool.
    ComputerUse {},
    /// MCP tool; the approval setting ("never" or a filter object) is kept as
    /// its JSON value.
    Mcp {
        server_label: String,
        server_url: Option<String>,
        allowed_tools: Option<Vec<String>>,
        require_approval: Option<JsonValue>,
    },
    /// Image generation tool.
    ImageGeneration { model: Option<String>, quality: Option<String>, size: Option<String> },
}

/// Request body for `POST /responses`.
#[derive(Debug, Clone)]
pub struct ResponseCreateRequest {
    /// Model to use.
    pub model: String,
    /// Input text or messages.
    pub input: Option<ResponseInput>,
    /// System instructions.
    pub instructions: Option<String>,
    /// Tools available to the model.
    pub tools: Option<Vec<ResponseTool>>,
    /// How the model selects tools.
    pub tool_choice: Option<ResponseToolChoice>,
    /// Whether to enable parallel tool calls.
    pub parallel_tool_calls: Option<bool>,
    /// Previous response ID for multi-turn.
    pub previous_response_id: Option<String>,
    /// Temperature (0 to 2), as the bit pattern of its IEEE-754 double.
    pub temperature: Option<u64>,
    /// Nucleus sampling parameter, as the bit pattern of its IEEE-754 double.
    pub top_p: Option<u64>,
    /// Max output tokens.
    pub max_output_tokens: Option<i64>,
    /// Truncation strategy: "auto" or "disabled".
    pub truncation: Option<String>,
    /// Reasoning configuration for o-series models.
    pub reasoning: Option<Reasoning>,
    /// Store for evals/distillation.
    pub store: Option<bool>,
    /// Metadata key-value pairs.
    pub metadata: Option<HashMap<String, String>>,
    /// Additional data to include in the response.
    pub includes: Option<Vec<String>>,
    /// Whether to stream.
    pub stream: Option<bool>,
    /// Service tier.
    pub service_tier: Option<String>,
    /// End user identifier.
    pub user: Option<String>,
    /// Text output configuration.
    pub text: Option<ResponseTextConfig>,
    /// Prompt cache key: caches the system prompt prefix server-side.
    pub prompt_cache_key: Option<String>,
    /// Prompt cache retention: "in-memory" or "24h".
    pub prompt_cache_retention: Option<String>,
    /// Whether to run in background mode.
    pub background: Option<bool>,
}

/// Whether every option of a request is unset.
pub open spec fn request_options_unset(r: ResponseCreateRequest) -> bool {
    &&& r.input is None
    &&& r.instructions is None
    &&& r.tools is None
    &&& r.tool_choice is None
    &&& r.parallel_tool_calls is None
    &&& r.previous_response_id is None
    &&& r.temperature is None
    &&& r.top_p is None
    &&& r.max_output_tokens is None
    &&& r.truncation is None
    &&& r.reasoning is None
    &&& r.store is None
    &&& r.metadata is None
    &&& r.includes is None
    &&& r.stream is None
    &&& r.service_tier is None
    &&& r.user is None
    &&& r.text is None
    &&& r.prompt_cache_key is None
    &&& r.prompt_cache_retention is None
    &&& r.background is None
}

impl Default for ResponseCreateRequest {
    fn default() -> (r: Self)
        ensures
            r.model@ == Seq::<char>::empty(),
            request_options_unset(r),
    {
        proof {
            reveal_strlit("");
        }
        ResponseCreateRequest::new("")
    }
}

impl ResponseCreateRequest {
    /// A request for the model with every option unset.
    pub fn new(model: &str) -> (r: ResponseCreateRequest)
        ensures
            r.model@ == model@,
            request_options_unset(r),
    {
        ResponseCreateRequest {
            model: model.to_string(),
            input: None,
            instructions: None,
            tools: None,
            tool_choice: None,
            parallel_tool_calls: None,
            previous_response_id: None,
            temperature: None,
            top_p: None,
            max_output_tokens: None,
            truncation: None,
            reasoning: None,
            store: None,
            metadata: None,
            includes: None,
            stream: None,
            service_tier: None,
            user: None,
            text: None,
            prompt_cache_key: None,
            prompt_cache_retention: None,
            background: None,
        }
    }


    /// Sets the input text or messages.
    pub fn input(self, input: ResponseInput) -> (r: ResponseCreateRequest)
        ensures
            r == (ResponseCreateRequest { input: Some(input), ..self }),
    {
        ResponseCreateRequest { input: Some(input), ..self }
    }


    /// Sets the system instructions.
    pub fn instructions(self, instructions: &str) -> (r: ResponseCreateRequest)
        ensures
            r.instructions matches Some(v) && v@ == instructions@,
            r == (ResponseCreateRequest { instructions: r.instructions, ..self }),
    {
        ResponseCreateRequest { instructions: Some(instructions.to_string()), ..self }
    }


    /// Sets the tools.
    pub fn tools(self, tools: Vec<ResponseTool>) -> (r: ResponseCreateRequest)
        ensures
            r == (ResponseCreateRequest { tools: Some(tools), ..self }),
    {
        ResponseCreateRequest { tools: Some(tools), ..self }
    }


    /// Sets how the model selects tools.
    pub fn tool_choice(self, choice: ResponseToolChoice) -> (r: ResponseCreateRequest)
        ensures
            r == (ResponseCreateRequest { tool_choice: Some(choice), ..self }),
    {
        ResponseCreateRequest { tool_choice: Some(choice), ..self }
    }


    /// Sets the previous response ID for multi-turn.
    pub fn previous_response_id(self, id: &str) -> (r: ResponseCreateRequest)
        ensures
            r.previous_response_id matches Some(v) && v@ == id@,
            r == (ResponseCreateRequest { previous_response_id: r.previous_response_id, ..self }),
    {
        ResponseCreateRequest { previous_response_id: Some(id.to_string()), ..self }
    }


    /// Sets the temperature, given as the bit pattern of its IEEE-754 double.
    pub fn temperature(self, temperature_bits: u64) -> (r: ResponseCreateRequest)
        ensures
            r == (ResponseCreateRequest { temperature: Some(temperature_bits), ..self }),
    {
        ResponseCreateRequest { temperature: Some(temperature_bits), ..self }
    }


    /// Sets the max output tokens.
    pub fn max_output_tokens(self, max: i64) -> (r: ResponseCreateRequest)
        ensures
            r == (ResponseCreateRequest { max_output_tokens: Some(max), ..self }),
    {
        ResponseCreateRequest { max_output_tokens: Some(max), ..self }
    }


    /// Sets the reasoning configuration.
    pub fn reasoning(self, reasoning: Reasoning) -> (r: ResponseCreateRequest)
        ensures
            r == (ResponseCreateRequest { reasoning: Some(reasoning), ..self }),
    {
        ResponseCreateRequest { reasoning: Some(reasoning), ..self }
    }


    /// Sets the truncation strategy.
    pub fn truncation(self, truncation: &str) -> (r: ResponseCreateRequest)
        ensures
            r.truncation matches Some(v) && v@ == truncation@,
            r == (ResponseCreateRequest { truncation: r.truncation, ..self }),
    {
        ResponseCreateRequest { truncation: Some(truncation.to_string()), ..self }
    }


    /// Enables or disables storage for evals/distillation.
    pub fn store(self, store: bool) -> (r: ResponseCreateRequest)
        ensures
            r == (ResponseCreateRequest { store: Some(store), ..self }),
    {
        ResponseCreateRequest { store: Some(store), ..self }
    }


    /// Sets the model.
    pub fn model(self, model: &str) -> (r: ResponseCreateRequest)
        ensures
            r.model@ == model@,
            r == (ResponseCreateRequest { model: r.model, ..self }),
    {
        ResponseCreateRequest { model: model.to_string(), ..self }
    }


    /// Sets the text output configuration (format and verbosity).
    pub fn text(self, text: ResponseTextConfig) -> (r: ResponseCreateRequest)
        ensures
            r == (ResponseCreateRequest { text: Some(text), ..self }),
    {
        ResponseCreateRequest { text: Some(text), ..self }
    }


    /// Sets top_p (nucleus sampling), given as the bit pattern of its IEEE-754 double.
    pub fn top_p(self, top_p_bits: u64) -> (r: ResponseCreateRequest)
        ensures
            r == (ResponseCreateRequest { top_p: Some(top_p_bits), ..self }),
    {
        ResponseCreateRequest { top_p: Some(top_p_bits), ..self }
    }


    /// Enables or disables parallel tool calls.
    pub fn parallel_tool_calls(self, parallel: bool) -> (r: ResponseCreateRequest)
        ensures
            r == (ResponseCreateRequest { parallel_tool_calls: Some(parallel), ..self }),
    {
        ResponseCreateRequest { parallel_tool_calls: Some(parallel), ..self }
    }


    /// Sets the metadata key-value pairs.
    pub fn metadata(self, metadata: HashMap<String, String>) -> (r: ResponseCreateRequest)
        ensures
            r == (ResponseCreateRequest { metadata: Some(metadata), ..self }),
    {
        ResponseCreateRequest { metadata: Some(metadata), ..self }
    }


    /// Sets the fields of additional response data to include.
    pub fn includes(self, includes: Vec<String>) -> (r: ResponseCreateRequest)
        ensures
            r == (ResponseCreateRequest { includes: Some(includes), ..self }),
    {
        ResponseCreateRequest { includes: Some(includes), ..self }
    }


    /// Sets the service tier ("auto", "default", "flex", "scale", "priority").
    pub fn service_tier(self, tier: &str) -> (r: ResponseCreateRequest)
        ensures
            r.service_tier matches Some(v) && v@ == tier@,
            r == (ResponseCreateRequest { service_tier: r.service_tier, ..self }),
    {
        ResponseCreateRequest { service_tier: Some(tier.to_string()), ..self }
    }


    /// Sets the end user identifier.
    pub fn user(self, user: &str) -> (r: ResponseCreateRequest)
        ensures
            r.user matches Some(v) && v@ == user@,
            r == (ResponseCreateRequest { user: r.user, ..self }),
    {
        ResponseCreateRequest { user: Some(user.to_string()), ..self }
    }


    /// Sets the prompt cache key for server-side system prompt caching.
    pub fn prompt_cache_key(self, key: &str) -> (r: ResponseCreateRequest)
        ensures
            r.prompt_cache_key matches Some(v) && v@ == key@,
            r == (ResponseCreateRequest { prompt_cache_key: r.prompt_cache_key, ..self }),
    {
        ResponseCreateRequest { prompt_cache_key: Some(key.to_string()), ..self }
    }


    /// Sets the prompt cache retention: "in-memory" or "24h".
    pub fn prompt_cache_retention(self, retention: &str) -> (r: ResponseCreateRequest)
        ensures
            r.prompt_cache_retention matches Some(v) && v@ == retention@,
            r == (ResponseCreateRequest { prompt_cache_retention: r.prompt_cache_retention, ..self }),
    {
        ResponseCreateRequest { prompt_cache_retention: Some(retention.to_string()), ..self }
    }


    /// Runs the response in background mode.
    pub fn background(self, background: bool) -> (r: ResponseCreateRequest)
        ensures
            r == (ResponseCreateRequest { background: Some(background), ..self }),
    {
        ResponseCreateRequest { background: Some(background), ..self }
    }

}

/// Response from `POST /responses`.
#[derive(Debug, Clone)]
pub struct Response {
    pub id: String,
    pub object: String,
    /// Creation time (Unix seconds), as the bit pattern of its IEEE-754 double.
    pub created_at: u64,
    pub model: String,
    pub output: Vec<ResponseOutputItem>,
    pub status: Option<String>,
    pub error: Option<ResponseError>,
    pub incomplete_details: Option<IncompleteDetails>,
    pub instructions: Option<String>,
    pub metadata: Option<HashMap<String, String>>,
    /// Temperature, as the bit pattern of its IEEE-754 double.
    pub temperature: Option<u64>,
    /// Nucleus sampling parameter, as the bit pattern of its IEEE-754 double.
    pub top_p: Option<u64>,
    pub max_output_tokens: Option<i64>,
    pub previous_response_id: Option<String>,
    pub usage: Option<ResponseUsage>,
    pub tools: Option<Vec<ResponseTool>>,
    pub tool_choice: Option<ResponseToolChoice>,
    pub parallel_tool_calls: Option<bool>,
    pub truncation: Option<String>,
    pub reasoning: Option<Reasoning>,
    pub service_tier: Option<String>,
    pub text: Option<ResponseTextConfig>,
    /// Completion time (Unix seconds), as the bit pattern of its IEEE-754 double.
    pub completed_at: Option<u64>,
    pub background: Option<bool>,
    pub user: Option<String>,
    pub top_logprobs: Option<i64>,
    pub max_tool_calls: Option<i64>,
}

impl Response {
    /// The text output: all `output_text` content blocks, concatenated in
    /// order.
    pub fn output_text(&self) -> (r: String)
        ensures
            r@ == output_text_spec(self.output@),
    {
        output_text(&self.output)
    }

    /// Whether some output item is a function call.
    pub fn has_function_calls(&self) -> (r: bool)
        ensures
            r == exists|i: int|
                0 <= i < self.output@.len() && (#[trigger] self.output@[i]).type_@ == "function_call"@,
    {
        has_function_calls(&self.output)
    }
}

/// Emitted when the response is complete.
#[derive(Debug, Clone)]
pub struct ResponseCompletedEvent {
    pub sequence_number: i64,
    /// The completed response.
    pub response: Response,
}

/// Emitted when the response fails.
#[derive(Debug, Clone)]
pub struct ResponseFailedEvent {
    pub sequence_number: i64,
    /// The failed response.
    pub response: Response,
}

/// Emitted when the response is incomplete.
#[derive(Debug, Clone)]
pub struct ResponseIncompleteEvent {
    pub sequence_number: i64,
    /// The incomplete response.
    pub response: Response,
}

/// A typed output item in a response.
#[derive(Debug, Clone)]
pub enum OutputItem {
    /// Output message from the model.
    Message {
        id: Option<String>,
        role: Option<Role>,
        content: Option<Vec<ResponseOutputContent>>,
        status: Option<String>,
    },
    /// Function call from the model.
    FunctionCall(FunctionToolCall),
    /// Reasoning chain-of-thought.
    Reasoning(ReasoningItem),
    /// Web search call.
    WebSearchCall(JsonValue),
    /// File search call.
    FileSearchCall(JsonValue),
    /// Any other output item type.
    Other,
}

/// Emitted when a new output item is added.
#[derive(Debug, Clone)]
pub struct ResponseOutputItemAddedEvent {
    pub sequence_number: i64,
    pub output_index: i64,
    /// The output item.
    pub item: OutputItem,
}

/// Emitted when there is a text delta.
#[derive(Debug, Clone)]
pub struct ResponseTextDeltaEvent {
    pub sequence_number: i64,
    pub item_id: String,
    pub output_index: i64,
    pub content_index: i64,
    /// The text delta.
    pub delta: String,
    /// Log probabilities (if requested).
    pub logprobs: Option<JsonValue>,
}

/// A streaming event from the Responses API; unknown event types are kept
/// as their JSON value in `Other`.
#[derive(Debug, Clone)]
pub enum ResponseStreamEvent {
    ResponseCreated { response: Response },
    ResponseInProgress { response: Response },
    ResponseCompleted(ResponseCompletedEvent),
    ResponseFailed(ResponseFailedEvent),
    ResponseIncomplete(ResponseIncompleteEvent),
    ResponseOutputItemAdded(ResponseOutputItemAddedEvent),
    OutputItemDone { output_index: i64, item: ResponseOutputItem },
    ContentPartAdded { output_index: i64, content_index: i64, part: JsonValue },
    ContentPartDone { output_index: i64, content_index: i64, part: JsonValue },
    ResponseOutputTextDelta(ResponseTextDeltaEvent),
    OutputTextDone { output_index: i64, content_index: i64, text: String },
    ResponseFunctionCallArgumentsDelta(ResponseFunctionCallArgumentsDeltaEvent),
    ResponseFunctionCallArgumentsDone(ResponseFunctionCallArgumentsDoneEvent),
    ResponseReasoningTextDelta(ResponseReasoningTextDeltaEvent),
    ResponseReasoningSummaryTextDelta(ResponseReasoningSummaryTextDeltaEvent),
    ReasoningSummaryTextDone { output_index: i64, summary_index: Option<i64>, text: String },
    ResponseError(ResponseErrorEvent),
    Other(JsonValue),
}

/// The type text of an unknown event: the string under its `type` key, or
/// `unknown`.
pub open spec fn other_event_type(v: Json) -> Seq<char> {
    match v {
        Json::Object(o) => match obj_get(o, "type"@) {
            Some(Json::Str(t)) => t,
            _ => "unknown"@,
        },
        _ => "unknown"@,
    }
}

/// The event type text of a streaming event.
pub open spec fn stream_event_type(e: ResponseStreamEvent) -> Seq<char> {
    match e {

        ResponseStreamEvent::ResponseCreated { .. } => "response.created"@,
        ResponseStreamEvent::ResponseInProgress { .. } => "response.in_progress"@,
        ResponseStreamEvent::ResponseCompleted(..) => "response.completed"@,
        ResponseStreamEvent::ResponseFailed(..) => "response.failed"@,
        ResponseStreamEvent::ResponseIncomplete(..) => "response.incomplete"@,
        ResponseStreamEvent::ResponseOutputItemAdded(..) => "response.output_item.added"@,
        ResponseStreamEvent::OutputItemDone { .. } => "response.output_item.done"@,
        ResponseStreamEvent::ContentPartAdded { .. } => "response.content_part.added"@,
        ResponseStreamEvent::ContentPartDone { .. } => "response.content_part.done"@,
        ResponseStreamEvent::ResponseOutputTextDelta(..) => "response.output_text.delta"@,
        ResponseStreamEvent::OutputTextDone { .. } => "response.output_text.done"@,
        ResponseStreamEvent::ResponseFunctionCallArgumentsDelta(..) => "response.function_call_arguments.delta"@,
        ResponseStreamEvent::ResponseFunctionCallArgumentsDone(..) => "response.function_call_arguments.done"@,
        ResponseStreamEvent::ResponseReasoningTextDelta(..) => "response.reasoning_text.delta"@,
        ResponseStreamEvent::ResponseReasoningSummaryTextDelta(..) => "response.reasoning_summary_text.delta"@,
        ResponseStreamEvent::ReasoningSummaryTextDone { .. } => "response.reasoning_summary_text.done"@,
        ResponseStreamEvent::ResponseError(..) => "error"@,
        ResponseStreamEvent::Other(v) => other_event_type(v@),
    }
}

/// The value of the first entry of an object that carries `key`.
fn first_value_of<'a>(m: &'a JsonMap, key: &str) -> (r: Option<&'a JsonValue>)
    ensures
        r matches Some(v) ==> obj_get(m@, key@) == Some(v@),
        r is None ==> obj_get(m@, key@) is None,
{
    proof {
        lemma_entries_view(m.entries@);
        assert(m@.skip(0) =~= m@);
    }
    let n = m.entries.len();
    let mut i: usize = 0;
    while i < n
        invariant
            i <= n,
            n == m.entries@.len(),
            n == m@.len(),
            forall|j: int| 0 <= j < n ==> #[trigger] m@[j] == (m.entries@[j].0@, json_view(m.entries@[j].1)),
            obj_get(m@, key@) == obj_get(m@.skip(i as int), key@),
        decreases n - i,
    {
        assert(m@.skip(i as int)[0] == m@[i as int]);
        if str_equal(m.entries[i].0.as_str(), key) {
            return Some(&m.entries[i].1);
        }
        assert(m@.skip(i as int).drop_first() =~= m@.skip(i + 1));
        i = i + 1;
    }
    None
}

impl ResponseStreamEvent {
    /// The event type text: the wire name of the event, or for an unknown
    /// event the string under its `type` key (`unknown` when there is none).
    pub fn event_type(&self) -> (r: &str)
        ensures
            r@ == stream_event_type(*self),
    {
        match self {

            ResponseStreamEvent::ResponseCreated { .. } => "response.created",
            ResponseStreamEvent::ResponseInProgress { .. } => "response.in_progress",
            ResponseStreamEvent::ResponseCompleted(..) => "response.completed",
            ResponseStreamEvent::ResponseFailed(..) => "response.failed",
            ResponseStreamEvent::ResponseIncomplete(..) => "response.incomplete",
            ResponseStreamEvent::ResponseOutputItemAdded(..) => "response.output_item.added",
            ResponseStreamEvent::OutputItemDone { .. } => "response.output_item.done",
            ResponseStreamEvent::ContentPartAdded { .. } => "response.content_part.added",
            ResponseStreamEvent::ContentPartDone { .. } => "response.content_part.done",
            ResponseStreamEvent::ResponseOutputTextDelta(..) => "response.output_text.delta",
            ResponseStreamEvent::OutputTextDone { .. } => "response.output_text.done",
            ResponseStreamEvent::ResponseFunctionCallArgumentsDelta(..) => "response.function_call_arguments.delta",
            ResponseStreamEvent::ResponseFunctionCallArgumentsDone(..) => "response.function_call_arguments.done",
            ResponseStreamEvent::ResponseReasoningTextDelta(..) => "response.reasoning_text.delta",
            ResponseStreamEvent::ResponseReasoningSummaryTextDelta(..) => "response.reasoning_summary_text.delta",
            ResponseStreamEvent::ReasoningSummaryTextDone { .. } => "response.reasoning_summary_text.done",
            ResponseStreamEvent::ResponseError(..) => "error",
            ResponseStreamEvent::Other(v) => match v {
                JsonValue::Object(m) => match first_value_of(m, "type") {
                    Some(JsonValue::String(t)) => t.as_str(),
                    _ => "unknown",
                },
                _ => "unknown",
            },
        }
    }
}

} // verus!
