//! Shared types of the typed API schema: list pages, token usage and the
//! common string enums.

use vstd::prelude::*;

use crate::text::str_equal;

verus! {

/// A list response with cursor-based pagination (models, files, batches,
/// fine-tuning jobs, ...).
#[derive(Debug, Clone)]
pub struct ListResponse<T> {
    pub object: String,
    pub data: Vec<T>,
    pub has_more: Option<bool>,
    pub first_id: Option<String>,
    pub last_id: Option<String>,
}

/// Common usage object returned by many endpoints.
#[derive(Debug, Clone, Copy, PartialEq, Eq)]
pub struct Usage {
    pub prompt_tokens: i64,
    pub completion_tokens: i64,
    pub total_tokens: i64,
    pub prompt_tokens_details: Option<PromptTokensDetails>,
    pub completion_tokens_details: Option<CompletionTokensDetails>,
}

/// Details about prompt token usage.
#[derive(Debug, Clone, Copy, PartialEq, Eq)]
pub struct PromptTokensDetails {
    pub cached_tokens: Option<i64>,
    pub audio_tokens: Option<i64>,
}

/// Details about completion token usage.
#[derive(Debug, Clone, Copy, PartialEq, Eq)]
pub struct CompletionTokensDetails {
    pub reasoning_tokens: Option<i64>,
    pub audio_tokens: Option<i64>,
    pub accepted_prediction_tokens: Option<i64>,
    pub rejected_prediction_tokens: Option<i64>,
}

/// Sort order for list endpoints.
#[derive(Debug, Clone, Copy, PartialEq, Eq)]
pub enum SortOrder {
    Asc,
    Desc,
}

impl SortOrder {
    /// The wire name (the JSON string) of the value.
    pub open spec fn wire(&self) -> Seq<char> {
        match self {
            SortOrder::Asc => "asc"@,
            SortOrder::Desc => "desc"@,
        }
    }

    /// Whether a wire name is one this version knows.
    pub open spec fn is_known(s: Seq<char>) -> bool {
        s == "asc"@ || s == "desc"@
    }

    /// The wire name of the value.
    pub fn as_str(&self) -> (r: &str)
        ensures
            r@ == self.wire(),
    {
        match self {
            SortOrder::Asc => "asc",
            SortOrder::Desc => "desc",
        }
    }

    /// The value a wire name stands for, if it is one.
    pub fn from_wire(s: &str) -> (r: Option<SortOrder>)
        ensures
            r is Some <==> SortOrder::is_known(s@),
            r matches Some(v) ==> v.wire() == s@,
    {
        if str_equal(s, "asc") {
            Some(SortOrder::Asc)
        } else if str_equal(s, "desc") {
            Some(SortOrder::Desc)
        } else {
            None
        }
    }
}
/// Role in a conversation.
#[derive(Debug, Clone, Copy, PartialEq, Eq)]
pub enum Role {
    System,
    User,
    Assistant,
    Tool,
    Function,
    Developer,
}

impl Role {
    /// The wire name (the JSON string) of the value.
    pub open spec fn wire(&self) -> Seq<char> {
        match self {
            Role::System => "system"@,
            Role::User => "user"@,
            Role::Assistant => "assistant"@,
            Role::Tool => "tool"@,
            Role::Function => "function"@,
            Role::Developer => "developer"@,
        }
    }

    /// Whether a wire name is one this version knows.
    pub open spec fn is_known(s: Seq<char>) -> bool {
        s == "system"@ || s == "user"@ || s == "assistant"@ || s == "tool"@ || s == "function"@ || s == "developer"@
    }

    /// The wire name of the value.
    pub fn as_str(&self) -> (r: &str)
        ensures
            r@ == self.wire(),
    {
        match self {
            Role::System => "system",
            Role::User => "user",
            Role::Assistant => "assistant",
            Role::Tool => "tool",
            Role::Function => "function",
            Role::Developer => "developer",
        }
    }

    /// The value a wire name stands for, if it is one.
    pub fn from_wire(s: &str) -> (r: Option<Role>)
        ensures
            r is Some <==> Role::is_known(s@),
            r matches Some(v) ==> v.wire() == s@,
    {
        if str_equal(s, "system") {
            Some(Role::System)
        } else if str_equal(s, "user") {
            Some(Role::User)
        } else if str_equal(s, "assistant") {
            Some(Role::Assistant)
        } else if str_equal(s, "tool") {
            Some(Role::Tool)
        } else if str_equal(s, "function") {
            Some(Role::Function)
        } else if str_equal(s, "developer") {
            Some(Role::Developer)
        } else {
            None
        }
    }
}
/// Finish reason for completions.
#[derive(Debug, Clone, Copy, PartialEq, Eq)]
pub enum FinishReason {
    Stop,
    Length,
    ToolCalls,
    ContentFilter,
    FunctionCall,
}

impl FinishReason {
    /// The wire name (the JSON string) of the value.
    pub open spec fn wire(&self) -> Seq<char> {
        match self {
            FinishReason::Stop => "stop"@,
            FinishReason::Length => "length"@,
            FinishReason::ToolCalls => "tool_calls"@,
            FinishReason::ContentFilter => "content_filter"@,
            FinishReason::FunctionCall => "function_call"@,
        }
    }

    /// Whether a wire name is one this version knows.
    pub open spec fn is_known(s: Seq<char>) -> bool {
        s == "stop"@ || s == "length"@ || s == "tool_calls"@ || s == "content_filter"@ || s == "function_call"@
    }

    /// The wire name of the value.
    pub fn as_str(&self) -> (r: &str)
        ensures
            r@ == self.wire(),
    {
        match self {
            FinishReason::Stop => "stop",
            FinishReason::Length => "length",
            FinishReason::ToolCalls => "tool_calls",
            FinishReason::ContentFilter => "content_filter",
            FinishReason::FunctionCall => "function_call",
        }
    }

    /// The value a wire name stands for, if it is one.
    pub fn from_wire(s: &str) -> (r: Option<FinishReason>)
        ensures
            r is Some <==> FinishReason::is_known(s@),
            r matches Some(v) ==> v.wire() == s@,
    {
        if str_equal(s, "stop") {
            Some(FinishReason::Stop)
        } else if str_equal(s, "length") {
            Some(FinishReason::Length)
        } else if str_equal(s, "tool_calls") {
            Some(FinishReason::ToolCalls)
        } else if str_equal(s, "content_filter") {
            Some(FinishReason::ContentFilter)
        } else if str_equal(s, "function_call") {
            Some(FinishReason::FunctionCall)
        } else {
            None
        }
    }
}
/// Service tier for requests.
#[derive(Debug, Clone, Copy, PartialEq, Eq)]
pub enum ServiceTier {
    Auto,
    Default,
    Flex,
    Scale,
}

impl ServiceTier {
    /// The wire name (the JSON string) of the value.
    pub open spec fn wire(&self) -> Seq<char> {
        match self {
            ServiceTier::Auto => "auto"@,
            ServiceTier::Default => "default"@,
            ServiceTier::Flex => "flex"@,
            ServiceTier::Scale => "scale"@,
        }
    }

    /// Whether a wire name is one this version knows.
    pub open spec fn is_known(s: Seq<char>) -> bool {
        s == "auto"@ || s == "default"@ || s == "flex"@ || s == "scale"@
    }

    /// The wire name of the value.
    pub fn as_str(&self) -> (r: &str)
        ensures
            r@ == self.wire(),
    {
        match self {
            ServiceTier::Auto => "auto",
            ServiceTier::Default => "default",
            ServiceTier::Flex => "flex",
            ServiceTier::Scale => "scale",
        }
    }

    /// The value a wire name stands for, if it is one.
    pub fn from_wire(s: &str) -> (r: Option<ServiceTier>)
        ensures
            r is Some <==> ServiceTier::is_known(s@),
            r matches Some(v) ==> v.wire() == s@,
    {
        if str_equal(s, "auto") {
            Some(ServiceTier::Auto)
        } else if str_equal(s, "default") {
            Some(ServiceTier::Default)
        } else if str_equal(s, "flex") {
            Some(ServiceTier::Flex)
        } else if str_equal(s, "scale") {
            Some(ServiceTier::Scale)
        } else {
            None
        }
    }
}
/// Search context size for web search.
#[derive(Debug, Clone, Copy, PartialEq, Eq)]
pub enum SearchContextSize {
    Low,
    Medium,
    High,
}

impl SearchContextSize {
    /// The wire name (the JSON string) of the value.
    pub open spec fn wire(&self) -> Seq<char> {
        match self {
            SearchContextSize::Low => "low"@,
            SearchContextSize::Medium => "medium"@,
            SearchContextSize::High => "high"@,
        }
    }

    /// Whether a wire name is one this version knows.
    pub open spec fn is_known(s: Seq<char>) -> bool {
        s == "low"@ || s == "medium"@ || s == "high"@
    }

    /// The wire name of the value.
    pub fn as_str(&self) -> (r: &str)
        ensures
            r@ == self.wire(),
    {
        match self {
            SearchContextSize::Low => "low",
            SearchContextSize::Medium => "medium",
            SearchContextSize::High => "high",
        }
    }

    /// The value a wire name stands for, if it is one.
    pub fn from_wire(s: &str) -> (r: Option<SearchContextSize>)
        ensures
            r is Some <==> SearchContextSize::is_known(s@),
            r matches Some(v) ==> v.wire() == s@,
    {
        if str_equal(s, "low") {
            Some(SearchContextSize::Low)
        } else if str_equal(s, "medium") {
            Some(SearchContextSize::Medium)
        } else if str_equal(s, "high") {
            Some(SearchContextSize::High)
        } else {
            None
        }
    }
}
} // verus!
