//! Types shared across endpoints: roles, token usage, finish reasons and
//! other small enums.
//!
//! Each string enum maps to and from its wire name (the JSON string the API
//! uses); a name this version does not know is kept in `Other`, so newer
//! API values pass through unchanged.

use vstd::prelude::*;

use crate::json::{Json, JsonNumber, JsonValue};
use crate::text::str_equal;

verus! {

/// Message role in chat/thread conversations.
#[derive(Debug, PartialEq, Eq)]
pub enum Role {
    System,
    Developer,
    User,
    Assistant,
    Tool,
    Function,
    /// A value this version does not know (kept as sent).
    Other(String),
}

impl Clone for Role {
    fn clone(&self) -> (r: Self)
        ensures
            r == *self,
    {
        match self {
            Role::System => Role::System,
            Role::Developer => Role::Developer,
            Role::User => Role::User,
            Role::Assistant => Role::Assistant,
            Role::Tool => Role::Tool,
            Role::Function => Role::Function,
            Role::Other(s) => Role::Other(s.clone()),
        }
    }
}

impl Role {
    /// The wire name (the JSON string) of the value.
    pub open spec fn wire(&self) -> Seq<char> {
        match self {
            Role::System => "system"@,
            Role::Developer => "developer"@,
            Role::User => "user"@,
            Role::Assistant => "assistant"@,
            Role::Tool => "tool"@,
            Role::Function => "function"@,
            Role::Other(s) => s@,
        }
    }

    /// Whether a wire name is one this version knows.
    pub open spec fn is_known(s: Seq<char>) -> bool {
        s == "system"@ || s == "developer"@ || s == "user"@ || s == "assistant"@ || s == "tool"@ || s == "function"@
    }

    /// The wire name of the value.
    pub fn as_str(&self) -> (r: &str)
        ensures
            r@ == self.wire(),
    {
        match self {
            Role::System => "system",
            Role::Developer => "developer",
            Role::User => "user",
            Role::Assistant => "assistant",
            Role::Tool => "tool",
            Role::Function => "function",
            Role::Other(s) => s.as_str(),
        }
    }

    /// The value a wire name stands for; an unknown name is kept in
    /// `Other`.
    pub fn from_wire(s: &str) -> (r: Role)
        ensures
            r.wire() == s@,
            r is Other <==> !Role::is_known(s@),
    {
        if str_equal(s, "system") {
            Role::System
        } else if str_equal(s, "developer") {
            Role::Developer
        } else if str_equal(s, "user") {
            Role::User
        } else if str_equal(s, "assistant") {
            Role::Assistant
        } else if str_equal(s, "tool") {
            Role::Tool
        } else if str_equal(s, "function") {
            Role::Function
        } else {
            Role::Other(s.to_string())
        }
    }
}
/// Token usage information returned by the API.
#[derive(Debug, Clone)]
pub struct Usage {
    pub prompt_tokens: Option<i64>,
    pub completion_tokens: Option<i64>,
    pub total_tokens: Option<i64>,
    /// Detailed breakdown of prompt tokens.
    pub prompt_tokens_details: Option<PromptTokensDetails>,
    /// Detailed breakdown of completion tokens.
    pub completion_tokens_details: Option<CompletionTokensDetails>,
}

/// Detailed breakdown of prompt token usage.
#[derive(Debug, Clone, Copy, PartialEq, Eq)]
pub struct PromptTokensDetails {
    pub cached_tokens: Option<i64>,
    pub audio_tokens: Option<i64>,
}

/// Reason the model stopped generating tokens.
#[derive(Debug, PartialEq, Eq)]
pub enum FinishReason {
    Stop,
    Length,
    ToolCalls,
    ContentFilter,
    FunctionCall,
    /// A value this version does not know (kept as sent).
    Other(String),
}

impl Clone for FinishReason {
    fn clone(&self) -> (r: Self)
        ensures
            r == *self,
    {
        match self {
            FinishReason::Stop => FinishReason::Stop,
            FinishReason::Length => FinishReason::Length,
            FinishReason::ToolCalls => FinishReason::ToolCalls,
            FinishReason::ContentFilter => FinishReason::ContentFilter,
            FinishReason::FunctionCall => FinishReason::FunctionCall,
            FinishReason::Other(s) => FinishReason::Other(s.clone()),
        }
    }
}

impl FinishReason {
    /// The wire name (the JSON string) of the value.
    pub open spec fn wire(&self) -> Seq<char> {
        match self {
            FinishReason::Stop => "stop"@,
            FinishReason::Length => "length"@,
            FinishReason::ToolCalls => "tool_calls"@,
            FinishReason::ContentFilter => "content_filter"@,
            FinishReason::FunctionCall => "function_call"@,
            FinishReason::Other(s) => s@,
        }
    }

    /// Whether a wire name is one this version knows.
    pub open spec fn is_known(s: Seq<char>) -> bool {
        s == "stop"@ || s == "length"@ || s == "tool_calls"@ || s == "content_filter"@ || s == "function_call"@
    }

    /// The wire name of the value.
    pub fn as_str(&self) -> (r: &str)
        ensures
            r@ == self.wire(),
    {
        match self {
            FinishReason::Stop => "stop",
            FinishReason::Length => "length",
            FinishReason::ToolCalls => "tool_calls",
            FinishReason::ContentFilter => "content_filter",
            FinishReason::FunctionCall => "function_call",
            FinishReason::Other(s) => s.as_str(),
        }
    }

    /// The value a wire name stands for; an unknown name is kept in
    /// `Other`.
    pub fn from_wire(s: &str) -> (r: FinishReason)
        ensures
            r.wire() == s@,
            r is Other <==> !FinishReason::is_known(s@),
    {
        if str_equal(s, "stop") {
            FinishReason::Stop
        } else if str_equal(s, "length") {
            FinishReason::Length
        } else if str_equal(s, "tool_calls") {
            FinishReason::ToolCalls
        } else if str_equal(s, "content_filter") {
            FinishReason::ContentFilter
        } else if str_equal(s, "function_call") {
            FinishReason::FunctionCall
        } else {
            FinishReason::Other(s.to_string())
        }
    }
}
impl FinishReason {
    /// The reason as text: its wire name.
    pub fn to_string(&self) -> (r: String)
        ensures
            r@ == self.wire(),
    {
        self.as_str().to_string()
    }
}

/// Service tier used for the request.
#[derive(Debug, PartialEq, Eq)]
pub enum ServiceTier {
    Auto,
    Default,
    Flex,
    Scale,
    Priority,
    /// A value this version does not know (kept as sent).
    Other(String),
}

impl Clone for ServiceTier {
    fn clone(&self) -> (r: Self)
        ensures
            r == *self,
    {
        match self {
            ServiceTier::Auto => ServiceTier::Auto,
            ServiceTier::Default => ServiceTier::Default,
            ServiceTier::Flex => ServiceTier::Flex,
            ServiceTier::Scale => ServiceTier::Scale,
            ServiceTier::Priority => ServiceTier::Priority,
            ServiceTier::Other(s) => ServiceTier::Other(s.clone()),
        }
    }
}

impl ServiceTier {
    /// The wire name (the JSON string) of the value.
    pub open spec fn wire(&self) -> Seq<char> {
        match self {
            ServiceTier::Auto => "auto"@,
            ServiceTier::Default => "default"@,
            ServiceTier::Flex => "flex"@,
            ServiceTier::Scale => "scale"@,
            ServiceTier::Priority => "priority"@,
            ServiceTier::Other(s) => s@,
        }
    }

    /// Whether a wire name is one this version knows.
    pub open spec fn is_known(s: Seq<char>) -> bool {
        s == "auto"@ || s == "default"@ || s == "flex"@ || s == "scale"@ || s == "priority"@
    }

    /// The wire name of the value.
    pub fn as_str(&self) -> (r: &str)
        ensures
            r@ == self.wire(),
    {
        match self {
            ServiceTier::Auto => "auto",
            ServiceTier::Default => "default",
            ServiceTier::Flex => "flex",
            ServiceTier::Scale => "scale",
            ServiceTier::Priority => "priority",
            ServiceTier::Other(s) => s.as_str(),
        }
    }

    /// The value a wire name stands for; an unknown name is kept in
    /// `Other`.
    pub fn from_wire(s: &str) -> (r: ServiceTier)
        ensures
            r.wire() == s@,
            r is Other <==> !ServiceTier::is_known(s@),
    {
        if str_equal(s, "auto") {
            ServiceTier::Auto
        } else if str_equal(s, "default") {
            ServiceTier::Default
        } else if str_equal(s, "flex") {
            ServiceTier::Flex
        } else if str_equal(s, "scale") {
            ServiceTier::Scale
        } else if str_equal(s, "priority") {
            ServiceTier::Priority
        } else {
            ServiceTier::Other(s.to_string())
        }
    }
}
/// Reasoning effort level for o-series models.
#[derive(Debug, PartialEq, Eq)]
pub enum ReasoningEffort {
    Low,
    Medium,
    High,
    /// A value this version does not know (kept as sent).
    Other(String),
}

impl Clone for ReasoningEffort {
    fn clone(&self) -> (r: Self)
        ensures
            r == *self,
    {
        match self {
            ReasoningEffort::Low => ReasoningEffort::Low,
            ReasoningEffort::Medium => ReasoningEffort::Medium,
            ReasoningEffort::High => ReasoningEffort::High,
            ReasoningEffort::Other(s) => ReasoningEffort::Other(s.clone()),
        }
    }
}

impl ReasoningEffort {
    /// The wire name (the JSON string) of the value.
    pub open spec fn wire(&self) -> Seq<char> {
        match self {
            ReasoningEffort::Low => "low"@,
            ReasoningEffort::Medium => "medium"@,
            ReasoningEffort::High => "high"@,
            ReasoningEffort::Other(s) => s@,
        }
    }

    /// Whether a wire name is one this version knows.
    pub open spec fn is_known(s: Seq<char>) -> bool {
        s == "low"@ || s == "medium"@ || s == "high"@
    }

    /// The wire name of the value.
    pub fn as_str(&self) -> (r: &str)
        ensures
            r@ == self.wire(),
    {
        match self {
            ReasoningEffort::Low => "low",
            ReasoningEffort::Medium => "medium",
            ReasoningEffort::High => "high",
            ReasoningEffort::Other(s) => s.as_str(),
        }
    }

    /// The value a wire name stands for; an unknown name is kept in
    /// `Other`.
    pub fn from_wire(s: &str) -> (r: ReasoningEffort)
        ensures
            r.wire() == s@,
            r is Other <==> !ReasoningEffort::is_known(s@),
    {
        if str_equal(s, "low") {
            ReasoningEffort::Low
        } else if str_equal(s, "medium") {
            ReasoningEffort::Medium
        } else if str_equal(s, "high") {
            ReasoningEffort::High
        } else {
            ReasoningEffort::Other(s.to_string())
        }
    }
}
/// Search context size for web search.
#[derive(Debug, PartialEq, Eq)]
pub enum SearchContextSize {
    Low,
    Medium,
    High,
    /// A value this version does not know (kept as sent).
    Other(String),
}

impl Clone for SearchContextSize {
    fn clone(&self) -> (r: Self)
        ensures
            r == *self,
    {
        match self {
            SearchContextSize::Low => SearchContextSize::Low,
            SearchContextSize::Medium => SearchContextSize::Medium,
            SearchContextSize::High => SearchContextSize::High,
            SearchContextSize::Other(s) => SearchContextSize::Other(s.clone()),
        }
    }
}

impl SearchContextSize {
    /// The wire name (the JSON string) of the value.
    pub open spec fn wire(&self) -> Seq<char> {
        match self {
            SearchContextSize::Low => "low"@,
            SearchContextSize::Medium => "medium"@,
            SearchContextSize::High => "high"@,
            SearchContextSize::Other(s) => s@,
        }
    }

    /// Whether a wire name is one this version knows.
    pub open spec fn is_known(s: Seq<char>) -> bool {
        s == "low"@ || s == "medium"@ || s == "high"@
    }

    /// The wire name of the value.
    pub fn as_str(&self) -> (r: &str)
        ensures
            r@ == self.wire(),
    {
        match self {
            SearchContextSize::Low => "low",
            SearchContextSize::Medium => "medium",
            SearchContextSize::High => "high",
            SearchContextSize::Other(s) => s.as_str(),
        }
    }

    /// The value a wire name stands for; an unknown name is kept in
    /// `Other`.
    pub fn from_wire(s: &str) -> (r: SearchContextSize)
        ensures
            r.wire() == s@,
            r is Other <==> !SearchContextSize::is_known(s@),
    {
        if str_equal(s, "low") {
            SearchContextSize::Low
        } else if str_equal(s, "medium") {
            SearchContextSize::Medium
        } else if str_equal(s, "high") {
            SearchContextSize::High
        } else {
            SearchContextSize::Other(s.to_string())
        }
    }
}
/// A value that is either "auto" or a fixed number (hyperparameters such as
/// `n_epochs`, `batch_size`, `learning_rate_multiplier`). On the wire it is
/// the string `"auto"` or the bare value.
#[derive(Debug, Clone, PartialEq)]
pub enum AutoOrFixed<T> {
    Auto,
    Fixed(T),
}

impl<T> AutoOrFixed<T> {
    /// The JSON form: the string `"auto"`, or what `fixed` makes of the
    /// value.
    pub fn to_json_with<F: Fn(&T) -> JsonValue>(&self, fixed: F) -> (r: JsonValue)
        requires
            forall|t: &T| fixed.requires((t,)),
        ensures
            self is Auto ==> r@ == Json::Str("auto"@),
            self matches AutoOrFixed::Fixed(t) ==> fixed.ensures((&t,), r),
    {
        match self {
            AutoOrFixed::Auto => JsonValue::String("auto".to_string()),
            AutoOrFixed::Fixed(t) => fixed(t),
        }
    }

    /// Reads the value from JSON: the string `"auto"` is `Auto`; anything
    /// else is decoded by `fixed`, whose error comes back unchanged.
    pub fn from_json_with<F: Fn(&JsonValue) -> Result<T, String>>(v: &JsonValue, fixed: F) -> (r:
        Result<AutoOrFixed<T>, String>)
        requires
            forall|x: &JsonValue| fixed.requires((x,)),
        ensures
            v@ == Json::Str("auto"@) ==> r matches Ok(AutoOrFixed::Auto),
            v@ != Json::Str("auto"@) ==> exists|o: Result<T, String>|
                fixed.ensures((v,), o) && match o {
                    Ok(t) => r matches Ok(AutoOrFixed::Fixed(u)) && u == t,
                    Err(e) => r matches Err(f) && f == e,
                },
    {
        let is_auto = match v {
            JsonValue::String(s) => str_equal(s.as_str(), "auto"),
            _ => false,
        };
        if is_auto {
            Ok(AutoOrFixed::Auto)
        } else {
            match fixed(v) {
                Ok(t) => Ok(AutoOrFixed::Fixed(t)),
                Err(e) => Err(e),
            }
        }
    }
}

/// A token limit that is either "inf" (unlimited) or a fixed integer
/// (`max_response_output_tokens` in the Realtime API). On the wire it is the
/// string `"inf"` or an integer.
#[derive(Debug, Clone, Copy, PartialEq, Eq)]
pub enum MaxResponseTokens {
    Inf,
    Fixed(i64),
}

/// The JSON form of an integer, as `serde_json` builds it: non-negative
/// values as unsigned, negative ones as signed.
pub open spec fn int_json(v: i64) -> Json {
    if v >= 0 {
        Json::Number(JsonNumber::PosInt(v as u64))
    } else {
        Json::Number(JsonNumber::NegInt(v))
    }
}

/// The JSON form of a token limit.
pub open spec fn max_tokens_json(m: MaxResponseTokens) -> Json {
    match m {
        MaxResponseTokens::Inf => Json::Str("inf"@),
        MaxResponseTokens::Fixed(v) => int_json(v),
    }
}

/// A JSON number as a signed 64-bit integer, when it is one.
pub open spec fn number_as_i64(n: JsonNumber) -> Option<i64> {
    match n {
        JsonNumber::PosInt(u) => if u <= i64::MAX {
            Some(u as i64)
        } else {
            None
        },
        JsonNumber::NegInt(i) => Some(i),
        JsonNumber::FloatBits(_) => None,
    }
}

/// What reading a token limit from JSON gives: `"inf"`, or an integer that
/// fits in 64 bits; any other number is refused with `expected integer`, and
/// anything else with `expected "inf" or integer`.
pub open spec fn max_tokens_from_json(j: Json) -> Result<MaxResponseTokens, Seq<char>> {
    match j {
        Json::Str(s) => if s == "inf"@ {
            Ok(MaxResponseTokens::Inf)
        } else {
            Err("expected \"inf\" or integer"@)
        },
        Json::Number(n) => match number_as_i64(n) {
            Some(v) => Ok(MaxResponseTokens::Fixed(v)),
            None => Err("expected integer"@),
        },
        _ => Err("expected \"inf\" or integer"@),
    }
}

impl MaxResponseTokens {
    /// The JSON form: the string `"inf"` or the integer.
    pub fn to_json(&self) -> (r: JsonValue)
        ensures
            r@ == max_tokens_json(*self),
    {
        match self {
            MaxResponseTokens::Inf => JsonValue::String("inf".to_string()),
            MaxResponseTokens::Fixed(v) => {
                if *v >= 0 {
                    JsonValue::Number(JsonNumber::PosInt(*v as u64))
                } else {
                    JsonValue::Number(JsonNumber::NegInt(*v))
                }
            },
        }
    }

    /// Reads a token limit from JSON: `"inf"` or an integer.
    pub fn from_json(v: &JsonValue) -> (r: Result<MaxResponseTokens, String>)
        ensures
            match r {
                Ok(m) => max_tokens_from_json(v@) == Ok::<MaxResponseTokens, Seq<char>>(m),
                Err(e) => max_tokens_from_json(v@) == Err::<MaxResponseTokens, Seq<char>>(e@),
            },
    {
        match v {
            JsonValue::String(s) => {
                if str_equal(s.as_str(), "inf") {
                    Ok(MaxResponseTokens::Inf)
                } else {
                    Err("expected \"inf\" or integer".to_string())
                }
            },
            JsonValue::Number(n) => match n {
                JsonNumber::PosInt(u) => {
                    if *u <= 9223372036854775807u64 {
                        Ok(MaxResponseTokens::Fixed(*u as i64))
                    } else {
                        Err("expected integer".to_string())
                    }
                },
                JsonNumber::NegInt(i) => Ok(MaxResponseTokens::Fixed(*i)),
                JsonNumber::FloatBits(_) => Err("expected integer".to_string()),
            },
            _ => Err("expected \"inf\" or integer".to_string()),
        }
    }
}

/// Reading back the JSON form of a token limit gives the same limit.
pub proof fn law_max_tokens_json_roundtrip(m: MaxResponseTokens)
    ensures
        max_tokens_from_json(max_tokens_json(m)) == Ok::<MaxResponseTokens, Seq<char>>(m),
{
    match m {
        MaxResponseTokens::Fixed(v) => {
            if v >= 0 {
                assert((v as u64) as i64 == v);
            }
        },
        _ => {},
    }
}

/// Sort order for paginated list endpoints.
#[derive(Debug, PartialEq, Eq)]
pub enum SortOrder {
    Asc,
    Desc,
    /// A value this version does not know (kept as sent).
    Other(String),
}

impl Clone for SortOrder {
    fn clone(&self) -> (r: Self)
        ensures
            r == *self,
    {
        match self {
            SortOrder::Asc => SortOrder::Asc,
            SortOrder::Desc => SortOrder::Desc,
            SortOrder::Other(s) => SortOrder::Other(s.clone()),
        }
    }
}

impl SortOrder {
    /// The wire name (the JSON string) of the value.
    pub open spec fn wire(&self) -> Seq<char> {
        match self {
            SortOrder::Asc => "asc"@,
            SortOrder::Desc => "desc"@,
            SortOrder::Other(s) => s@,
        }
    }

    /// Whether a wire name is one this version knows.
    pub open spec fn is_known(s: Seq<char>) -> bool {
        s == "asc"@ || s == "desc"@
    }

    /// The wire name of the value.
    pub fn as_str(&self) -> (r: &str)
        ensures
            r@ == self.wire(),
    {
        match self {
            SortOrder::Asc => "asc",
            SortOrder::Desc => "desc",
            SortOrder::Other(s) => s.as_str(),
        }
    }

    /// The value a wire name stands for; an unknown name is kept in
    /// `Other`.
    pub fn from_wire(s: &str) -> (r: SortOrder)
        ensures
            r.wire() == s@,
            r is Other <==> !SortOrder::is_known(s@),
    {
        if str_equal(s, "asc") {
            SortOrder::Asc
        } else if str_equal(s, "desc") {
            SortOrder::Desc
        } else {
            SortOrder::Other(s.to_string())
        }
    }
}
/// Detailed breakdown of completion token usage.
#[derive(Debug, Clone, Copy, PartialEq, Eq)]
pub struct CompletionTokensDetails {
    pub reasoning_tokens: Option<i64>,
    pub audio_tokens: Option<i64>,
    pub accepted_prediction_tokens: Option<i64>,
    pub rejected_prediction_tokens: Option<i64>,
}

/// The known roles have distinct wire names, so the role read back from a
/// known role's wire name (as `Role::from_wire` gives it: same wire name,
/// `Other` only for unknown names) is that role.
pub proof fn law_role_wire_roundtrip(e: Role, r: Role)
    requires
        !(e is Other),
        r.wire() == e.wire(),
        r is Other <==> !Role::is_known(e.wire()),
    ensures
        r == e,
{
    reveal_strlit("system");
    reveal_strlit("developer");
    reveal_strlit("user");
    reveal_strlit("assistant");
    reveal_strlit("tool");
    reveal_strlit("function");
    assert("system"@[0] == 's' && "developer"@[0] == 'd' && "user"@[0] == 'u');
    assert("assistant"@[0] == 'a' && "tool"@[0] == 't' && "function"@[0] == 'f');
}

} // verus!
