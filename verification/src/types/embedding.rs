//! Embedding request and response types.

use vstd::prelude::*;

use crate::text::str_equal;

verus! {

/// Encoding format for embedding output.
#[derive(Debug, PartialEq, Eq)]
pub enum EncodingFormat {
    Float,
    Base64,
    /// A value this version does not know (kept as sent).
    Other(String),
}

impl Clone for EncodingFormat {
    fn clone(&self) -> (r: Self)
        ensures
            r == *self,
    {
        match self {
            EncodingFormat::Float => EncodingFormat::Float,
            EncodingFormat::Base64 => EncodingFormat::Base64,
            EncodingFormat::Other(s) => EncodingFormat::Other(s.clone()),
        }
    }
}

impl EncodingFormat {
    /// The wire name (the JSON string) of the value.
    pub open spec fn wire(&self) -> Seq<char> {
        match self {
            EncodingFormat::Float => "float"@,
            EncodingFormat::Base64 => "base64"@,
            EncodingFormat::Other(s) => s@,
        }
    }

    /// Whether a wire name is one this version knows.
    pub open spec fn is_known(s: Seq<char>) -> bool {
        s == "float"@ || s == "base64"@
    }

    /// The wire name of the value.
    pub fn as_str(&self) -> (r: &str)
        ensures
            r@ == self.wire(),
    {
        match self {
            EncodingFormat::Float => "float",
            EncodingFormat::Base64 => "base64",
            EncodingFormat::Other(s) => s.as_str(),
        }
    }

    /// The value a wire name stands for; an unknown name is kept in
    /// `Other`.
    pub fn from_wire(s: &str) -> (r: EncodingFormat)
        ensures
            r.wire() == s@,
            r is Other <==> !EncodingFormat::is_known(s@),
    {
        if str_equal(s, "float") {
            EncodingFormat::Float
        } else if str_equal(s, "base64") {
            EncodingFormat::Base64
        } else {
            EncodingFormat::Other(s.to_string())
        }
    }
}
/// Input for embeddings: a single string, an array of strings, or an array
/// of token arrays.
#[derive(Debug, Clone, PartialEq, Eq)]
pub enum EmbeddingInput {
    String(String),
    StringArray(Vec<String>),
    Tokens(Vec<Vec<i64>>),
}

impl From<String> for EmbeddingInput {
    fn from(s: String) -> (r: EmbeddingInput)
        ensures
            r == EmbeddingInput::String(s),
    {
        EmbeddingInput::String(s)
    }
}

impl vstd::std_specs::convert::FromSpecImpl<String> for EmbeddingInput {
    open spec fn obeys_from_spec() -> bool {
        true
    }

    open spec fn from_spec(s: String) -> EmbeddingInput {
        EmbeddingInput::String(s)
    }
}

impl From<Vec<String>> for EmbeddingInput {
    fn from(v: Vec<String>) -> (r: EmbeddingInput)
        ensures
            r == EmbeddingInput::StringArray(v),
    {
        EmbeddingInput::StringArray(v)
    }
}

impl vstd::std_specs::convert::FromSpecImpl<Vec<String>> for EmbeddingInput {
    open spec fn obeys_from_spec() -> bool {
        true
    }

    open spec fn from_spec(v: Vec<String>) -> EmbeddingInput {
        EmbeddingInput::StringArray(v)
    }
}

impl From<Vec<Vec<i64>>> for EmbeddingInput {
    fn from(v: Vec<Vec<i64>>) -> (r: EmbeddingInput)
        ensures
            r == EmbeddingInput::Tokens(v),
    {
        EmbeddingInput::Tokens(v)
    }
}

impl vstd::std_specs::convert::FromSpecImpl<Vec<Vec<i64>>> for EmbeddingInput {
    open spec fn obeys_from_spec() -> bool {
        true
    }

    open spec fn from_spec(v: Vec<Vec<i64>>) -> EmbeddingInput {
        EmbeddingInput::Tokens(v)
    }
}

/// Request body for `POST /embeddings`.
#[derive(Debug, Clone)]
pub struct EmbeddingCreateRequest {
    /// Input text to embed.
    pub input: EmbeddingInput,
    /// Embedding model (e.g. "text-embedding-3-small").
    pub model: String,
    /// Encoding format for the embedding vectors.
    pub encoding_format: Option<EncodingFormat>,
    /// Number of dimensions to return (for supported models).
    pub dimensions: Option<i64>,
    /// A unique identifier representing your end-user.
    pub user: Option<String>,
}

impl EmbeddingCreateRequest {
    /// A request for the input with the model, other fields unset.
    pub fn new(input: EmbeddingInput, model: &str) -> (r: EmbeddingCreateRequest)
        ensures
            r.input == input,
            r.model@ == model@,
            r.encoding_format is None,
            r.dimensions is None,
            r.user is None,
    {
        EmbeddingCreateRequest {
            input,
            model: model.to_string(),
            encoding_format: None,
            dimensions: None,
            user: None,
        }
    }
}

} // verus!
