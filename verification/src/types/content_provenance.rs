//! Content provenance check parameters.

use vstd::prelude::*;

verus! {

/// Multipart parameters of `POST /content_provenance_checks`.
#[derive(Debug, Clone, PartialEq, Eq)]
pub struct ContentProvenanceCheckParams {
    /// The image or audio file to check for OpenAI provenance signals.
    pub file: Vec<u8>,
    /// File name sent in the multipart form (its extension hints the media
    /// type).
    pub filename: String,
}

impl ContentProvenanceCheckParams {
    /// Parameters to check the given file bytes for provenance signals.
    pub fn new(file: Vec<u8>, filename: &str) -> (r: ContentProvenanceCheckParams)
        ensures
            r.file == file,
            r.filename@ == filename@,
    {
        ContentProvenanceCheckParams { file, filename: filename.to_string() }
    }
}

} // verus!
