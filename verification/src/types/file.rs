//! File types.

use vstd::prelude::*;

verus! {

/// A file object from the API.
#[derive(Debug, Clone)]
pub struct FileObject {
    pub id: String,
    pub bytes: i64,
    pub created_at: i64,
    pub filename: String,
    pub object: String,
    pub purpose: String,
    pub status: String,
    pub status_details: Option<String>,
    pub expires_at: Option<i64>,
}

/// Response from listing files.
#[derive(Debug, Clone)]
pub struct FileList {
    pub object: String,
    pub data: Vec<FileObject>,
}

/// Response from deleting a file.
#[derive(Debug, Clone)]
pub struct FileDeleted {
    pub id: String,
    pub deleted: bool,
    pub object: String,
}

/// Parameters for a file upload (multipart).
#[derive(Debug)]
pub struct FileUploadParams {
    pub file: Vec<u8>,
    pub filename: String,
    pub purpose: String,
}

impl FileUploadParams {
    /// Upload parameters for the file's bytes, name and purpose.
    pub fn new(file: Vec<u8>, filename: &str, purpose: &str) -> (r: FileUploadParams)
        ensures
            r.file == file,
            r.filename@ == filename@,
            r.purpose@ == purpose@,
    {
        FileUploadParams { file, filename: filename.to_string(), purpose: purpose.to_string() }
    }
}

} // verus!
