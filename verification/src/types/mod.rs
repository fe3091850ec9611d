//! Request and response types of the API.

pub mod audio;
pub mod common;
pub mod containers;
pub mod content_provenance;
pub mod embedding;
pub mod file;
pub mod image;
pub mod responses;
pub mod shared;
