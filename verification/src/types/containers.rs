//! Parameters of the container list endpoints.

use vstd::prelude::*;

verus! {

/// Sort order of `GET /containers`.
#[derive(Debug, Clone, PartialEq, Eq)]
pub enum ContainerListParamsOrder {
    Asc,
    Desc,
    /// An order name this version does not know.
    Other(String),
}

/// Pagination parameters of `GET /containers`.
#[derive(Debug, Clone)]
pub struct ContainerListParams {
    pub after: Option<String>,
    pub limit: Option<i64>,
    pub name: Option<String>,
    pub order: Option<ContainerListParamsOrder>,
}

/// Sort order of `GET /containers/{container_id}/files`.
#[derive(Debug, Clone, PartialEq, Eq)]
pub enum FileListParamsOrder {
    Asc,
    Desc,
    /// An order name this version does not know.
    Other(String),
}

/// Pagination parameters of `GET /containers/{container_id}/files`.
#[derive(Debug, Clone)]
pub struct FileListParams {
    pub after: Option<String>,
    pub limit: Option<i64>,
    pub order: Option<FileListParamsOrder>,
}

} // verus!
