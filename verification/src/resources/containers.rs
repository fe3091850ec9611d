//! Containers: managed sandboxes used by Code Interpreter, and the files in
//! them.

use vstd::prelude::*;

use crate::config::OpenAI;
use crate::resources::{path_of, resource_path};
use crate::text::{i64_to_decimal_string, int_to_decimal};
use crate::types::containers::{
    ContainerListParams, ContainerListParamsOrder, FileListParams, FileListParamsOrder,
};

verus! {

/// The character view of a list of query parameters.
pub open spec fn query_view(q: Seq<(String, String)>) -> Seq<(Seq<char>, Seq<char>)> {
    q.map_values(|p: (String, String)| (p.0@, p.1@))
}

/// One query parameter when a value is present, none otherwise.
pub open spec fn optional_param(key: Seq<char>, value: Option<Seq<char>>) -> Seq<(Seq<char>, Seq<char>)> {
    match value {
        Some(v) => seq![(key, v)],
        None => seq![],
    }
}

/// The optional text of an optional string.
pub open spec fn opt_text(s: Option<String>) -> Option<Seq<char>> {
    match s {
        Some(t) => Some(t@),
        None => None,
    }
}

/// The optional decimal text of an optional limit.
pub open spec fn opt_limit(l: Option<i64>) -> Option<Seq<char>> {
    match l {
        Some(n) => Some(int_to_decimal(n as int)),
        None => None,
    }
}

/// The wire name of a container sort order; unknown orders are sent as `desc`.
pub open spec fn container_order_text(o: ContainerListParamsOrder) -> Seq<char> {
    match o {
        ContainerListParamsOrder::Asc => "asc"@,
        _ => "desc"@,
    }
}

/// The wire name of a file sort order; unknown orders are sent as `desc`.
pub open spec fn file_order_text(o: FileListParamsOrder) -> Seq<char> {
    match o {
        FileListParamsOrder::Asc => "asc"@,
        _ => "desc"@,
    }
}

/// The query of `GET /containers`: `after`, `limit`, `name`, `order`, in
/// this order, each only when set.
pub open spec fn container_list_query_spec(p: ContainerListParams) -> Seq<(Seq<char>, Seq<char>)> {
    optional_param("after"@, opt_text(p.after)) + optional_param("limit"@, opt_limit(p.limit))
        + optional_param("name"@, opt_text(p.name)) + optional_param(
        "order"@,
        match p.order {
            Some(o) => Some(container_order_text(o)),
            None => None,
        },
    )
}

/// The query of `GET /containers/{id}/files`: `after`, `limit`, `order`, in
/// this order, each only when set.
pub open spec fn file_list_query_spec(p: FileListParams) -> Seq<(Seq<char>, Seq<char>)> {
    optional_param("after"@, opt_text(p.after)) + optional_param("limit"@, opt_limit(p.limit))
        + optional_param(
        "order"@,
        match p.order {
            Some(o) => Some(file_order_text(o)),
            None => None,
        },
    )
}

/// The query of `GET /containers/{id}/files` holds, in this order and each
/// only when set: `after` with its text, `limit` with its decimal digits,
/// and `order` with `asc` for the ascending order and `desc` otherwise.
pub proof fn law_file_list_query(p: FileListParams)
    ensures
        file_list_query_spec(p) == (match p.after {
            Some(a) => seq![("after"@, a@)],
            None => Seq::<(Seq<char>, Seq<char>)>::empty(),
        }) + (match p.limit {
            Some(l) => seq![("limit"@, int_to_decimal(l as int))],
            None => Seq::<(Seq<char>, Seq<char>)>::empty(),
        }) + (match p.order {
            Some(FileListParamsOrder::Asc) => seq![("order"@, "asc"@)],
            Some(_) => seq![("order"@, "desc"@)],
            None => Seq::<(Seq<char>, Seq<char>)>::empty(),
        }),
{
}

/// The query of `GET /containers` holds, in this order and each only when
/// set: `after` with its text, `limit` with its decimal digits, `name` with
/// its text, and `order` with `asc` for the ascending order and `desc`
/// otherwise.
pub proof fn law_container_list_query(p: ContainerListParams)
    ensures
        container_list_query_spec(p) == (match p.after {
            Some(a) => seq![("after"@, a@)],
            None => Seq::<(Seq<char>, Seq<char>)>::empty(),
        }) + (match p.limit {
            Some(l) => seq![("limit"@, int_to_decimal(l as int))],
            None => Seq::<(Seq<char>, Seq<char>)>::empty(),
        }) + (match p.name {
            Some(n) => seq![("name"@, n@)],
            None => Seq::<(Seq<char>, Seq<char>)>::empty(),
        }) + (match p.order {
            Some(ContainerListParamsOrder::Asc) => seq![("order"@, "asc"@)],
            Some(_) => seq![("order"@, "desc"@)],
            None => Seq::<(Seq<char>, Seq<char>)>::empty(),
        }),
{
}

fn push_param(query: &mut Vec<(String, String)>, key: &str, value: String)
    ensures
        query_view(final(query)@) == query_view(old(query)@).push((key@, value@)),
{
    let ghost before = query@;
    query.push((String::from_str(key), value));
    assert(query_view(query@) =~= query_view(before).push((key@, value@)));
}

/// The wire name of a container sort order.
pub fn order_value(order: &ContainerListParamsOrder) -> (s: &'static str)
    ensures
        s@ == container_order_text(*order),
{
    match order {
        ContainerListParamsOrder::Asc => "asc",
        ContainerListParamsOrder::Desc => "desc",
        _ => "desc",
    }
}

/// The wire name of a file sort order.
pub fn file_order_value(order: &FileListParamsOrder) -> (s: &'static str)
    ensures
        s@ == file_order_text(*order),
{
    match order {
        FileListParamsOrder::Asc => "asc",
        FileListParamsOrder::Desc => "desc",
        _ => "desc",
    }
}

/// The query parameters of `GET /containers` for the given pagination
/// parameters.
pub fn container_list_query(params: &ContainerListParams) -> (query: Vec<(String, String)>)
    ensures
        query_view(query@) == container_list_query_spec(*params),
{
    let mut query: Vec<(String, String)> = Vec::new();
    let ghost q0 = query_view(query@);
    if let Some(after) = &params.after {
        push_param(&mut query, "after", after.clone());
    }
    let ghost q1 = query_view(query@);
    if let Some(limit) = params.limit {
        push_param(&mut query, "limit", i64_to_decimal_string(limit));
    }
    let ghost q2 = query_view(query@);
    if let Some(name) = &params.name {
        push_param(&mut query, "name", name.clone());
    }
    let ghost q3 = query_view(query@);
    if let Some(order) = &params.order {
        push_param(&mut query, "order", String::from_str(order_value(order)));
    }
    proof {
        assert(q0 =~= seq![]);
        assert(q1 =~= optional_param("after"@, opt_text(params.after)));
        assert(q2 =~= q1 + optional_param("limit"@, opt_limit(params.limit)));
        assert(q3 =~= q2 + optional_param("name"@, opt_text(params.name)));
    }
    assert(query_view(query@) =~= container_list_query_spec(*params));
    query
}

/// The query parameters of `GET /containers/{id}/files` for the given
/// pagination parameters.
pub fn file_list_query(params: &FileListParams) -> (query: Vec<(String, String)>)
    ensures
        query_view(query@) == file_list_query_spec(*params),
{
    let mut query: Vec<(String, String)> = Vec::new();
    let ghost q0 = query_view(query@);
    if let Some(after) = &params.after {
        push_param(&mut query, "after", after.clone());
    }
    let ghost q1 = query_view(query@);
    if let Some(limit) = params.limit {
        push_param(&mut query, "limit", i64_to_decimal_string(limit));
    }
    let ghost q2 = query_view(query@);
    if let Some(order) = &params.order {
        push_param(&mut query, "order", String::from_str(file_order_value(order)));
    }
    proof {
        assert(q0 =~= seq![]);
        assert(q1 =~= optional_param("after"@, opt_text(params.after)));
        assert(q2 =~= q1 + optional_param("limit"@, opt_limit(params.limit)));
    }
    assert(query_view(query@) =~= file_list_query_spec(*params));
    query
}

/// Access container endpoints.
pub struct Containers<'a> {
    client: &'a OpenAI,
}

impl<'a> Containers<'a> {
    /// The handle of the client's container endpoints.
    pub(crate) fn new(client: &'a OpenAI) -> (r: Containers<'a>)
        ensures
            r.client() == client,
    {
        Containers { client }
    }

    /// The client the requests go through.
    pub closed spec fn client(&self) -> &'a OpenAI {
        self.client
    }

    /// The client the requests go through.
    pub fn client_ref(&self) -> (r: &'a OpenAI)
        ensures
            r == self.client(),
    {
        self.client
    }

    /// The files inside one container.
    pub fn files(&self, container_id: &str) -> (r: ContainerFiles<'a>)
        ensures
            r.client() == self.client(),
            r.container_id() == container_id@,
    {
        ContainerFiles { client: self.client, container_id: container_id.to_string() }
    }

    /// The path of one container: `/containers/{container_id}`.
    pub fn container_path(container_id: &str) -> (r: String)
        ensures
            r@ == path_of(seq!["containers"@, container_id@]),
    {
        let segments = ["containers", container_id];
        let r = resource_path(&segments);
        proof {
            assert(segments@.map_values(|s: &str| s@) =~= seq!["containers"@, container_id@]);
        }
        r
    }
}

/// File endpoints scoped to a single container.
pub struct ContainerFiles<'a> {
    client: &'a OpenAI,
    container_id: String,
}

impl<'a> ContainerFiles<'a> {
    /// The client the requests go through.
    pub closed spec fn client(&self) -> &'a OpenAI {
        self.client
    }

    /// The id of the container.
    pub closed spec fn container_id(&self) -> Seq<char> {
        self.container_id@
    }

    /// The client the requests go through.
    pub fn client_ref(&self) -> (r: &'a OpenAI)
        ensures
            r == self.client(),
    {
        self.client
    }

    /// The path of the container's files: `/containers/{container_id}/files`.
    pub fn files_path(&self) -> (r: String)
        ensures
            r@ == path_of(seq!["containers"@, self.container_id(), "files"@]),
    {
        let segments = ["containers", self.container_id.as_str(), "files"];
        let r = resource_path(&segments);
        proof {
            assert(segments@.map_values(|s: &str| s@) =~= seq!["containers"@, self.container_id(), "files"@]);
        }
        r
    }

    /// The path of one file: `/containers/{container_id}/files/{file_id}`.
    pub fn file_path(&self, file_id: &str) -> (r: String)
        ensures
            r@ == path_of(seq!["containers"@, self.container_id(), "files"@, file_id@]),
    {
        let segments = ["containers", self.container_id.as_str(), "files", file_id];
        let r = resource_path(&segments);
        proof {
            assert(segments@.map_values(|s: &str| s@) =~= seq!["containers"@, self.container_id(), "files"@, file_id@]);
        }
        r
    }

    /// The path of one file's content: `/containers/{container_id}/files/{file_id}/content`.
    pub fn file_content_path(&self, file_id: &str) -> (r: String)
        ensures
            r@ == path_of(seq!["containers"@, self.container_id(), "files"@, file_id@, "content"@]),
    {
        let segments = ["containers", self.container_id.as_str(), "files", file_id, "content"];
        let r = resource_path(&segments);
        proof {
            assert(segments@.map_values(|s: &str| s@) =~= seq!["containers"@, self.container_id(), "files"@, file_id@, "content"@]);
        }
        r
    }
}

} // verus!
