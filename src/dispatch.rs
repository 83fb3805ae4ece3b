use vstd::prelude::*;
use crate::error::{BackendError, ToolError, ToolErrorKind, classify_spec, is_connectivity_failure};
use crate::ident::{
    NamespaceIdent, TableIdent, join_segments, join_url, parse_namespace, parsed_segments,
    segments_valid, string_views, valid_segments,
};
use crate::metadata::{TableHandle, TableProperties, aggregate, expected_properties};

verus! {

/// The tools a client can call.
#[derive(Debug, Clone, Copy, PartialEq, Eq, Structural)]
pub enum Tool {
    GetNamespaces,
    GetTables,
    GetTableSchema,
    GetTableProperties,
}

/// The backend operation a validated request asks for.
#[derive(Debug, Clone)]
pub enum BackendCall {
    ListNamespaces,
    ListTables(NamespaceIdent),
    LoadTable(TableIdent),
}

/// The backend a server was started with.
#[derive(Debug, Clone, Copy, PartialEq, Eq, Structural)]
pub enum CatalogKind {
    Rest,
    Glue,
}

pub open spec fn needs_namespace(tool: Tool) -> bool {
    tool != Tool::GetNamespaces
}

pub open spec fn needs_table(tool: Tool) -> bool {
    tool == Tool::GetTableSchema || tool == Tool::GetTableProperties
}

pub open spec fn present(p: Option<String>) -> bool {
    p is Some && p->0@.len() > 0
}

/// The parameters a tool needs are there and not empty.
pub open spec fn request_valid(tool: Tool, namespace: Option<String>, table: Option<String>) -> bool {
    (needs_namespace(tool) ==> present(namespace)) && (needs_table(tool) ==> present(table))
}

/// The backend call planned for a valid request.
pub open spec fn planned_call(
    tool: Tool,
    namespace: Option<String>,
    table: Option<String>,
    call: BackendCall,
) -> bool {
    match call {
        BackendCall::ListNamespaces => tool == Tool::GetNamespaces,
        BackendCall::ListTables(ns) => tool == Tool::GetTables && ns.wf() && ns@ == parsed_segments(
            namespace->0@,
        ),
        BackendCall::LoadTable(t) => needs_table(tool) && t.wf() && t.namespace_view()@
            == parsed_segments(namespace->0@) && t.name_view() == table->0@,
    }
}

/// A tool error that reports the given backend failure.
pub open spec fn reports(r: ToolError, e: BackendError) -> bool {
    r.kind == classify_spec(e) && r.reason == e.message
}

/// The dispatcher of one server: the backend it was started with and whether
/// that backend exposes every partition spec of a table or only the default.
#[derive(Debug, Clone, Copy)]
pub struct CatalogWrapper {
    pub kind: CatalogKind,
    pub full_partition_history: bool,
}

impl CatalogWrapper {
    pub fn new(kind: CatalogKind, full_partition_history: bool) -> (r: CatalogWrapper)
        ensures
            r.kind == kind,
            r.full_partition_history == full_partition_history,
    {
        CatalogWrapper { kind, full_partition_history }
    }

    /// Validates a tool call's parameters and names the backend call it needs.
    /// An invalid request fails with an invalid argument and plans no call.
    pub fn plan(&self, tool: Tool, namespace: Option<String>, table: Option<String>) -> (r: Result<
        BackendCall,
        ToolError,
    >)
        ensures
            r is Ok <==> request_valid(tool, namespace, table),
            r is Ok ==> planned_call(tool, namespace, table, r->Ok_0),
            r is Err ==> r->Err_0.kind == ToolErrorKind::InvalidArgument,
    {
        if let Tool::GetNamespaces = tool {
            return Ok(BackendCall::ListNamespaces);
        }
        let ghost ns_in = namespace;
        let raw = match namespace {
            Some(n) => n,
            None => {
                return Err(
                    ToolError::new(
                        ToolErrorKind::InvalidArgument,
                        "missing namespace",
                        "the namespace parameter is required".to_string(),
                    ),
                );
            },
        };
        let ns = match parse_namespace(raw) {
            Ok(ns) => ns,
            Err(e) => {
                return Err(e);
            },
        };
        if let Tool::GetTables = tool {
            return Ok(BackendCall::ListTables(ns));
        }
        let name = match table {
            Some(t) => t,
            None => {
                return Err(
                    ToolError::new(
                        ToolErrorKind::InvalidArgument,
                        "missing table",
                        "the table parameter is required".to_string(),
                    ),
                );
            },
        };
        match TableIdent::new(ns, name) {
            Ok(t) => Ok(BackendCall::LoadTable(t)),
            Err(e) => Err(e),
        }
    }

    /// The canonical form of each listed namespace; a listed namespace that
    /// is not a valid identifier is a malformed response.
    pub fn namespaces_outcome(&self, reply: Result<Vec<Vec<String>>, BackendError>) -> (r: Result<
        Vec<String>,
        ToolError,
    >)
        ensures
            reply is Err ==> r is Err && reports(r->Err_0, reply->Err_0),
            reply is Ok ==> (r is Ok <==> forall|i: int|
                0 <= i < reply->Ok_0.len() ==> valid_segments(
                    string_views(#[trigger] reply->Ok_0@[i]@),
                )),
            reply is Ok && r is Ok ==> r->Ok_0.len() == reply->Ok_0.len() && forall|i: int|
                0 <= i < r->Ok_0.len() ==> #[trigger] r->Ok_0@[i]@ == join_segments(
                    string_views(reply->Ok_0@[i]@),
                ),
            reply is Ok && r is Err ==> r->Err_0.kind == ToolErrorKind::Internal,
    {
        let ghost rep = reply;
        let list = match reply {
            Ok(list) => list,
            Err(e) => {
                return Err(ToolError::from_backend("fail to list namespaces", e));
            },
        };
        let mut out: Vec<String> = Vec::new();
        let mut i: usize = 0;
        while i < list.len()
            invariant
                0 <= i <= list.len(),
                rep == reply,
                rep is Ok && rep->Ok_0 == list,
                out.len() == i,
                forall|j: int| 0 <= j < i ==> valid_segments(string_views(#[trigger] list@[j]@)),
                forall|j: int|
                    0 <= j < i ==> #[trigger] out@[j]@ == join_segments(string_views(list@[j]@)),
            decreases list.len() - i,
        {
            if !segments_valid(&list[i]) {
                assert(!valid_segments(string_views(rep->Ok_0@[i as int]@)));
                return Err(
                    ToolError::new(
                        ToolErrorKind::Internal,
                        "fail to list namespaces",
                        "the backend listed an empty namespace identifier".to_string(),
                    ),
                );
            }
            let s = join_url(&list[i]);
            out.push(s);
            i = i + 1;
        }
        Ok(out)
    }

    /// The table identifiers as the backend listed them.
    pub fn tables_outcome<T>(&self, reply: Result<Vec<T>, BackendError>) -> (r: Result<
        Vec<T>,
        ToolError,
    >)
        ensures
            reply is Ok <==> r is Ok,
            reply is Ok ==> r->Ok_0@ == reply->Ok_0@,
            reply is Err ==> reports(r->Err_0, reply->Err_0),
    {
        match reply {
            Ok(tables) => Ok(tables),
            Err(e) => Err(ToolError::from_backend("fail to list tables", e)),
        }
    }

    /// The current schema of the loaded table.
    pub fn schema_outcome<S, P, O>(&self, reply: Result<TableHandle<S, P, O>, BackendError>) -> (r:
        Result<S, ToolError>)
        ensures
            reply is Ok <==> r is Ok,
            reply is Ok ==> r->Ok_0 == reply->Ok_0.schema,
            reply is Err ==> reports(r->Err_0, reply->Err_0),
    {
        match reply {
            Ok(handle) => Ok(handle.schema),
            Err(e) => Err(ToolError::from_backend("fail to load table", e)),
        }
    }

    /// The aggregated properties of the loaded table.
    pub fn properties_outcome<S, P, O>(
        &self,
        reply: Result<TableHandle<S, P, O>, BackendError>,
    ) -> (r: Result<TableProperties<P, O>, ToolError>)
        ensures
            reply is Ok <==> r is Ok,
            reply is Ok ==> r->Ok_0@ == expected_properties(
                reply->Ok_0,
                self.full_partition_history,
            ),
            reply is Err ==> reports(r->Err_0, reply->Err_0),
    {
        match reply {
            Ok(handle) => Ok(aggregate(handle, self.full_partition_history)),
            Err(e) => Err(ToolError::from_backend("fail to load table", e)),
        }
    }
}

/// A failure to reach the backend while listing tables is reported as
/// unavailable, never as internal.
pub proof fn list_tables_connectivity_failure_is_unavailable(e: BackendError)
    requires
        is_connectivity_failure(e),
    ensures
        classify_spec(e) == ToolErrorKind::Unavailable,
{
}

} // verus!
