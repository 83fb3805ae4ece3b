use iceberg_mcp::dispatch::{BackendCall, CatalogKind, CatalogWrapper, Tool};
use iceberg_mcp::error::{BackendError, BackendErrorKind, ToolErrorKind};
use iceberg_mcp::ident::{join_url, parse_namespace, segments_valid, NamespaceIdent, TableIdent};
use iceberg_mcp::metadata::{aggregate, TableHandle};
use std::collections::HashMap;

fn props(pairs: &[(&str, &str)]) -> HashMap<String, String> {
    pairs
        .iter()
        .map(|(k, v)| (k.to_string(), v.to_string()))
        .collect()
}

fn orders_table(snapshot: Option<HashMap<String, String>>) -> TableHandle<String, String, String> {
    TableHandle {
        schema: "schema".to_string(),
        properties: props(&[("format-version", "2")]),
        snapshot_summary: snapshot,
        default_partition_spec: "spec".to_string(),
        partition_specs: vec!["spec".to_string()],
        sort_orders: vec!["o1".to_string(), "o2".to_string()],
    }
}

fn backend_error(kind: BackendErrorKind, retryable: bool, message: &str) -> BackendError {
    BackendError { kind, retryable, message: message.to_string() }
}

fn rest() -> CatalogWrapper {
    CatalogWrapper::new(CatalogKind::Rest, true)
}

#[test]
fn parse_namespace_round_trips() {
    for raw in ["sales", "a.b", "x y", "\u{1f}"] {
        let ns = parse_namespace(raw.to_string()).unwrap();
        assert_eq!(ns.segments(), &vec![raw.to_string()]);
        assert_eq!(ns.to_url_string(), raw);
    }
}

#[test]
fn parse_namespace_rejects_empty() {
    let e = parse_namespace(String::new()).unwrap_err();
    assert_eq!(e.kind, ToolErrorKind::InvalidArgument);
}

#[test]
fn from_vec_rules() {
    assert!(NamespaceIdent::from_vec(vec![]).is_err());
    assert!(NamespaceIdent::from_vec(vec!["a".to_string(), String::new()]).is_err());
    let ns = NamespaceIdent::from_vec(vec!["a".to_string(), "b".to_string()]).unwrap();
    assert_eq!(ns.to_url_string(), "a\u{1f}b");
}

#[test]
fn join_url_three_segments() {
    let segs = vec!["db".to_string(), "sales".to_string(), "eu".to_string()];
    assert!(segments_valid(&segs));
    assert_eq!(join_url(&segs), "db\u{1f}sales\u{1f}eu");
}

#[test]
fn table_ident_requires_name() {
    let ns = parse_namespace("sales".to_string()).unwrap();
    let e = TableIdent::new(ns.clone(), String::new()).unwrap_err();
    assert_eq!(e.kind, ToolErrorKind::InvalidArgument);
    let t = TableIdent::new(ns, "orders".to_string()).unwrap();
    assert_eq!(t.name(), "orders");
    assert_eq!(t.namespace().to_url_string(), "sales");
}

#[test]
fn invalid_requests_plan_no_call() {
    let w = rest();
    let cases: Vec<(Tool, Option<String>, Option<String>)> = vec![
        (Tool::GetTables, None, None),
        (Tool::GetTables, Some(String::new()), None),
        (Tool::GetTableSchema, Some("sales".to_string()), None),
        (Tool::GetTableSchema, Some(String::new()), Some("orders".to_string())),
        (Tool::GetTableProperties, Some("sales".to_string()), Some(String::new())),
        (Tool::GetTableProperties, None, Some("orders".to_string())),
    ];
    for (tool, ns, table) in cases {
        let e = w.plan(tool, ns, table).unwrap_err();
        assert_eq!(e.kind, ToolErrorKind::InvalidArgument);
    }
}

#[test]
fn valid_requests_plan_calls() {
    let w = rest();
    assert!(matches!(w.plan(Tool::GetNamespaces, None, None), Ok(BackendCall::ListNamespaces)));
    match w.plan(Tool::GetTables, Some("sales".to_string()), None) {
        Ok(BackendCall::ListTables(ns)) => assert_eq!(ns.to_url_string(), "sales"),
        _ => panic!("expected a table listing"),
    }
    match w.plan(Tool::GetTableProperties, Some("sales".to_string()), Some("orders".to_string())) {
        Ok(BackendCall::LoadTable(t)) => {
            assert_eq!(t.namespace().to_url_string(), "sales");
            assert_eq!(t.name(), "orders");
        }
        _ => panic!("expected a table load"),
    }
}

#[test]
fn table_without_snapshot_has_empty_additional_properties() {
    let r = rest().properties_outcome(Ok(orders_table(None))).unwrap();
    assert!(r.additional_properties.is_empty());
}

#[test]
fn snapshot_summary_is_copied() {
    let summary = props(&[("added-records", "10")]);
    let r = aggregate(orders_table(Some(summary.clone())), true);
    assert_eq!(r.additional_properties, summary);
}

#[test]
fn properties_are_idempotent() {
    let w = rest();
    let a = w.properties_outcome(Ok(orders_table(None))).unwrap();
    let b = w.properties_outcome(Ok(orders_table(None))).unwrap();
    assert_eq!(a.properties, b.properties);
    assert_eq!(a.additional_properties, b.additional_properties);
    assert_eq!(a.partition, b.partition);
    assert_eq!(a.sort_orders, b.sort_orders);
}

#[test]
fn sales_orders_properties() {
    let r = rest().properties_outcome(Ok(orders_table(None))).unwrap();
    assert_eq!(r.properties, props(&[("format-version", "2")]));
    assert_eq!(r.additional_properties, HashMap::new());
    assert_eq!(r.partition, vec!["spec".to_string()]);
    assert_eq!(r.sort_orders, vec!["o1".to_string(), "o2".to_string()]);
}

#[test]
fn default_partition_only_backend() {
    let mut handle = orders_table(None);
    handle.partition_specs = vec!["old".to_string(), "spec".to_string()];
    let full = aggregate(orders_table(None), true);
    assert_eq!(full.partition, vec!["spec".to_string()]);
    let r = CatalogWrapper::new(CatalogKind::Glue, false).properties_outcome(Ok(handle)).unwrap();
    assert_eq!(r.partition, vec!["spec".to_string()]);
    let mut handle = orders_table(None);
    handle.partition_specs = vec!["old".to_string(), "spec".to_string()];
    let r = rest().properties_outcome(Ok(handle)).unwrap();
    assert_eq!(r.partition, vec!["old".to_string(), "spec".to_string()]);
}

#[test]
fn missing_namespace_is_not_found() {
    let w = rest();
    assert!(w.plan(Tool::GetTables, Some("missing_ns".to_string()), None).is_ok());
    let reply: Result<Vec<String>, BackendError> = Err(backend_error(
        BackendErrorKind::NamespaceNotFound,
        false,
        "Tried to list tables of a namespace that does not exist",
    ));
    let e = w.tables_outcome(reply).unwrap_err();
    assert_eq!(e.kind, ToolErrorKind::NotFound);
    assert_eq!(e.reason, "Tried to list tables of a namespace that does not exist");
}

#[test]
fn connectivity_failure_is_unavailable() {
    let w = rest();
    let reply: Result<Vec<String>, BackendError> =
        Err(backend_error(BackendErrorKind::Unexpected, false, "Failed to execute http request"));
    assert_eq!(w.tables_outcome(reply).unwrap_err().kind, ToolErrorKind::Unavailable);
    let reply: Result<Vec<String>, BackendError> =
        Err(backend_error(BackendErrorKind::DataInvalid, true, "try again"));
    assert_eq!(w.tables_outcome(reply).unwrap_err().kind, ToolErrorKind::Unavailable);
}

#[test]
fn malformed_response_is_internal() {
    let w = rest();
    let reply: Result<Vec<String>, BackendError> = Err(backend_error(
        BackendErrorKind::Unexpected,
        false,
        "Failed to parse response from rest catalog server",
    ));
    assert_eq!(w.tables_outcome(reply).unwrap_err().kind, ToolErrorKind::Internal);
    let e = backend_error(BackendErrorKind::TableNotFound, false, "no such table");
    assert_eq!(e.classify(), ToolErrorKind::NotFound);
}

#[test]
fn tables_are_forwarded() {
    let tables = vec!["sales.orders".to_string(), "sales.items".to_string()];
    assert_eq!(rest().tables_outcome(Ok(tables.clone())).unwrap(), tables);
    let empty: Vec<String> = vec![];
    assert_eq!(rest().tables_outcome(Ok(empty)).unwrap(), Vec::<String>::new());
}

#[test]
fn namespaces_are_listed_in_canonical_form() {
    let w = rest();
    let listed = vec![vec!["sales".to_string()], vec!["a".to_string(), "b".to_string()]];
    assert_eq!(
        w.namespaces_outcome(Ok(listed)).unwrap(),
        vec!["sales".to_string(), "a\u{1f}b".to_string()]
    );
    let bad = vec![vec!["sales".to_string()], vec![]];
    assert_eq!(w.namespaces_outcome(Ok(bad)).unwrap_err().kind, ToolErrorKind::Internal);
    let down = backend_error(BackendErrorKind::Unexpected, false, "Failed to execute http request");
    assert_eq!(w.namespaces_outcome(Err(down)).unwrap_err().kind, ToolErrorKind::Unavailable);
}

#[test]
fn schema_is_forwarded() {
    let w = rest();
    assert_eq!(w.schema_outcome(Ok(orders_table(None))).unwrap(), "schema");
    let reply: Result<TableHandle<String, String, String>, BackendError> =
        Err(backend_error(BackendErrorKind::TableNotFound, false, "gone"));
    let e = w.schema_outcome(reply).unwrap_err();
    assert_eq!(e.kind, ToolErrorKind::NotFound);
    assert_eq!(e.message, "fail to load table");
}
