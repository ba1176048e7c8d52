use arqonship::heal::audit::AuditLog;
use arqonship::heal::context::ContextBuilder;
use arqonship::heal::parser_rust::TestFailure;
use arqonship::heal::session::HealOutcome;
use arqonship::oracle::edges::GraphEdge;
use arqonship::oracle::graph::GraphNode;
use arqonship::oracle::hash::compute_hash;
use arqonship::oracle::query::{query_keywords, MatchKind, QueryEngine};
use arqonship::heal::audit::{attempt_args, audit_record};
use arqonship::oracle::query::choose_results;
use arqonship::oracle::store::{edge_insert_args, resolve_endpoint, sample_args, search_args, NodeRef, OracleStore, Resolution, SqlArg};
use std::path::PathBuf;

fn node(path: &str, name: &str, start: usize, end: usize, body: &str) -> GraphNode {
    GraphNode {
        path: path.to_string(),
        node_type: "function".to_string(),
        name: name.to_string(),
        start_line: start,
        end_line: end,
        signature_hash: compute_hash(body),
        docstring: None,
    }
}

fn temp_store(dir: &tempfile::TempDir) -> (OracleStore, String) {
    let path = dir.path().join("graph.db").to_string_lossy().to_string();
    (OracleStore::open(&path).unwrap(), path)
}

#[test]
fn upsert_converges_without_duplicates() {
    let dir = tempfile::tempdir().unwrap();
    let (mut store, _) = temp_store(&dir);
    store.insert_node(&node("src/a.rs", "parse", 3, 9, "v1")).unwrap();
    store.insert_node(&node("src/a.rs", "parse", 3, 12, "v2")).unwrap();
    let all = store.get_all_nodes(100).unwrap();
    assert_eq!(all.len(), 1);
    store.insert_node(&node("src/a.rs", "parse", 20, 22, "v3")).unwrap();
    assert_eq!(store.get_all_nodes(100).unwrap().len(), 2);
}

#[test]
fn search_is_case_insensitive_and_bounded() {
    let dir = tempfile::tempdir().unwrap();
    let (mut store, _) = temp_store(&dir);
    for i in 0..30 {
        store.insert_node(&node("src/m.rs", &format!("ParseItem{}", i), i, i, "b")).unwrap();
    }
    store.insert_node(&node("src/m.rs", "other", 99, 99, "b")).unwrap();
    assert_eq!(store.search_nodes("parseitem").unwrap().len(), 20);
    assert_eq!(store.search_nodes("OTHER").unwrap().len(), 1);
    assert!(store.search_nodes("missing").unwrap().is_empty());
    assert_eq!(store.get_all_nodes(3).unwrap().len(), 3);
}

#[test]
fn edges_need_both_endpoints() {
    let dir = tempfile::tempdir().unwrap();
    let (mut store, _) = temp_store(&dir);
    let a = store.insert_node(&node("src/a.rs", "caller", 1, 2, "x")).unwrap();
    let b1 = store.insert_node(&node("src/b.rs", "callee", 1, 2, "y")).unwrap();
    let b2 = store.insert_node(&node("src/a.rs", "callee", 5, 6, "z")).unwrap();
    let e = GraphEdge { source_node_name: "caller".to_string(), target_node_name: "callee".to_string(), edge_type: "calls".to_string() };
    let x = store.insert_edge(&e).unwrap();
    assert_eq!(x.stored, Some((a, b1)));
    assert_eq!((x.source, x.target), (Resolution::Global(a), Resolution::Global(b1)));
    let y = store.insert_edge_from(&e, "src/a.rs").unwrap();
    assert_eq!(y.stored, Some((a, b2)));
    assert_eq!(y.target, Resolution::SameFile(b2));
    let dangling = GraphEdge { source_node_name: "caller".to_string(), target_node_name: "nowhere".to_string(), edge_type: "calls".to_string() };
    let z = store.insert_edge(&dangling).unwrap();
    assert_eq!(z.stored, None);
    assert_eq!(z.target, Resolution::Unresolved);
}

#[test]
fn resolution_policy() {
    let cs = vec![
        NodeRef { id: 4, path: "x.rs".to_string(), node_type: "function".to_string(), name: "f".to_string() },
        NodeRef { id: 9, path: "y.rs".to_string(), node_type: "function".to_string(), name: "f".to_string() },
    ];
    assert_eq!(resolve_endpoint(&cs, Some("y.rs")), Resolution::SameFile(9));
    assert_eq!(resolve_endpoint(&cs, Some("z.rs")), Resolution::Global(4));
    assert_eq!(resolve_endpoint(&cs, None), Resolution::Global(4));
    assert_eq!(resolve_endpoint(&vec![], Some("x.rs")), Resolution::Unresolved);
}

#[test]
fn query_merges_and_falls_back() {
    let dir = tempfile::tempdir().unwrap();
    let (mut store, _) = temp_store(&dir);
    store.insert_node(&node("src/a.rs", "parse_config", 1, 2, "x")).unwrap();
    store.insert_node(&node("src/b.rs", "load_config", 1, 2, "y")).unwrap();
    let mut engine = QueryEngine::with_store(store);
    let r = engine.query("how to parse the config");
    let names: Vec<&str> = r.iter().map(|x| x.name.as_str()).collect();
    assert_eq!(names, vec!["parse_config", "load_config"]);
    assert!(r.iter().all(|x| x.kind == MatchKind::Lexical));
    assert!(r[0].snippet.starts_with("[function] id="));
    let s = engine.query("zz qq");
    assert_eq!(s.len(), 2);
    assert!(s.iter().all(|x| x.kind == MatchKind::Sample));
    assert_eq!(query_keywords(" a bcd  efgh\tij "), vec!["bcd", "efgh"]);
}

#[test]
fn context_builder_uses_the_store() {
    let dir = tempfile::tempdir().unwrap();
    let (mut store, _) = temp_store(&dir);
    store.insert_node(&node("src/a.rs", "compute_total", 1, 2, "x")).unwrap();
    let builder = ContextBuilder::new(store, PathBuf::from("."));
    let failure = TestFailure {
        file_path: "src/a.rs".to_string(),
        line: None,
        error_message: "cannot find function compute_total".to_string(),
        test_name: String::new(),
    };
    let ctx = builder.build_context(&failure, "fn main() {}\n");
    assert_eq!(ctx.related_signatures, vec!["Ref: function compute_total (in src/a.rs)".to_string()]);
    assert_eq!(ctx.source_snippet, "fn main() {}");
}

#[test]
fn audit_records_hashes_not_text() {
    let dir = tempfile::tempdir().unwrap();
    let (_store, path) = temp_store(&dir);
    let log = AuditLog::open(&path).unwrap();
    let failure = TestFailure { file_path: "src/a.rs".to_string(), line: Some(3), error_message: "boom".to_string(), test_name: String::new() };
    let a = log.log_attempt(&failure, "prompt", "fix", &HealOutcome::TestFailed).unwrap();
    let b = log.log_attempt(&failure, "prompt", "fix", &HealOutcome::TestFailed).unwrap();
    assert_eq!(a.prompt_hash, compute_hash("prompt"));
    assert_eq!(a.diff_hash, compute_hash("fix"));
    assert_eq!(a.outcome, "TestFailed");
    assert_eq!(a.file_path, "src/a.rs");
    assert_ne!(a.run_id, b.run_id);
}

#[test]
fn line_numbers_beyond_the_store_range_are_rejected() {
    let dir = tempfile::tempdir().unwrap();
    let (mut store, _) = temp_store(&dir);
    let err = store.insert_node(&node("src/a.rs", "huge", usize::MAX, usize::MAX, "x")).unwrap_err();
    assert_eq!(err.kind, arqonship::oracle::store::StoreErrorKind::LineOutOfRange);
    assert_eq!(err.message, "line number out of range");
    assert!(store.get_all_nodes(10).unwrap().is_empty());
}

fn text(a: &SqlArg) -> String {
    match a {
        SqlArg::Text(t) => t.clone(),
        other => panic!("not text: {:?}", other),
    }
}

#[test]
fn search_pattern_is_lowercased_and_escaped() {
    let a = search_args("Parse_Node%");
    assert_eq!(a.len(), 2);
    assert_eq!(text(&a[0]), "%parse\\_node\\%%");
    assert!(matches!(a[1], SqlArg::Int(20)));
    assert!(matches!(sample_args(7)[0], SqlArg::Int(7)));
    assert!(matches!(sample_args(usize::MAX)[0], SqlArg::Int(i64::MAX)));
}

#[test]
fn underscore_in_a_search_is_literal() {
    let dir = tempfile::tempdir().unwrap();
    let (mut store, _) = temp_store(&dir);
    store.insert_node(&node("src/m.rs", "parse_node", 1, 1, "b")).unwrap();
    store.insert_node(&node("src/m.rs", "parseXnode", 2, 2, "b")).unwrap();
    let hits = store.search_nodes("e_n").unwrap();
    assert_eq!(hits.len(), 1);
    assert_eq!(hits[0].name, "parse_node");
}

#[test]
fn edge_arguments_follow_resolution() {
    let e = GraphEdge { source_node_name: "a".to_string(), target_node_name: "b".to_string(), edge_type: "calls".to_string() };
    let a = edge_insert_args(Resolution::SameFile(3), Resolution::Global(8), &e).unwrap();
    assert!(matches!(a[0], SqlArg::Int(3)));
    assert!(matches!(a[1], SqlArg::Int(8)));
    assert_eq!(text(&a[2]), "calls");
    assert!(edge_insert_args(Resolution::Global(3), Resolution::Unresolved, &e).is_none());
}

#[test]
fn query_answer_choice() {
    let n = |id: i64, name: &str| NodeRef { id, path: "p.rs".to_string(), node_type: "struct".to_string(), name: name.to_string() };
    let sample = vec![n(1, "a"), n(2, "b")];
    let r = choose_results(&vec![vec![], vec![]], Some(&sample));
    assert_eq!(r.len(), 2);
    assert!(r.iter().all(|x| x.kind == MatchKind::Sample));
    assert_eq!(r[1].snippet, "[struct] id=2");
    let r = choose_results(&vec![vec![n(5, "c"), n(5, "c")]], Some(&sample));
    assert_eq!(r.len(), 1);
    assert_eq!(r[0].kind, MatchKind::Lexical);
    assert!(choose_results(&vec![], None).is_empty());
}

#[test]
fn audit_insert_columns_in_order() {
    let failure = TestFailure { file_path: "f.rs".to_string(), line: None, error_message: "m".to_string(), test_name: String::new() };
    let rec = audit_record(&failure, "p", "x", HealOutcome::Success, "id-1".to_string(), "t0".to_string());
    let a = attempt_args(&rec);
    let cols: Vec<String> = a.iter().map(text).collect();
    assert_eq!(cols, vec!["id-1".to_string(), "t0".to_string(), "f.rs".to_string(), "m".to_string(), compute_hash("p"), compute_hash("x"), "Success".to_string()]);
}

#[test]
fn search_folds_case_beyond_ascii() {
    let dir = tempfile::tempdir().unwrap();
    let (mut store, _) = temp_store(&dir);
    store.insert_node(&node("src/m.rs", "Éclair", 1, 1, "b")).unwrap();
    assert_eq!(store.search_nodes("é").unwrap().len(), 1);
    assert_eq!(store.search_nodes("ÉCL").unwrap().len(), 1);
}
