use arqonship::oracle::edges::EdgeBuilder;
use arqonship::oracle::graph::GraphBuilder;
use arqonship::oracle::hash::compute_hash;
use arqonship::oracle::syntax::{PythonParser, RustParser};

#[test]
fn test_parser_creates_successfully() {
    let parser = RustParser::new();
    assert!(parser.is_ok());
}

#[test]
fn test_parse_simple_function() {
    let mut parser = RustParser::new().unwrap();
    let code = "fn main() { println!(\"Hello\"); }";
    let tree = parser.parse(code);
    assert!(tree.is_some());
    let tree = tree.unwrap();
    assert_eq!(tree.kind, "source_file");
}

#[test]
fn test_parse_struct() {
    let mut parser = RustParser::new().unwrap();
    let code = "struct Point { x: i32, y: i32 }";
    let tree = parser.parse(code).unwrap();
    assert!(tree.children.len() > 0);
}

#[test]
fn test_parse_finds_function_item() {
    let mut parser = RustParser::new().unwrap();
    let code = "fn hello() {}";
    let tree = parser.parse(code).unwrap();
    let child = &tree.children[0];
    assert_eq!(child.kind, "function_item");
}

#[test]
fn test_parse_empty_returns_some() {
    let mut parser = RustParser::new().unwrap();
    let tree = parser.parse("");
    assert!(tree.is_some());
}

#[test]
fn python_parser_parses() {
    let mut parser = PythonParser::new().unwrap();
    let tree = parser.parse("def f():\n    return 1\n").unwrap();
    assert_eq!(tree.kind, "module");
    assert_eq!(tree.children[0].name.as_deref(), Some("f"));
}

const SAMPLE: &str = "struct Point { x: i32 }\n\nimpl Point {\n    fn norm(&self) -> i32 {\n        helper(self.x)\n    }\n}\n\nfn helper(v: i32) -> i32 { v }\n";

#[test]
fn extract_nodes_spans_and_hashes() {
    let mut g = GraphBuilder::new().unwrap();
    let nodes = g.extract_nodes("src/p.rs", SAMPLE);
    let summary: Vec<(String, String, usize, usize)> =
        nodes.iter().map(|n| (n.node_type.clone(), n.name.clone(), n.start_line, n.end_line)).collect();
    assert_eq!(
        summary,
        vec![
            ("struct".to_string(), "Point".to_string(), 0, 0),
            ("function".to_string(), "norm".to_string(), 3, 5),
            ("function".to_string(), "helper".to_string(), 8, 8),
        ]
    );
    assert_eq!(nodes[0].signature_hash, compute_hash("struct Point { x: i32 }"));
    assert_eq!(nodes[2].signature_hash, compute_hash("fn helper(v: i32) -> i32 { v }"));
    assert!(nodes.iter().all(|n| n.path == "src/p.rs" && n.docstring.is_none()));
}

#[test]
fn extract_nodes_is_idempotent() {
    let mut g = GraphBuilder::new().unwrap();
    let a = g.extract_nodes("src/p.rs", SAMPLE);
    let b = g.extract_nodes("src/p.rs", SAMPLE);
    assert_eq!(a.len(), b.len());
    for (x, y) in a.iter().zip(b.iter()) {
        assert_eq!((&x.name, x.start_line, x.end_line, &x.signature_hash), (&y.name, y.start_line, y.end_line, &y.signature_hash));
    }
}

#[test]
fn one_character_changes_the_signature_hash() {
    let mut g = GraphBuilder::new().unwrap();
    let a = g.extract_nodes("a.rs", "fn f() { 1 }");
    let b = g.extract_nodes("b.rs", "fn f() { 2 }");
    let c = g.extract_nodes("c.rs", "\n\nfn f() { 1 }");
    assert_ne!(a[0].signature_hash, b[0].signature_hash);
    assert_eq!(a[0].signature_hash, c[0].signature_hash);
    assert_eq!(c[0].start_line, 2);
}

#[test]
fn extract_nodes_ignores_other_files() {
    let mut g = GraphBuilder::new().unwrap();
    assert!(g.extract_nodes("notes.txt", SAMPLE).is_empty());
    assert!(g.extract_nodes("mod.py", "def f():\n    pass\n").is_empty());
}

#[test]
fn extract_edges_by_scope() {
    let mut e = EdgeBuilder::new().unwrap();
    let edges = e.extract_edges("src/p.rs", SAMPLE);
    let pairs: Vec<(String, String, String)> = edges
        .iter()
        .map(|x| (x.source_node_name.clone(), x.target_node_name.clone(), x.edge_type.clone()))
        .collect();
    assert_eq!(pairs, vec![("norm".to_string(), "helper".to_string(), "calls".to_string())]);
    let top = e.extract_edges("src/q.rs", "const A: i32 = f();");
    assert!(top.is_empty());
    let nested = e.extract_edges("src/q.rs", "fn outer() { fn inner() { g(); } h(); }");
    let pairs: Vec<(String, String)> =
        nested.iter().map(|x| (x.source_node_name.clone(), x.target_node_name.clone())).collect();
    assert_eq!(pairs, vec![("inner".to_string(), "g".to_string()), ("outer".to_string(), "h".to_string())]);
}
