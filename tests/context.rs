use arqonship::heal::context::{assemble_context, collect_related, related_tokens, source_snippet};
use arqonship::heal::parser_rust::TestFailure;
use arqonship::oracle::store::NodeRef;

fn numbered(n: usize) -> String {
    (0..n).map(|i| format!("line{}\n", i)).collect()
}

fn lines_between(lo: usize, hi: usize) -> String {
    (lo..hi).map(|i| format!("line{}", i)).collect::<Vec<_>>().join("\n")
}

#[test]
fn snippet_window_around_line_42() {
    let failure = TestFailure {
        file_path: "lib/x".to_string(),
        line: Some(42),
        error_message: "cannot find value `x`".to_string(),
        test_name: String::new(),
    };
    let ctx = assemble_context(&failure, &numbered(100), &vec![]);
    assert_eq!(ctx.source_snippet, lines_between(37, 52));
    assert_eq!(ctx.failure.file_path, "lib/x");
    assert!(ctx.related_signatures.is_empty());
}

#[test]
fn snippet_window_near_the_start() {
    assert_eq!(source_snippet(&numbered(100), Some(1)), lines_between(0, 11));
    assert_eq!(source_snippet(&numbered(100), Some(0)), lines_between(0, 10));
}

#[test]
fn snippet_window_near_the_end() {
    assert_eq!(source_snippet(&numbered(100), Some(99)), lines_between(94, 100));
}

#[test]
fn snippet_without_line_or_past_the_end() {
    assert_eq!(source_snippet(&numbered(80), None), lines_between(0, 50));
    assert_eq!(source_snippet(&numbered(10), Some(200)), "");
    assert_eq!(source_snippet("", Some(3)), "");
    assert_eq!(source_snippet("a\r\nb", None), "a\nb");
}

#[test]
fn tokens_of_an_error_message() {
    let t = related_tokens("error[E0425]: cannot find value `parse_node` in this scope; expected parse_node, found Type");
    assert_eq!(t, vec!["E0425", "Type", "cannot", "find", "parse_node", "scope", "this", "value"]);
    assert!(related_tokens("").is_empty());
}

fn hit(id: i64, name: &str) -> NodeRef {
    NodeRef { id, path: format!("src/{}.rs", name), node_type: "function".to_string(), name: name.to_string() }
}

#[test]
fn related_signatures_capped_at_five() {
    let lists = vec![
        vec![hit(1, "a"), hit(2, "b"), hit(1, "a")],
        vec![hit(3, "c"), hit(2, "b"), hit(4, "d"), hit(5, "e"), hit(6, "f"), hit(7, "g")],
    ];
    let r = collect_related(&lists);
    assert_eq!(r.len(), 5);
    assert_eq!(r[0], "Ref: function a (in src/a.rs)");
    assert_eq!(r[1], "Ref: function b (in src/b.rs)");
    assert_eq!(r[4], "Ref: function e (in src/e.rs)");
    assert!(collect_related(&vec![]).is_empty());
}
