//! Declarations of a source file: one node per named function, struct or
//! impl item, with its line span and the fingerprint of its exact text.
use crate::oracle::hash::{compute_hash, sha256_hex};
use crate::oracle::syntax::{rust_syntax, PythonParser, RustParser, SyntaxTree};
use crate::text::{chars_of, matches_at};
use vstd::prelude::*;

verus! {

broadcast use vstd::std_specs::vec::axiom_vec_decreases_to_view, vstd::std_specs::vec::axiom_vec_index_decreases, vstd::seq::axiom_seq_index_decreases;

/// A declaration of the knowledge graph.
#[derive(Debug, Clone)]
pub struct GraphNode {
    pub path: String,
    pub node_type: String,
    pub name: String,
    pub start_line: usize,
    pub end_line: usize,
    pub signature_hash: String,
    pub docstring: Option<String>,
}

/// What a declaration node holds, as plain values: path, kind, name, first
/// and last line, fingerprint, doc comment.
pub type NodeView = (Seq<char>, Seq<char>, Seq<char>, usize, usize, Seq<char>, Option<Seq<char>>);

pub open spec fn node_view(n: GraphNode) -> NodeView {
    (
        n.path@,
        n.node_type@,
        n.name@,
        n.start_line,
        n.end_line,
        n.signature_hash@,
        match n.docstring {
            Some(d) => Some(d@),
            None => None,
        },
    )
}

pub open spec fn node_views(v: Seq<GraphNode>) -> Seq<NodeView> {
    v.map_values(|n: GraphNode| node_view(n))
}

/// The declaration kind that a syntax kind stands for, if it is one.
pub open spec fn decl_kind(kind: Seq<char>) -> Option<Seq<char>> {
    if kind == "function_item"@ {
        Some("function"@)
    } else if kind == "struct_item"@ {
        Some("struct"@)
    } else if kind == "impl_item"@ {
        Some("impl"@)
    } else {
        None
    }
}

/// The declaration that syntax node `t` of file `path` is, if any.
pub open spec fn decl_of(path: Seq<char>, t: SyntaxTree) -> Option<NodeView> {
    match (decl_kind(t.kind@), t.name) {
        (Some(k), Some(name)) => Some(
            (path, k, name@, t.start_row, t.end_row, sha256_hex(t.text@), None),
        ),
        _ => None,
    }
}

/// The declarations of a tree in depth-first pre-order.
pub open spec fn tree_decls(path: Seq<char>, t: SyntaxTree) -> Seq<NodeView>
    decreases t,
{
    let own = match decl_of(path, t) {
        Some(d) => seq![d],
        None => seq![],
    };
    own + forest_decls(path, t.children@)
}

/// The declarations of a sequence of sibling trees, in order.
pub open spec fn forest_decls(path: Seq<char>, ts: Seq<SyntaxTree>) -> Seq<NodeView>
    decreases ts,
{
    if ts.len() == 0 {
        seq![]
    } else {
        forest_decls(path, ts.drop_last()) + tree_decls(path, ts.last())
    }
}

/// The declarations extracted from a file: from its Rust syntax tree for a
/// `.rs` path, none otherwise.
pub open spec fn extracted_nodes(path: Seq<char>, content: Seq<char>) -> Seq<NodeView> {
    if ends_with(path, ".rs"@) {
        match rust_syntax(content) {
            Some(t) => tree_decls(path, t),
            None => seq![],
        }
    } else {
        seq![]
    }
}

pub open spec fn ends_with(s: Seq<char>, p: Seq<char>) -> bool {
    p.len() <= s.len() && s.subrange(s.len() - p.len(), s.len() as int) == p
}

pub fn ends_with_exec(s: &str, p: &str) -> (r: bool)
    ensures
        r == ends_with(s@, p@),
{
    let sv = chars_of(s);
    let pv = chars_of(p);
    if pv.len() > sv.len() {
        return false;
    }
    matches_at(&sv, &pv, sv.len() - pv.len())
}

pub struct GraphBuilder {
    rust_parser: RustParser,
    python_parser: PythonParser,
}

fn decl_kind_exec(kind: &String) -> (r: Option<&'static str>)
    ensures
        match decl_kind(kind@) {
            Some(k) => r matches Some(x) && x@ == k,
            None => r is None,
        },
{
    let k = kind.as_str().to_owned();
    if k == "function_item".to_owned() {
        Some("function")
    } else if k == "struct_item".to_owned() {
        Some("struct")
    } else if k == "impl_item".to_owned() {
        Some("impl")
    } else {
        None
    }
}

fn collect_decls(path: &str, t: &SyntaxTree, out: &mut Vec<GraphNode>)
    ensures
        node_views(final(out)@) == node_views(old(out)@) + tree_decls(path@, *t),
    decreases t,
{
    let ghost start = node_views(out@);
    match (decl_kind_exec(&t.kind), &t.name) {
        (Some(k), Some(name)) => {
            let ghost prev = out@;
            out.push(
                GraphNode {
                    path: path.to_owned(),
                    node_type: k.to_owned(),
                    name: name.clone(),
                    start_line: t.start_row,
                    end_line: t.end_row,
                    signature_hash: compute_hash(t.text.as_str()),
                    docstring: None,
                },
            );
            assert(node_views(out@) =~= node_views(prev).push(decl_of(path@, *t)->0));
        },
        _ => {},
    }
    let ghost base = node_views(out@);
    let mut i: usize = 0;
    assert(t.children@.subrange(0, 0) =~= Seq::<SyntaxTree>::empty());
    assert(base =~= base + forest_decls(path@, t.children@.subrange(0, 0)));
    while i < t.children.len()
        invariant
            i <= t.children.len(),
            node_views(out@) == base + forest_decls(path@, t.children@.subrange(0, i as int)),
        decreases t.children.len() - i,
    {
        let ghost before = node_views(out@);
        collect_decls(path, &t.children[i], out);
        proof {
            let cs = t.children@.subrange(0, i + 1);
            assert(cs.drop_last() =~= t.children@.subrange(0, i as int));
            assert(cs.last() == t.children@[i as int]);
        }
        i = i + 1;
    }
    assert(t.children@.subrange(0, i as int) =~= t.children@);
}

impl GraphBuilder {
    pub fn new() -> (r: Result<GraphBuilder, String>) {
        let rust_parser = match RustParser::new() {
            Ok(p) => p,
            Err(e) => return Err(e),
        };
        let python_parser = match PythonParser::new() {
            Ok(p) => p,
            Err(e) => return Err(e),
        };
        Ok(GraphBuilder { rust_parser, python_parser })
    }

    /// The declarations of one file, in depth-first pre-order. The result is
    /// a function of `path` and `content` alone.
    pub fn extract_nodes(&mut self, path: &str, content: &str) -> (r: Vec<GraphNode>)
        ensures
            node_views(r@) == extracted_nodes(path@, content@),
    {
        let mut out: Vec<GraphNode> = Vec::new();
        if ends_with_exec(path, ".rs") {
            if let Some(tree) = self.rust_parser.parse(content) {
                collect_decls(path, &tree, &mut out);
                assert(node_views(out@) =~= tree_decls(path@, tree));
            }
        }
        out
    }
}

/// Extraction is idempotent: two extractions of the same file give the same
/// nodes with the same fingerprints.
pub proof fn lemma_extract_idempotent(path: Seq<char>, content: Seq<char>, a: Seq<GraphNode>, b: Seq<GraphNode>)
    requires
        node_views(a) == extracted_nodes(path, content),
        node_views(b) == extracted_nodes(path, content),
    ensures
        node_views(a) == node_views(b),
{
}

/// A node's fingerprint is that of its exact text, so declarations with the
/// same text have the same fingerprint wherever they stand.
pub proof fn lemma_same_span_same_hash(path1: Seq<char>, t1: SyntaxTree, path2: Seq<char>, t2: SyntaxTree)
    requires
        decl_of(path1, t1) is Some,
        decl_of(path2, t2) is Some,
        t1.text@ == t2.text@,
    ensures
        (decl_of(path1, t1)->0).5 == (decl_of(path2, t2)->0).5,
        (decl_of(path1, t1)->0).5 == sha256_hex(t1.text@),
{
}

} // verus!
