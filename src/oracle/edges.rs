//! Call edges of a source file: each call expression inside a named function
//! links that function to the text of the callee. Resolution is lexical only.
use crate::oracle::graph::{ends_with, ends_with_exec};
use crate::oracle::syntax::{rust_syntax, PythonParser, RustParser, SyntaxTree};
use vstd::prelude::*;

verus! {

broadcast use vstd::std_specs::vec::axiom_vec_decreases_to_view, vstd::std_specs::vec::axiom_vec_index_decreases, vstd::seq::axiom_seq_index_decreases;

/// A relation between two declarations, by name.
#[derive(Debug, Clone)]
pub struct GraphEdge {
    pub source_node_name: String,
    pub target_node_name: String,
    pub edge_type: String,
}

/// Source name, target name, kind.
pub type EdgeView = (Seq<char>, Seq<char>, Seq<char>);

pub open spec fn edge_view(e: GraphEdge) -> EdgeView {
    (e.source_node_name@, e.target_node_name@, e.edge_type@)
}

pub open spec fn edge_views(v: Seq<GraphEdge>) -> Seq<EdgeView> {
    v.map_values(|e: GraphEdge| edge_view(e))
}

/// The scope that the children of `t` see: `t`'s name if it is a named
/// function, else the scope around `t`.
pub open spec fn inner_scope(t: SyntaxTree, scope: Option<Seq<char>>) -> Option<Seq<char>> {
    match t.name {
        Some(n) => if t.kind@ == "function_item"@ {
            Some(n@)
        } else {
            scope
        },
        None => scope,
    }
}

/// The edge that node `t` itself gives inside `scope`.
pub open spec fn own_edge(t: SyntaxTree, scope: Option<Seq<char>>) -> Seq<EdgeView> {
    match (scope, t.function) {
        (Some(s), Some(f)) => if t.kind@ == "call_expression"@ {
            seq![(s, f@, "calls"@)]
        } else {
            seq![]
        },
        _ => seq![],
    }
}

/// The call edges of a tree in depth-first pre-order.
pub open spec fn tree_edges(t: SyntaxTree, scope: Option<Seq<char>>) -> Seq<EdgeView>
    decreases t,
{
    own_edge(t, scope) + forest_edges(t.children@, inner_scope(t, scope))
}

/// The call edges of a sequence of sibling trees, in order.
pub open spec fn forest_edges(ts: Seq<SyntaxTree>, scope: Option<Seq<char>>) -> Seq<EdgeView>
    decreases ts,
{
    if ts.len() == 0 {
        seq![]
    } else {
        forest_edges(ts.drop_last(), scope) + tree_edges(ts.last(), scope)
    }
}

/// The call edges extracted from a file: from its Rust syntax tree for a
/// `.rs` path, none otherwise.
pub open spec fn extracted_edges(path: Seq<char>, content: Seq<char>) -> Seq<EdgeView> {
    if ends_with(path, ".rs"@) {
        match rust_syntax(content) {
            Some(t) => tree_edges(t, None),
            None => seq![],
        }
    } else {
        seq![]
    }
}

pub struct EdgeBuilder {
    rust_parser: RustParser,
    python_parser: PythonParser,
}

fn collect_edges(t: &SyntaxTree, scope: &Option<String>, out: &mut Vec<GraphEdge>)
    ensures
        edge_views(final(out)@) == edge_views(old(out)@) + tree_edges(
            *t,
            match scope {
                Some(s) => Some(s@),
                None => None,
            },
        ),
    decreases t,
{
    let ghost sc = match scope {
        Some(s) => Some(s@),
        None => None::<Seq<char>>,
    };
    let is_call = t.kind == "call_expression".to_owned();
    let is_fn = t.kind == "function_item".to_owned();
    let ghost prev = out@;
    match (scope, &t.function) {
        (Some(s), Some(f)) => {
            if is_call {
                out.push(
                    GraphEdge {
                        source_node_name: s.clone(),
                        target_node_name: f.clone(),
                        edge_type: "calls".to_owned(),
                    },
                );
            }
        },
        _ => {},
    }
    assert(edge_views(out@) =~= edge_views(prev) + own_edge(*t, sc));
    let inner: Option<String> = match &t.name {
        Some(n) => if is_fn {
            Some(n.clone())
        } else {
            match scope {
                Some(s) => Some(s.clone()),
                None => None,
            }
        },
        None => match scope {
            Some(s) => Some(s.clone()),
            None => None,
        },
    };
    let ghost isc = inner_scope(*t, sc);
    assert(match inner {
        Some(s) => isc == Some(s@),
        None => isc is None,
    });
    let ghost base = edge_views(out@);
    let mut i: usize = 0;
    assert(t.children@.subrange(0, 0) =~= Seq::<SyntaxTree>::empty());
    assert(base =~= base + forest_edges(t.children@.subrange(0, 0), isc));
    while i < t.children.len()
        invariant
            i <= t.children.len(),
            match inner {
                Some(s) => isc == Some(s@),
                None => isc is None,
            },
            edge_views(out@) == base + forest_edges(t.children@.subrange(0, i as int), isc),
        decreases t.children.len() - i,
    {
        collect_edges(&t.children[i], &inner, out);
        proof {
            let cs = t.children@.subrange(0, i + 1);
            assert(cs.drop_last() =~= t.children@.subrange(0, i as int));
            assert(cs.last() == t.children@[i as int]);
        }
        i = i + 1;
    }
    assert(t.children@.subrange(0, i as int) =~= t.children@);
}

impl EdgeBuilder {
    pub fn new() -> (r: Result<EdgeBuilder, String>) {
        let rust_parser = match RustParser::new() {
            Ok(p) => p,
            Err(e) => return Err(e),
        };
        let python_parser = match PythonParser::new() {
            Ok(p) => p,
            Err(e) => return Err(e),
        };
        Ok(EdgeBuilder { rust_parser, python_parser })
    }

    /// The call edges of one file, in depth-first pre-order.
    pub fn extract_edges(&mut self, path: &str, content: &str) -> (r: Vec<GraphEdge>)
        ensures
            edge_views(r@) == extracted_edges(path@, content@),
    {
        let mut out: Vec<GraphEdge> = Vec::new();
        if ends_with_exec(path, ".rs") {
            if let Some(tree) = self.rust_parser.parse(content) {
                collect_edges(&tree, &None, &mut out);
                assert(edge_views(out@) =~= tree_edges(tree, None));
            }
        }
        out
    }
}

} // verus!
