//! Syntax trees of source files, as plain values.
//!
//! The grammars and the parsing itself come from tree-sitter; the library
//! keeps, for each node, what the extractors read: its kind, line span, full
//! text, and the text of its `name` and `function` fields.
use vstd::prelude::*;

verus! {

#[verifier::external_type_specification]
#[verifier::external_body]
pub struct ExParser(tree_sitter::Parser);

#[verifier::external_type_specification]
#[verifier::external_body]
pub struct ExNode<'tree>(tree_sitter::Node<'tree>);

/// One node of a syntax tree.
#[derive(Debug)]
pub struct SyntaxTree {
    pub kind: String,
    /// Row of the node's first character, counted from 0.
    pub start_row: usize,
    /// Row of the node's last position, counted from 0.
    pub end_row: usize,
    /// The node's full source text.
    pub text: String,
    /// Text of the `name` field, if the node has one.
    pub name: Option<String>,
    /// Text of the `function` field, if the node has one.
    pub function: Option<String>,
    pub children: Vec<SyntaxTree>,
}

/// The tree that the Rust grammar gives for a text (none if parsing stops).
pub uninterp spec fn rust_syntax(content: Seq<char>) -> Option<SyntaxTree>;

/// The tree that the Python grammar gives for a text (none if parsing stops).
pub uninterp spec fn python_syntax(content: Seq<char>) -> Option<SyntaxTree>;

/// A tree-sitter parser set to the Rust grammar; only `RustParser::new`
/// fills its private field.
pub struct RustParser {
    parser: tree_sitter::Parser,
}

/// A tree-sitter parser set to the Python grammar; only `PythonParser::new`
/// fills its private field.
pub struct PythonParser {
    parser: tree_sitter::Parser,
}

/// Relies on `tree_sitter::Parser::new` and `set_language` with the grammar of
/// `tree_sitter_rust`; fails only when the grammar's ABI is not supported.
#[verifier::external_body]
fn rust_grammar_parser() -> Option<tree_sitter::Parser> {
    let mut parser = tree_sitter::Parser::new();
    parser.set_language(&tree_sitter_rust::LANGUAGE.into()).ok()?;
    Some(parser)
}

/// Relies on `tree_sitter::Parser::new` and `set_language` with the grammar of
/// `tree_sitter_python`; fails only when the grammar's ABI is not supported.
#[verifier::external_body]
fn python_grammar_parser() -> Option<tree_sitter::Parser> {
    let mut parser = tree_sitter::Parser::new();
    parser.set_language(&tree_sitter_python::LANGUAGE.into()).ok()?;
    Some(parser)
}

/// Relies on `tree_sitter::Parser::parse` without an old tree, timeout or
/// cancellation flag, on a parser that `RustParser::new` set to the Rust
/// grammar: the tree is a function of the text.
#[verifier::external_body]
fn parse_rust_text(parser: &mut RustParser, code: &str) -> (r: Option<SyntaxTree>)
    ensures
        r == rust_syntax(code@),
{
    parser.parser.parse(code, None).map(|t| syntax_of(t.root_node(), code))
}

/// Relies on `tree_sitter::Parser::parse` without an old tree, timeout or
/// cancellation flag, on a parser that `PythonParser::new` set to the Python
/// grammar: the tree is a function of the text.
#[verifier::external_body]
fn parse_python_text(parser: &mut PythonParser, code: &str) -> (r: Option<SyntaxTree>)
    ensures
        r == python_syntax(code@),
{
    parser.parser.parse(code, None).map(|t| syntax_of(t.root_node(), code))
}

/// Converts a tree-sitter node and its descendants, field by field.
#[verifier::external_body]
fn syntax_of(node: tree_sitter::Node, code: &str) -> SyntaxTree {
    let mut cursor = node.walk();
    SyntaxTree {
        kind: node.kind().to_string(),
        start_row: node.start_position().row,
        end_row: node.end_position().row,
        text: code[node.byte_range()].to_string(),
        name: node.child_by_field_name("name").map(|n| code[n.byte_range()].to_string()),
        function: node.child_by_field_name("function").map(|n| code[n.byte_range()].to_string()),
        children: node.children(&mut cursor).map(|c| syntax_of(c, code)).collect(),
    }
}

impl RustParser {
    pub fn new() -> (r: Result<RustParser, String>) {
        match rust_grammar_parser() {
            Some(parser) => Ok(RustParser { parser }),
            None => Err("Error loading Rust grammar".to_owned()),
        }
    }

    pub fn parse(&mut self, code: &str) -> (r: Option<SyntaxTree>)
        ensures
            r == rust_syntax(code@),
    {
        parse_rust_text(self, code)
    }
}

impl PythonParser {
    pub fn new() -> (r: Result<PythonParser, String>) {
        match python_grammar_parser() {
            Some(parser) => Ok(PythonParser { parser }),
            None => Err("Error loading Python grammar".to_owned()),
        }
    }

    pub fn parse(&mut self, code: &str) -> (r: Option<SyntaxTree>)
        ensures
            r == python_syntax(code@),
    {
        parse_python_text(self, code)
    }
}

} // verus!
