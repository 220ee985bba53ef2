//! The grammar behind the compiler: tree-sitter with its YAML grammar.
//!
//! The verifier does not look into tree-sitter. What it gives for a text is
//! therefore a name here, [`grammar_tree`], and the tree is handed over as a
//! plain copy: labels, fields, byte ranges and places as tree-sitter reports
//! them, and nothing read into them. Only this file names the grammar.

use vstd::prelude::*;
use crate::cst::{CstNode, Position};
use crate::error::Fault;

verus! {

#[verifier::external_type_specification]
#[verifier::external_body]
pub struct ExTreeCursor<'tree>(tree_sitter::TreeCursor<'tree>);

/// What tree-sitter gives for a text under the YAML grammar: the syntax
/// tree, copied node by node, or the reason why there is none.
pub uninterp spec fn grammar_tree(text: Seq<char>) -> Result<CstNode, Fault>;

/// The copy of the node that the cursor is on, and of what is below it:
/// `TreeCursor::node` with its `kind`, `start_byte`, `end_byte` and
/// `start_position`, `TreeCursor::field_name`, and the children that
/// `goto_first_child` and `goto_next_sibling` lead to, in that order. The
/// cursor is left where it was. Nothing is claimed of the copy. `Node::kind`
/// panics where the grammar has no name for a node or one that is not UTF-8,
/// which no grammar that tree-sitter generates has.
#[verifier::external_body]
fn copy_node(cursor: &mut tree_sitter::TreeCursor) -> CstNode {
    let (node, field) = (cursor.node(), cursor.field_name());
    let mut children = Vec::new();
    if cursor.goto_first_child() {
        children.push(copy_node(cursor));
        while cursor.goto_next_sibling() {
            children.push(copy_node(cursor));
        }
        cursor.goto_parent();
    }
    let (label, field) = (node.kind().to_owned(), field.map(str::to_owned));
    let (start, end, place) = (node.start_byte(), node.end_byte(), node.start_position());
    let at = Position { row: place.row, column: place.column };
    CstNode { label, field, start, end, at, children }
}

/// Parses a text with tree-sitter: `Parser::new`, `Parser::set_language` with
/// the grammar that `Language::from` makes of `tree_sitter_yaml::LANGUAGE`,
/// `Parser::parse` on the whole text with no earlier tree, and the copy of
/// the tree from the cursor that `Tree::walk` puts on its root. The contract
/// claims that the outcome depends on the text alone: the grammar is fixed,
/// and the parser is new, without a time limit or a range set on it. A
/// grammar that the parser refuses is one fault, a parse without a tree the
/// other.
#[verifier::external_body]
fn parse_text(text: &str) -> (r: Result<CstNode, Fault>)
    ensures
        r == grammar_tree(text@),
        r matches Err(fault) ==> fault is Language || fault is NoTree,
{
    let mut parser = tree_sitter::Parser::new();
    match parser.set_language(&tree_sitter::Language::from(tree_sitter_yaml::LANGUAGE)) {
        Ok(()) => {},
        Err(_) => return Err(Fault::Language),
    }
    match parser.parse(text, None) {
        Some(tree) => Ok(copy_node(&mut tree.walk())),
        None => Err(Fault::NoTree),
    }
}

/// The syntax tree of a YAML text, as plain data.
pub fn syntax_tree(text: &str) -> (r: Result<CstNode, Fault>)
    ensures
        r == grammar_tree(text@),
        r matches Err(fault) ==> fault is Language || fault is NoTree,
{
    parse_text(text)
}

} // verus!
