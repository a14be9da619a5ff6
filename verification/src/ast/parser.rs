//! The way to the outside parser: what this library calls of tree-sitter and
//! of the Cool grammar, and the walk that copies a parsed tree.

use super::bindings::{well_formed, NodeInfo, Tree, TreeBuilder};
use tree_sitter::{Node as ParsedNode, Parser, Point, Tree as Parsed, TreeCursor};
use vstd::prelude::*;
use vstd::string::StringSliceAdditionalSpecFns;
use vstd::utf8::valid_utf8;

verus! {

/// tree-sitter's `Parser`. Nothing is claimed of it.
#[verifier::external_type_specification]
#[verifier::external_body]
pub struct ExParser(Parser);

/// tree-sitter's `Tree`, the tree that its parser gives. Nothing is claimed
/// of it.
#[verifier::external_type_specification]
#[verifier::external_body]
pub struct ExParsed(Parsed);

/// tree-sitter's `TreeCursor`. Nothing is claimed of it.
#[verifier::external_type_specification]
#[verifier::external_body]
pub struct ExTreeCursor<'a>(TreeCursor<'a>);

/// tree-sitter's `Node`. Nothing is claimed of it.
#[verifier::external_type_specification]
#[verifier::external_body]
pub struct ExParsedNode<'a>(ParsedNode<'a>);

/// tree-sitter's `Point`: a row and a column.
#[verifier::external_type_specification]
pub struct ExPoint(Point);

/// tree-sitter's `Parser::new`. Nothing is claimed of the parser.
pub assume_specification[ Parser::new ]() -> (parser: Parser);

/// tree-sitter's `Tree::walk`. Nothing is claimed of the cursor.
pub assume_specification[ Parsed::walk ](tree: &Parsed) -> (cursor: TreeCursor<'_>);

/// tree-sitter's `TreeCursor::node`. Nothing is claimed of the node.
pub assume_specification<'cursor>[ TreeCursor::<'cursor>::node ](
    cursor: &TreeCursor<'cursor>,
) -> (node: ParsedNode<'cursor>);

/// tree-sitter's `TreeCursor::goto_first_child`. Nothing is claimed of
/// where the cursor goes, nor of what comes back.
pub assume_specification<'cursor>[ TreeCursor::<'cursor>::goto_first_child ](
    cursor: &mut TreeCursor<'cursor>,
) -> (moved: bool);

/// tree-sitter's `TreeCursor::goto_next_sibling`. Nothing is claimed of
/// where the cursor goes, nor of what comes back.
pub assume_specification<'cursor>[ TreeCursor::<'cursor>::goto_next_sibling ](
    cursor: &mut TreeCursor<'cursor>,
) -> (moved: bool);

/// tree-sitter's `TreeCursor::goto_parent`. Nothing is claimed of where the
/// cursor goes, nor of what comes back.
pub assume_specification<'cursor>[ TreeCursor::<'cursor>::goto_parent ](
    cursor: &mut TreeCursor<'cursor>,
) -> (moved: bool);

/// tree-sitter's `Node::kind_id`. Nothing is claimed of the number.
pub assume_specification<'tree>[ ParsedNode::<'tree>::kind_id ](node: &ParsedNode<'tree>) -> (kind:
    u16);

/// tree-sitter's `Node::is_missing`. Nothing is claimed of the answer.
pub assume_specification<'tree>[ ParsedNode::<'tree>::is_missing ](
    node: &ParsedNode<'tree>,
) -> (missing: bool);

/// tree-sitter's `Node::start_byte`. Nothing is claimed of the number.
pub assume_specification<'tree>[ ParsedNode::<'tree>::start_byte ](node: &ParsedNode<'tree>) -> (at:
    usize);

/// tree-sitter's `Node::end_byte`. Nothing is claimed of the number.
pub assume_specification<'tree>[ ParsedNode::<'tree>::end_byte ](node: &ParsedNode<'tree>) -> (at:
    usize);

/// tree-sitter's `Node::start_position`. Nothing is claimed of the position.
pub assume_specification<'tree>[ ParsedNode::<'tree>::start_position ](
    node: &ParsedNode<'tree>,
) -> (at: Point);

/// tree-sitter's `Node::end_position`. Nothing is claimed of the position.
pub assume_specification<'tree>[ ParsedNode::<'tree>::end_position ](
    node: &ParsedNode<'tree>,
) -> (at: Point);

/// tree-sitter's `Parser::set_language` with the grammar of
/// tree-sitter-cool: whether the parser took the grammar. Nothing is claimed
/// of the answer.
#[verifier::external_body]
fn set_cool_language(parser: &mut Parser) -> (taken: bool) {
    parser.set_language(&tree_sitter_cool::LANGUAGE.into()).is_ok()
}

/// tree-sitter's `Parser::parse` without an earlier tree: the tree for
/// `code`, if the parser gives one. Nothing is claimed of the tree.
#[verifier::external_body]
fn parse_bytes(parser: &mut Parser, code: &[u8]) -> (parsed: Option<Parsed>) {
    parser.parse(code, None)
}

/// `core::str::from_utf8`: the text that `bytes` spell, which there is
/// exactly when they are valid UTF-8.
#[verifier::external_body]
pub(crate) fn utf8<'a>(bytes: &'a [u8]) -> (text: Option<&'a str>)
    ensures
        text is Some <==> valid_utf8(bytes@),
        text matches Some(t) ==> t.spec_bytes() == bytes@,
{
    core::str::from_utf8(bytes).ok()
}

/// What the parser says of the node `node`.
fn info_of(node: &ParsedNode) -> NodeInfo {
    let start = node.start_position();
    let end = node.end_position();
    NodeInfo {
        kind: node.kind_id(),
        missing: node.is_missing(),
        start_byte: node.start_byte(),
        end_byte: node.end_byte(),
        start_row: start.row,
        start_column: start.column,
        end_row: end.row,
        end_column: end.column,
    }
}

/// Copies the tree `parsed` node by node, walking it in document order. No
/// tree comes back when the walk does not end at the root it began at, when
/// a position does not fit, or when the walk takes more steps than can be
/// counted.
fn read_tree(parsed: &Parsed) -> (tree: Option<Tree>)
    ensures
        tree matches Some(t) ==> well_formed(t@),
{
    let mut cursor = parsed.walk();
    let mut builder = TreeBuilder::new();
    let root = cursor.node();
    if !builder.open(info_of(&root)) {
        return None;
    }
    let mut descending = true;
    let mut budget: usize = usize::MAX;
    while budget > 0
        invariant
            builder.wf(),
        decreases budget,
    {
        budget = budget - 1;
        if descending && cursor.goto_first_child() {
            let node = cursor.node();
            if !builder.open(info_of(&node)) {
                return None;
            }
        } else {
            if !builder.close() {
                return None;
            }
            if cursor.goto_next_sibling() {
                let node = cursor.node();
                if !builder.open(info_of(&node)) {
                    return None;
                }
                descending = true;
            } else if cursor.goto_parent() {
                descending = false;
            } else {
                return builder.finish();
            }
        }
    }
    None
}

/// Parses `code` with the grammar of Cool and copies the tree. No tree comes
/// back when the parser does not take the grammar or gives no tree, or when
/// its tree cannot be copied.
pub(crate) fn read_source(code: &[u8]) -> (tree: Option<Tree>)
    ensures
        tree matches Some(t) ==> well_formed(t@),
{
    let mut parser = Parser::new();
    if !set_cool_language(&mut parser) {
        return None;
    }
    match parse_bytes(&mut parser, code) {
        Some(parsed) => read_tree(&parsed),
        None => None,
    }
}

} // verus!
