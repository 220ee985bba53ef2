//! What a syntax tree denotes: the rules that take a node, the source and
//! the comment index to a value of the document model or to the reason why
//! there is none.

use vstd::prelude::*;
use crate::comments::{comment_for, CommentIndex};
use crate::cst::{field_index, CstNode, Field, Kind};
use crate::document::{MapItemView, ScalarTypeView, ScalarView};
use crate::error::{fault_of, Fault, ParseError};
use crate::scalar::{bare, block_outcome, node_text, plain_outcome, quoted_outcome, quoted_text};

verus! {

/// The nodes that are passed over in the search for the content of a
/// wrapper: the dash of a sequence item, and comments.
pub open spec fn is_skipped(kind: Kind) -> bool {
    kind == Kind::Dash || kind == Kind::Comment
}

/// The index of the first child from `from` on that is not passed over; the
/// number of children where there is none.
pub open spec fn content_index(children: Seq<CstNode>, from: int) -> int
    decreases children.len() - from,
{
    if 0 <= from < children.len() && is_skipped(children[from].kind()) {
        content_index(children, from + 1)
    } else {
        from
    }
}

/// Whether a value is a list or a mapping.
pub open spec fn is_container(value: ScalarTypeView) -> bool {
    value is List || value is Mapping
}

/// A value with the comment that the index holds for the line it starts on.
/// A value that has a comment keeps it, and a list or a mapping gets none:
/// its comments belong to its items.
pub open spec fn attached(scalar: ScalarView, index: CommentIndex, row: usize) -> ScalarView {
    if scalar.comment is Some || is_container(scalar.value) {
        scalar
    } else {
        ScalarView { value: scalar.value, comment: comment_for(index, row) }
    }
}

/// The null value without a comment.
pub open spec fn null_scalar() -> ScalarView {
    bare(ScalarTypeView::Null)
}

/// What the content of a wrapper denotes. The content is the first child
/// that is neither a dash nor a comment; later children are not looked at. A
/// document or a stream in that place is a wrapper in turn. Anything else is
/// a value, which gets its comment here. A wrapper without content is empty.
pub open spec fn tree_outcome(src: Seq<u8>, index: CommentIndex, node: CstNode) -> Result<
    ScalarView,
    ParseError,
>
    decreases node, 0nat,
{
    let i = content_index(node.children@, 0);
    if 0 <= i < node.children@.len() {
        let child = node.children@[i];
        if child.kind() == Kind::Document || child.kind() == Kind::Stream {
            tree_outcome(src, index, child)
        } else {
            match value_outcome(src, index, child) {
                Ok(scalar) => Ok(attached(scalar, index, child.at.row)),
                Err(fault) => Err(ParseError::Generic(fault)),
            }
        }
    } else {
        Err(ParseError::EmptyDocument)
    }
}

/// What a node denotes where a value is expected, before any comment is
/// attached to it.
pub open spec fn value_outcome(src: Seq<u8>, index: CommentIndex, node: CstNode) -> Result<
    ScalarView,
    Fault,
>
    decreases node, 2nat,
{
    match node.kind() {
        Kind::FlowNode | Kind::BlockNode => {
            if node.children@.len() > 0 {
                value_outcome(src, index, node.children@[0])
            } else {
                Err(Fault::EmptyWrapper)
            }
        },
        Kind::PlainScalar => plain_outcome(src, node),
        Kind::SingleQuoteScalar | Kind::DoubleQuoteScalar => quoted_outcome(src, node),
        Kind::BlockScalar => block_outcome(src, node),
        Kind::BlockSequence => match sequence_outcome(src, index, node, Kind::BlockSequenceItem) {
            Ok(items) => Ok(bare(ScalarTypeView::List(items))),
            Err(error) => Err(fault_of(error)),
        },
        Kind::FlowSequence => match sequence_outcome(src, index, node, Kind::FlowNode) {
            Ok(items) => Ok(bare(ScalarTypeView::List(items))),
            Err(error) => Err(fault_of(error)),
        },
        Kind::BlockMapping | Kind::FlowMapping => match mapping_outcome(src, index, node) {
            Ok(entries) => Ok(bare(ScalarTypeView::Mapping(entries))),
            Err(fault) => Err(fault),
        },
        _ => Err(Fault::UnexpectedKind { label: node.label, at: node.at }),
    }
}

/// The items of a sequence: what its children of kind `item` denote.
pub open spec fn sequence_outcome(
    src: Seq<u8>,
    index: CommentIndex,
    node: CstNode,
    item: Kind,
) -> Result<Seq<ScalarView>, ParseError>
    decreases node, 1nat,
{
    items_outcome(src, index, node.children@, item, node.children@.len())
}

/// The entries of a mapping.
pub open spec fn mapping_outcome(src: Seq<u8>, index: CommentIndex, node: CstNode) -> Result<
    Seq<MapItemView>,
    Fault,
>
    decreases node, 1nat,
{
    entries_outcome(src, index, node.children@, node.children@.len())
}

/// The items that the first `count` children of a sequence denote, in source
/// order. Only children of kind `item` are items; each is a wrapper around
/// its value. The first item that fails makes the whole sequence fail.
pub open spec fn items_outcome(
    src: Seq<u8>,
    index: CommentIndex,
    children: Seq<CstNode>,
    item: Kind,
    count: nat,
) -> Result<Seq<ScalarView>, ParseError>
    decreases children, count,
{
    if count == 0 || count > children.len() {
        Ok(Seq::empty())
    } else {
        match items_outcome(src, index, children, item, (count - 1) as nat) {
            Err(error) => Err(error),
            Ok(items) => {
                let child = children[count - 1];
                if child.kind() == item {
                    match tree_outcome(src, index, child) {
                        Ok(scalar) => Ok(items.push(scalar)),
                        Err(error) => Err(error),
                    }
                } else {
                    Ok(items)
                }
            },
        }
    }
}

/// Whether a node is a pair of a mapping.
pub open spec fn is_pair(kind: Kind) -> bool {
    kind == Kind::BlockMappingPair || kind == Kind::FlowPair
}

/// The entry that a pair denotes: its key, and the value that the pair holds
/// under the field `value`, or null where it holds none.
pub open spec fn pair_outcome(src: Seq<u8>, index: CommentIndex, pair: CstNode) -> Result<
    MapItemView,
    Fault,
>
    decreases pair, 0nat,
{
    let k = field_index(pair.children@, Field::Key, 0);
    let v = field_index(pair.children@, Field::Value, 0);
    if 0 <= k < pair.children@.len() {
        match key_outcome(src, pair.children@[k]) {
            Err(fault) => Err(fault),
            Ok(key) => {
                if 0 <= v < pair.children@.len() {
                    match tree_outcome(src, index, pair.children@[v]) {
                        Ok(value) => Ok(MapItemView { key, value }),
                        Err(error) => Err(fault_of(error)),
                    }
                } else {
                    Ok(MapItemView { key, value: null_scalar() })
                }
            },
        }
    } else {
        Err(Fault::MissingKey)
    }
}

/// The entries that the first `count` children of a mapping denote, in
/// source order. A pair is an entry; so is a bare flow node, which is a key
/// without a value. Other children are passed over. Keys may repeat. The
/// first entry that fails makes the whole mapping fail.
pub open spec fn entries_outcome(
    src: Seq<u8>,
    index: CommentIndex,
    children: Seq<CstNode>,
    count: nat,
) -> Result<Seq<MapItemView>, Fault>
    decreases children, count,
{
    if count == 0 || count > children.len() {
        Ok(Seq::empty())
    } else {
        match entries_outcome(src, index, children, (count - 1) as nat) {
            Err(fault) => Err(fault),
            Ok(entries) => {
                let child = children[count - 1];
                if is_pair(child.kind()) {
                    match pair_outcome(src, index, child) {
                        Ok(entry) => Ok(entries.push(entry)),
                        Err(fault) => Err(fault),
                    }
                } else if child.kind() == Kind::FlowNode {
                    match key_outcome(src, child) {
                        Ok(key) => Ok(entries.push(MapItemView { key, value: null_scalar() })),
                        Err(fault) => Err(fault),
                    }
                } else {
                    Ok(entries)
                }
            },
        }
    }
}

/// Whether a node is a sequence or a mapping.
pub open spec fn is_collection(kind: Kind) -> bool {
    ||| kind == Kind::BlockSequence
    ||| kind == Kind::FlowSequence
    ||| kind == Kind::BlockMapping
    ||| kind == Kind::FlowMapping
}

/// The key that a node denotes: the text of a scalar as it is written, a
/// number or a boolean too; of a quoted scalar what stands between the
/// quotes. A sequence or a mapping is no key.
pub open spec fn key_outcome(src: Seq<u8>, node: CstNode) -> Result<Seq<char>, Fault>
    decreases node,
{
    match node.kind() {
        Kind::FlowNode | Kind::BlockNode => {
            if node.children@.len() > 0 {
                key_outcome(src, node.children@[0])
            } else {
                Err(Fault::EmptyKey)
            }
        },
        Kind::PlainScalar => {
            if node.children@.len() > 0 {
                node_text(src, node.children@[0])
            } else {
                node_text(src, node)
            }
        },
        Kind::SingleQuoteScalar | Kind::DoubleQuoteScalar => quoted_text(src, node),
        _ => {
            if is_collection(node.kind()) {
                Err(Fault::ComplexKey { at: node.at })
            } else {
                node_text(src, node)
            }
        },
    }
}

/// The outcome of compiling a whole tree: a document, nothing where the
/// source holds no content, or the fault that makes it malformed.
pub open spec fn document_outcome(src: Seq<u8>, root: CstNode) -> Result<Option<ScalarView>, Fault> {
    match tree_outcome(src, crate::comments::collected(src, root, Map::empty()), root) {
        Ok(scalar) => Ok(Some(scalar)),
        Err(ParseError::EmptyDocument) => Ok(None),
        Err(ParseError::Generic(fault)) => Err(fault),
    }
}

/// A sequence fails as soon as one of its items does.
pub proof fn lemma_items_fail(
    src: Seq<u8>,
    index: CommentIndex,
    children: Seq<CstNode>,
    item: Kind,
    failed: nat,
    count: nat,
)
    requires
        failed <= count <= children.len(),
        items_outcome(src, index, children, item, failed) is Err,
    ensures
        items_outcome(src, index, children, item, count) == items_outcome(
            src,
            index,
            children,
            item,
            failed,
        ),
    decreases count - failed,
{
    if failed < count {
        lemma_items_fail(src, index, children, item, failed, (count - 1) as nat);
    }
}

/// A mapping fails as soon as one of its entries does.
pub proof fn lemma_entries_fail(
    src: Seq<u8>,
    index: CommentIndex,
    children: Seq<CstNode>,
    failed: nat,
    count: nat,
)
    requires
        failed <= count <= children.len(),
        entries_outcome(src, index, children, failed) is Err,
    ensures
        entries_outcome(src, index, children, count) == entries_outcome(
            src,
            index,
            children,
            failed,
        ),
    decreases count - failed,
{
    if failed < count {
        lemma_entries_fail(src, index, children, failed, (count - 1) as nat);
    }
}

} // verus!
