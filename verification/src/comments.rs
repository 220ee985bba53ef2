//! The comment index: which comment ends on which line of the source.
//!
//! Comments are siblings of the values they document. A run of comment
//! tokens with no other node between them is one comment; it is filed under
//! the line on which its last token starts.

use vstd::prelude::*;
use vstd::utf8::*;
use crate::cst::{CstNode, Kind};
use crate::scalar::{span_bytes, span_cuts};
use crate::text::comment_body;

verus! {

/// From a line of the source to the comment that ends on it.
pub type CommentIndex = Map<usize, Seq<char>>;

/// What a comment token says; nothing, where its byte range does not cut a
/// text out of the source.
pub open spec fn comment_text(src: Seq<u8>, node: CstNode) -> Seq<char> {
    if span_cuts(src, node) {
        comment_body(decode_utf8(span_bytes(src, node)))
    } else {
        Seq::empty()
    }
}

/// Where the run of comment tokens that begins at `from` ends.
pub open spec fn run_end(children: Seq<CstNode>, from: int) -> int
    decreases children.len() - from,
{
    if 0 <= from < children.len() && children[from].kind() == Kind::Comment {
        run_end(children, from + 1)
    } else {
        from
    }
}

/// What the tokens `from..to` say, joined by single spaces.
pub open spec fn merged(src: Seq<u8>, children: Seq<CstNode>, from: int, to: int) -> Seq<char>
    decreases to - from,
{
    if to <= from {
        Seq::empty()
    } else if to == from + 1 {
        comment_text(src, children[from])
    } else {
        merged(src, children, from, to - 1) + seq![' '] + comment_text(src, children[to - 1])
    }
}

/// The index after the comments below `node` have been filed in it.
pub open spec fn collected(src: Seq<u8>, node: CstNode, index: CommentIndex) -> CommentIndex
    decreases node,
{
    collected_from(src, node.children@, 0, index)
}

/// The index after the comments among the children from `from` on, and below
/// them, have been filed in it, in source order.
pub open spec fn collected_from(
    src: Seq<u8>,
    children: Seq<CstNode>,
    from: int,
    index: CommentIndex,
) -> CommentIndex
    decreases children, children.len() - from,
{
    if from < 0 || from >= children.len() {
        index
    } else if children[from].kind() == Kind::Comment {
        let to = run_end(children, from + 1);
        proof {
            lemma_run_end_bounds(children, from + 1);
        }
        collected_from(
            src,
            children,
            to,
            index.insert(children[to - 1].at.row, merged(src, children, from, to)),
        )
    } else {
        collected_from(src, children, from + 1, collected(src, children[from], index))
    }
}

/// Whether filing the comments below `node` files one under `row`.
pub open spec fn files_under(node: CstNode, row: usize) -> bool
    decreases node,
{
    files_under_from(node.children@, 0, row)
}

/// Whether filing the comments among the children from `from` on, and below
/// them, files one under `row`.
pub open spec fn files_under_from(children: Seq<CstNode>, from: int, row: usize) -> bool
    decreases children, children.len() - from,
{
    if from < 0 || from >= children.len() {
        false
    } else if children[from].kind() == Kind::Comment {
        let to = run_end(children, from + 1);
        proof {
            lemma_run_end_bounds(children, from + 1);
        }
        children[to - 1].at.row == row || files_under_from(children, to, row)
    } else {
        files_under(children[from], row) || files_under_from(children, from + 1, row)
    }
}

/// The comment of a value that starts on line `row`: the one that ends on
/// that line, else the one that ends on the line before.
pub open spec fn comment_for(index: CommentIndex, row: usize) -> Option<Seq<char>> {
    if index.contains_key(row) {
        Some(index[row])
    } else if row > 0 && index.contains_key((row - 1) as usize) {
        Some(index[(row - 1) as usize])
    } else {
        None
    }
}

/// A run of comment tokens ends behind its first token and inside the
/// children.
pub proof fn lemma_run_end_bounds(children: Seq<CstNode>, from: int)
    requires
        0 <= from <= children.len(),
    ensures
        from <= run_end(children, from) <= children.len(),
        forall|i: int|
            from <= i < run_end(children, from) ==> (#[trigger] children[i]).kind() == Kind::Comment,
        run_end(children, from) < children.len() ==> children[run_end(children, from)].kind()
            != Kind::Comment,
    decreases children.len() - from,
{
    if from < children.len() && children[from].kind() == Kind::Comment {
        lemma_run_end_bounds(children, from + 1);
    }
}

} // verus!
