//! What holds of every document that the rules give.

use vstd::prelude::*;
use crate::comments::{
    collected, collected_from, comment_for, comment_text, files_under, files_under_from,
    lemma_run_end_bounds, merged, run_end, CommentIndex,
};
use crate::cst::{field_index, CstNode, Field, Kind};
use crate::document::{MapItemView, ScalarTypeView, ScalarView};
use crate::error::{Fault, ParseError};
use crate::number::{
    integer_digits, integer_format, integer_literal, is_decimal_number, signed_value,
    unsigned_part, IntegerFormat,
};
use crate::scalar::{bare, float_literal, node_text, quoted_text};
use crate::text::{blanks_end, blanks_start, comment_body, is_white_space, marks_end};
use crate::transform::{
    attached, content_index, document_outcome, entries_outcome, is_collection, is_container,
    is_pair, is_skipped, items_outcome, key_outcome, mapping_outcome, null_scalar, pair_outcome,
    sequence_outcome, tree_outcome, value_outcome,
};

verus! {

/// Every integer literal has one outcome: the number that its digits spell
/// in the radix that it announces, where they spell one that fits in 64 bits,
/// and else the format that it announces.
pub proof fn law_integer_literals_decode(text: Seq<u8>)
    ensures
        match signed_value(integer_digits(text), integer_format(text).radix()) {
            Some(v) => if i64::MIN <= v <= i64::MAX {
                integer_literal(text) == Ok::<i64, IntegerFormat>(v as i64)
            } else {
                integer_literal(text) == Err::<i64, IntegerFormat>(integer_format(text))
            },
            None => integer_literal(text) == Err::<i64, IntegerFormat>(integer_format(text)),
        },
{
}

/// Every decimal number, signed or not, is a float literal.
pub proof fn law_decimal_numbers_decode(text: Seq<u8>)
    requires
        is_decimal_number(unsigned_part(text)),
    ensures
        float_literal(text) is Some,
{
}

/// Quoting takes away the two delimiters and nothing else: the text of a
/// quoted scalar is its first character, then what the scalar denotes, then
/// its last character. Escapes stay as they were written.
pub proof fn law_quoted_text_is_verbatim(src: Seq<u8>, node: CstNode)
    requires
        quoted_text(src, node) is Ok,
    ensures
        node_text(src, node) is Ok,
        ({
            let text = node_text(src, node)->Ok_0;
            let inner = quoted_text(src, node)->Ok_0;
            &&& inner.len() == text.len() - 2
            &&& text == seq![text.first()] + inner + seq![text.last()]
        }),
{
    let text = node_text(src, node)->Ok_0;
    let inner = quoted_text(src, node)->Ok_0;
    assert(text =~= seq![text.first()] + inner + seq![text.last()]);
}

/// A run of comment marks ends inside the text.
pub proof fn lemma_marks_end_bounds(text: Seq<char>, from: int)
    requires
        0 <= from <= text.len(),
    ensures
        from <= marks_end(text, from) <= text.len(),
    decreases text.len() - from,
{
    if from < text.len() && text[from] == crate::text::HASH {
        lemma_marks_end_bounds(text, from + 1);
    }
}

/// A run of white space ends inside the text, before a character that is
/// none.
pub proof fn lemma_blanks_end_bounds(text: Seq<char>, from: int)
    requires
        0 <= from <= text.len(),
    ensures
        from <= blanks_end(text, from) <= text.len(),
        blanks_end(text, from) < text.len() ==> !is_white_space(text[blanks_end(text, from)]),
    decreases text.len() - from,
{
    if from < text.len() && is_white_space(text[from]) {
        lemma_blanks_end_bounds(text, from + 1);
    }
}

/// A run of white space begins inside the text, behind a character that is
/// none.
pub proof fn lemma_blanks_start_bounds(text: Seq<char>, to: int)
    requires
        0 <= to <= text.len(),
    ensures
        0 <= blanks_start(text, to) <= to,
        blanks_start(text, to) > 0 ==> !is_white_space(text[blanks_start(text, to) - 1]),
    decreases to,
{
    if 0 < to && is_white_space(text[to - 1]) {
        lemma_blanks_start_bounds(text, to - 1);
    }
}

/// A comment has no white space at either end.
pub proof fn law_comment_is_trimmed(token: Seq<char>)
    ensures
        comment_body(token).len() > 0 ==> !is_white_space(comment_body(token).first())
            && !is_white_space(comment_body(token).last()),
{
    let first = blanks_end(token, marks_end(token, 0));
    let last = blanks_start(token, token.len() as int);
    lemma_marks_end_bounds(token, 0);
    lemma_blanks_end_bounds(token, marks_end(token, 0));
    lemma_blanks_start_bounds(token, token.len() as int);
}

/// The tokens of a run of comments are one comment, filed under the line of
/// the last of them. The run ends where another node stands, or with the
/// children.
pub proof fn law_comment_run_is_one_comment(
    src: Seq<u8>,
    children: Seq<CstNode>,
    from: int,
    index: CommentIndex,
)
    requires
        0 <= from < children.len(),
        children[from].kind() == Kind::Comment,
    ensures
        ({
            let to = run_end(children, from + 1);
            &&& from < to <= children.len()
            &&& forall|i: int| from <= i < to ==> (#[trigger] children[i]).kind() == Kind::Comment
            &&& to < children.len() ==> children[to].kind() != Kind::Comment
            &&& collected_from(src, children, from, index) == collected_from(
                src,
                children,
                to,
                index.insert(children[to - 1].at.row, merged(src, children, from, to)),
            )
        }),
{
    lemma_run_end_bounds(children, from + 1);
}

/// Filing comments leaves alone what the index holds under a line that none
/// of them is filed under.
pub proof fn lemma_unfiled_row_is_kept(src: Seq<u8>, node: CstNode, index: CommentIndex, row: usize)
    requires
        !files_under(node, row),
    ensures
        collected(src, node, index).contains_key(row) == index.contains_key(row),
        collected(src, node, index)[row] == index[row],
    decreases node, 0nat,
{
    lemma_unfiled_row_is_kept_from(src, node.children@, 0, index, row);
}

/// Filing comments leaves alone what the index holds under a line that none
/// of them is filed under.
pub proof fn lemma_unfiled_row_is_kept_from(
    src: Seq<u8>,
    children: Seq<CstNode>,
    from: int,
    index: CommentIndex,
    row: usize,
)
    requires
        !files_under_from(children, from, row),
    ensures
        collected_from(src, children, from, index).contains_key(row) == index.contains_key(row),
        collected_from(src, children, from, index)[row] == index[row],
    decreases children, children.len() - from,
{
    if 0 <= from < children.len() {
        if children[from].kind() == Kind::Comment {
            let to = run_end(children, from + 1);
            lemma_run_end_bounds(children, from + 1);
            let filed = index.insert(children[to - 1].at.row, merged(src, children, from, to));
            lemma_unfiled_row_is_kept_from(src, children, to, filed, row);
        } else {
            lemma_unfiled_row_is_kept(src, children[from], index, row);
            lemma_unfiled_row_is_kept_from(
                src,
                children,
                from + 1,
                collected(src, children[from], index),
                row,
            );
        }
    }
}

/// What the index holds under the line of a run of comments, once the
/// comments among the children from `at` on are filed, where `at` is not
/// behind the first token of the run.
pub proof fn lemma_comment_run_is_held_from(
    src: Seq<u8>,
    children: Seq<CstNode>,
    at: int,
    from: int,
    index: CommentIndex,
)
    requires
        0 <= at <= from < children.len(),
        children[from].kind() == Kind::Comment,
        from == 0 || children[from - 1].kind() != Kind::Comment,
        !files_under_from(
            children,
            run_end(children, from + 1),
            children[run_end(children, from + 1) - 1].at.row,
        ),
    ensures
        ({
            let to = run_end(children, from + 1);
            let held = collected_from(src, children, at, index);
            &&& held.contains_key(children[to - 1].at.row)
            &&& held[children[to - 1].at.row] == merged(src, children, from, to)
        }),
    decreases from - at,
{
    let to = run_end(children, from + 1);
    lemma_run_end_bounds(children, from + 1);
    let row = children[to - 1].at.row;
    if at == from {
        let filed = index.insert(row, merged(src, children, from, to));
        lemma_unfiled_row_is_kept_from(src, children, to, filed, row);
    } else if children[at].kind() == Kind::Comment {
        let next = run_end(children, at + 1);
        lemma_run_end_bounds(children, at + 1);
        assert(next <= from - 1) by {
            if next > from - 1 {
                assert(children[from - 1].kind() == Kind::Comment);
            }
        }
        let filed = index.insert(children[next - 1].at.row, merged(src, children, at, next));
        lemma_comment_run_is_held_from(src, children, next, from, filed);
    } else {
        lemma_comment_run_is_held_from(
            src,
            children,
            at + 1,
            from,
            collected(src, children[at], index),
        );
    }
}

/// Comment lines that follow one another merge into one comment: where the
/// children `from..to` of a node are a whole run of comment tokens, the
/// index holds, once the comments below the node are filed, under the line
/// of the last token what the tokens say, joined by single spaces. That is
/// so whatever the index held before, as long as no comment behind the run
/// is filed under the same line, which would replace it.
pub proof fn law_comment_run_merges(src: Seq<u8>, node: CstNode, from: int, index: CommentIndex)
    requires
        0 <= from < node.children@.len(),
        node.children@[from].kind() == Kind::Comment,
        from == 0 || node.children@[from - 1].kind() != Kind::Comment,
        !files_under_from(
            node.children@,
            run_end(node.children@, from + 1),
            node.children@[run_end(node.children@, from + 1) - 1].at.row,
        ),
    ensures
        ({
            let to = run_end(node.children@, from + 1);
            let row = node.children@[to - 1].at.row;
            &&& from < to <= node.children@.len()
            &&& to < node.children@.len() ==> node.children@[to].kind() != Kind::Comment
            &&& collected(src, node, index).contains_key(row)
            &&& collected(src, node, index)[row] == merged(src, node.children@, from, to)
        }),
{
    lemma_run_end_bounds(node.children@, from + 1);
    lemma_comment_run_is_held_from(src, node.children@, 0, from, index);
}

/// The tokens of a comment are joined by single spaces, in source order.
pub proof fn law_comment_tokens_join_with_one_space(
    src: Seq<u8>,
    children: Seq<CstNode>,
    from: int,
    to: int,
)
    requires
        from < to,
    ensures
        merged(src, children, from, from + 1) == comment_text(src, children[from]),
        merged(src, children, from, to + 1) == merged(src, children, from, to) + seq![' ']
            + comment_text(src, children[to]),
{
}

/// A comment on the line of a value goes before a comment on the line above
/// it.
pub proof fn law_inline_comment_wins(index: CommentIndex, row: usize)
    requires
        index.contains_key(row),
    ensures
        comment_for(index, row) == Some(index[row]),
        forall|value: ScalarTypeView|
            !is_container(value) ==> (#[trigger] attached(bare(value), index, row)).comment
                == Some(index[row]),
{
}

/// A value without a comment on its line has the comment that ends on the
/// line above it, and none where there is none either.
pub proof fn law_comment_above_is_next(index: CommentIndex, row: usize)
    requires
        !index.contains_key(row),
    ensures
        row > 0 && index.contains_key((row - 1) as usize) ==> comment_for(index, row) == Some(
            index[(row - 1) as usize],
        ),
        row == 0 || !index.contains_key((row - 1) as usize) ==> comment_for(index, row) is None,
{
}

/// No node denotes a value that has a comment before one is attached.
pub proof fn lemma_value_is_bare(src: Seq<u8>, index: CommentIndex, node: CstNode)
    ensures
        value_outcome(src, index, node) matches Ok(scalar) ==> scalar.comment is None,
    decreases node,
{
    if (node.kind() == Kind::FlowNode || node.kind() == Kind::BlockNode) && node.children@.len() > 0 {
        lemma_value_is_bare(src, index, node.children@[0]);
    }
}

/// A list or a mapping carries no comment of its own.
pub proof fn law_container_has_no_comment(src: Seq<u8>, index: CommentIndex, node: CstNode)
    ensures
        tree_outcome(src, index, node) matches Ok(scalar) ==> (is_container(scalar.value)
            ==> scalar.comment is None),
    decreases node,
{
    let i = content_index(node.children@, 0);
    if 0 <= i < node.children@.len() {
        let child = node.children@[i];
        if child.kind() == Kind::Document || child.kind() == Kind::Stream {
            law_container_has_no_comment(src, index, child);
        } else {
            lemma_value_is_bare(src, index, child);
        }
    }
}

/// Where every child is passed over, the search for content finds none.
pub proof fn lemma_no_content(children: Seq<CstNode>, from: int)
    requires
        0 <= from <= children.len(),
        forall|i: int| from <= i < children.len() ==> is_skipped((#[trigger] children[i]).kind()),
    ensures
        content_index(children, from) == children.len(),
    decreases children.len() - from,
{
    if from < children.len() {
        lemma_no_content(children, from + 1);
    }
}

/// A tree that holds nothing but comments, or nothing at all, is no
/// document, and that is no fault.
pub proof fn law_no_content_is_empty(src: Seq<u8>, root: CstNode)
    requires
        forall|i: int|
            0 <= i < root.children@.len() ==> is_skipped((#[trigger] root.children@[i]).kind()),
    ensures
        forall|index: CommentIndex|
            #[trigger] tree_outcome(src, index, root) == Err::<ScalarView, ParseError>(
                ParseError::EmptyDocument,
            ),
        document_outcome(src, root) == Ok::<Option<ScalarView>, Fault>(None),
{
    lemma_no_content(root.children@, 0);
}

/// A sequence without items of its kind among its first `count` children is
/// the empty list.
pub proof fn lemma_no_items(
    src: Seq<u8>,
    index: CommentIndex,
    children: Seq<CstNode>,
    item: Kind,
    count: nat,
)
    requires
        count <= children.len(),
        forall|i: int| 0 <= i < count ==> (#[trigger] children[i]).kind() != item,
    ensures
        items_outcome(src, index, children, item, count) == Ok::<Seq<ScalarView>, ParseError>(
            Seq::empty(),
        ),
    decreases count,
{
    if count > 0 {
        lemma_no_items(src, index, children, item, (count - 1) as nat);
    }
}

/// A mapping without entries among its first `count` children is the empty
/// mapping.
pub proof fn lemma_no_entries(src: Seq<u8>, index: CommentIndex, children: Seq<CstNode>, count: nat)
    requires
        count <= children.len(),
        forall|i: int|
            0 <= i < count ==> !is_pair((#[trigger] children[i]).kind()) && children[i].kind()
                != Kind::FlowNode,
    ensures
        entries_outcome(src, index, children, count) == Ok::<Seq<MapItemView>, Fault>(Seq::empty()),
    decreases count,
{
    if count > 0 {
        lemma_no_entries(src, index, children, (count - 1) as nat);
    }
}

/// An empty flow sequence is a list of no items, and an empty flow mapping a
/// mapping of no entries: neither is null.
pub proof fn law_empty_flow_containers(src: Seq<u8>, index: CommentIndex, node: CstNode)
    requires
        forall|i: int|
            0 <= i < node.children@.len() ==> !is_pair((#[trigger] node.children@[i]).kind())
                && node.children@[i].kind() != Kind::FlowNode,
    ensures
        node.kind() == Kind::FlowSequence ==> value_outcome(src, index, node) == Ok::<
            ScalarView,
            Fault,
        >(bare(ScalarTypeView::List(Seq::empty()))),
        node.kind() == Kind::FlowMapping ==> value_outcome(src, index, node) == Ok::<
            ScalarView,
            Fault,
        >(bare(ScalarTypeView::Mapping(Seq::empty()))),
{
    lemma_no_items(src, index, node.children@, Kind::FlowNode, node.children@.len());
    lemma_no_entries(src, index, node.children@, node.children@.len());
    assert(sequence_outcome(src, index, node, Kind::FlowNode) == Ok::<
        Seq<ScalarView>,
        ParseError,
    >(Seq::empty()));
    assert(mapping_outcome(src, index, node) == Ok::<Seq<MapItemView>, Fault>(Seq::empty()));
}

/// A pair that holds no value has the value null, without a comment.
pub proof fn law_missing_value_is_null(src: Seq<u8>, index: CommentIndex, pair: CstNode)
    requires
        field_index(pair.children@, Field::Value, 0) >= pair.children@.len(),
        pair_outcome(src, index, pair) is Ok,
    ensures
        pair_outcome(src, index, pair)->Ok_0.value == null_scalar(),
        null_scalar().value is Null,
        null_scalar().comment is None,
{
}

/// A bare flow node among the children of a mapping is an entry of its own:
/// its key, with the value null and no comment.
pub proof fn law_key_only_entry_is_null(
    src: Seq<u8>,
    index: CommentIndex,
    children: Seq<CstNode>,
    count: nat,
)
    requires
        0 < count <= children.len(),
        children[count - 1].kind() == Kind::FlowNode,
        entries_outcome(src, index, children, count) is Ok,
    ensures
        key_outcome(src, children[count - 1]) is Ok,
        entries_outcome(src, index, children, count)->Ok_0.last() == (MapItemView {
            key: key_outcome(src, children[count - 1])->Ok_0,
            value: null_scalar(),
        }),
{
}

/// The children among the first `count` that are entries of a mapping, by
/// their indices in source order.
pub open spec fn entry_positions(children: Seq<CstNode>, count: nat) -> Seq<int>
    decreases count,
{
    if count == 0 || count > children.len() {
        Seq::empty()
    } else if is_pair(children[count - 1].kind()) || children[count - 1].kind() == Kind::FlowNode {
        entry_positions(children, (count - 1) as nat).push(count - 1)
    } else {
        entry_positions(children, (count - 1) as nat)
    }
}

/// The entry that one child of a mapping denotes.
pub open spec fn entry_outcome(src: Seq<u8>, index: CommentIndex, child: CstNode) -> Result<
    MapItemView,
    Fault,
> {
    if is_pair(child.kind()) {
        pair_outcome(src, index, child)
    } else {
        match key_outcome(src, child) {
            Ok(key) => Ok(MapItemView { key, value: null_scalar() }),
            Err(fault) => Err(fault),
        }
    }
}

/// The entries of a mapping stand in the order of the source: one for each
/// child that is an entry, none left out for a key that came before, and
/// none moved.
pub proof fn law_entries_keep_source_order(
    src: Seq<u8>,
    index: CommentIndex,
    children: Seq<CstNode>,
    count: nat,
)
    requires
        count <= children.len(),
        entries_outcome(src, index, children, count) is Ok,
    ensures
        entries_outcome(src, index, children, count)->Ok_0.len() == entry_positions(
            children,
            count,
        ).len(),
        forall|j: int|
            0 <= j < entry_positions(children, count).len() ==> {
                let at = #[trigger] entry_positions(children, count)[j];
                &&& 0 <= at < count
                &&& entry_outcome(src, index, children[at]) == Ok::<MapItemView, Fault>(
                    entries_outcome(src, index, children, count)->Ok_0[j],
                )
            },
        forall|j: int, k: int|
            0 <= j < k < entry_positions(children, count).len() ==> entry_positions(
                children,
                count,
            )[j] < entry_positions(children, count)[k],
    decreases count,
{
    if count > 0 {
        law_entries_keep_source_order(src, index, children, (count - 1) as nat);
    }
}

/// A sequence or a mapping is no key, and neither is a wrapper around one.
pub proof fn law_collection_is_no_key(src: Seq<u8>, node: CstNode)
    ensures
        is_collection(node.kind()) ==> key_outcome(src, node) == Err::<Seq<char>, Fault>(
            Fault::ComplexKey { at: node.at },
        ),
        (node.kind() == Kind::FlowNode || node.kind() == Kind::BlockNode) && node.children@.len() > 0
            && is_collection(node.children@[0].kind()) ==> key_outcome(src, node) == Err::<
            Seq<char>,
            Fault,
        >(Fault::ComplexKey { at: node.children@[0].at }),
{
    if (node.kind() == Kind::FlowNode || node.kind() == Kind::BlockNode) && node.children@.len() > 0
        && is_collection(node.children@[0].kind()) {
        assert(key_outcome(src, node) == key_outcome(src, node.children@[0]));
    }
}

/// A pair whose key is a sequence or a mapping, or a wrapper around one, is
/// refused: it is no entry with the text of the collection as its key.
pub proof fn law_pair_with_collection_key_is_refused(
    src: Seq<u8>,
    index: CommentIndex,
    pair: CstNode,
)
    requires
        0 <= field_index(pair.children@, Field::Key, 0) < pair.children@.len(),
    ensures
        ({
            let key = pair.children@[field_index(pair.children@, Field::Key, 0)];
            &&& is_collection(key.kind()) ==> pair_outcome(src, index, pair) == Err::<
                MapItemView,
                Fault,
            >(Fault::ComplexKey { at: key.at })
            &&& (key.kind() == Kind::FlowNode || key.kind() == Kind::BlockNode) && key.children@.len()
                > 0 && is_collection(key.children@[0].kind()) ==> pair_outcome(src, index, pair)
                == Err::<MapItemView, Fault>(Fault::ComplexKey { at: key.children@[0].at })
        }),
{
    law_collection_is_no_key(src, pair.children@[field_index(pair.children@, Field::Key, 0)]);
}

/// A sequence fails where one of its items does.
pub proof fn lemma_items_fail_from(
    src: Seq<u8>,
    index: CommentIndex,
    children: Seq<CstNode>,
    item: Kind,
    i: int,
    count: nat,
)
    requires
        0 <= i < count <= children.len(),
        children[i].kind() == item,
        tree_outcome(src, index, children[i]) is Err,
    ensures
        items_outcome(src, index, children, item, count) is Err,
    decreases count,
{
    if i + 1 < count {
        lemma_items_fail_from(src, index, children, item, i, (count - 1) as nat);
    }
}

/// A mapping fails where one of its entries does.
pub proof fn lemma_entries_fail_from(
    src: Seq<u8>,
    index: CommentIndex,
    children: Seq<CstNode>,
    i: int,
    count: nat,
)
    requires
        0 <= i < count <= children.len(),
        (is_pair(children[i].kind()) && pair_outcome(src, index, children[i]) is Err) || (
        children[i].kind() == Kind::FlowNode && key_outcome(src, children[i]) is Err),
    ensures
        entries_outcome(src, index, children, count) is Err,
    decreases count,
{
    if i + 1 < count {
        lemma_entries_fail_from(src, index, children, i, (count - 1) as nat);
    }
}

/// A mapping with a pair whose key is refused has no value.
pub proof fn law_refused_key_fails_mapping(
    src: Seq<u8>,
    index: CommentIndex,
    node: CstNode,
    i: int,
)
    requires
        node.kind() == Kind::BlockMapping || node.kind() == Kind::FlowMapping,
        0 <= i < node.children@.len(),
        is_pair(node.children@[i].kind()),
        pair_outcome(src, index, node.children@[i]) is Err,
    ensures
        value_outcome(src, index, node) is Err,
{
    lemma_entries_fail_from(src, index, node.children@, i, node.children@.len());
    assert(mapping_outcome(src, index, node) is Err);
}

/// There is no partial document: a list with an item that fails, and a
/// mapping with an entry that fails, have no value.
pub proof fn law_one_failure_fails_the_collection(
    src: Seq<u8>,
    index: CommentIndex,
    node: CstNode,
    i: int,
)
    requires
        0 <= i < node.children@.len(),
    ensures
        node.kind() == Kind::BlockSequence && node.children@[i].kind() == Kind::BlockSequenceItem
            && tree_outcome(src, index, node.children@[i]) is Err ==> value_outcome(
            src,
            index,
            node,
        ) is Err,
        node.kind() == Kind::FlowSequence && node.children@[i].kind() == Kind::FlowNode
            && tree_outcome(src, index, node.children@[i]) is Err ==> value_outcome(
            src,
            index,
            node,
        ) is Err,
        (node.kind() == Kind::BlockMapping || node.kind() == Kind::FlowMapping) && entry_outcome(
            src,
            index,
            node.children@[i],
        ) is Err && (is_pair(node.children@[i].kind()) || node.children@[i].kind() == Kind::FlowNode)
            ==> value_outcome(src, index, node) is Err,
{
    let children = node.children@;
    let count = children.len();
    if node.kind() == Kind::BlockSequence && children[i].kind() == Kind::BlockSequenceItem
        && tree_outcome(src, index, children[i]) is Err {
        lemma_items_fail_from(src, index, children, Kind::BlockSequenceItem, i, count);
        assert(sequence_outcome(src, index, node, Kind::BlockSequenceItem) is Err);
    }
    if node.kind() == Kind::FlowSequence && children[i].kind() == Kind::FlowNode && tree_outcome(
        src,
        index,
        children[i],
    ) is Err {
        lemma_items_fail_from(src, index, children, Kind::FlowNode, i, count);
        assert(sequence_outcome(src, index, node, Kind::FlowNode) is Err);
    }
    if (node.kind() == Kind::BlockMapping || node.kind() == Kind::FlowMapping) && entry_outcome(
        src,
        index,
        children[i],
    ) is Err && (is_pair(children[i].kind()) || children[i].kind() == Kind::FlowNode) {
        lemma_entries_fail_from(src, index, children, i, count);
        assert(mapping_outcome(src, index, node) is Err);
    }
}

} // verus!
