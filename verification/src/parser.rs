//! The compiler from a syntax tree to the document model: it files the
//! comments of the tree in an index, then walks the tree once and attaches
//! to each value the comment that the index holds for it.

use std::collections::HashMap;
use vstd::prelude::*;
use vstd::string::*;
use crate::comments::{
    collected, collected_from, comment_for, comment_text, merged, run_end, CommentIndex,
};
use crate::cst::{CstNode, Field, Kind};
use crate::document::{
    comment_view, entry_views, scalar_views, yields, yields_document, yields_entries,
    yields_items, MapItemView, ScalarView,
};
pub use crate::document::{Document, FloatValue, MapItem, Scalar, ScalarType};
pub use crate::error::{Fault, ParseError};
use crate::grammar::{grammar_tree, syntax_tree};
use crate::number::decode_integer;
use crate::scalar::{
    block_body_of, block_outcome, decode_boolean, decode_float, plain_outcome, quoted_outcome,
    quoted_text, text_of,
};
use crate::text::{slice, strip_comment};
use crate::transform::{
    attached, content_index, document_outcome, entries_outcome, items_outcome, key_outcome,
    lemma_entries_fail, lemma_items_fail, mapping_outcome, pair_outcome, sequence_outcome,
    tree_outcome, value_outcome,
};

verus! {

/// What the comments of a parser hold: the text of each, under its line.
pub open spec fn index_of(comments: Map<usize, String>) -> CommentIndex {
    Map::new(|row: usize| comments.contains_key(row), |row: usize| comments[row]@)
}

/// A compiler for one source text.
pub struct YamlParser<'a> {
    /// The source that the syntax tree was made from.
    pub source: &'a str,
    /// The comments filed so far, each under the line that it ends on.
    pub comments: HashMap<usize, String>,
}

impl<'a> YamlParser<'a> {
    /// The source as bytes.
    pub open spec fn src(&self) -> Seq<u8> {
        self.source.spec_bytes()
    }

    /// The comment index.
    pub open spec fn index(&self) -> CommentIndex {
        index_of(self.comments@)
    }

    /// A compiler for `source`, with no comment filed yet.
    pub fn new(source: &'a str) -> (r: Self)
        ensures
            r.source == source,
            r.index() == Map::<usize, Seq<char>>::empty(),
    {
        let r = YamlParser { source, comments: HashMap::new() };
        assert(r.index() =~= Map::<usize, Seq<char>>::empty());
        r
    }

    /// What a comment token says: its text without the marks that open it
    /// and without the white space around the rest.
    pub fn extract_comment_text(&self, node: &CstNode) -> (r: &'a str)
        ensures
            r@ == comment_text(self.src(), *node),
    {
        match slice(self.source, node.start, node.end) {
            Some(token) => strip_comment(token),
            None => {
                let empty = self.source.substring_char(0, 0);
                assert(empty@ =~= Seq::<char>::empty());
                empty
            },
        }
    }

    /// The comment of the value that `node` is: the one that ends on the line
    /// where the node starts, else the one that ends on the line before.
    pub fn find_comment_for_node(&self, node: &CstNode) -> (r: Option<String>)
        ensures
            comment_view(r) == comment_for(self.index(), node.at.row),
    {
        let row = node.at.row;
        match self.comments.get(&row) {
            Some(comment) => {
                return Some(comment.clone());
            },
            None => {},
        }
        if row > 0 {
            let above = row - 1;
            match self.comments.get(&above) {
                Some(comment) => {
                    return Some(comment.clone());
                },
                None => {},
            }
        }
        None
    }

    /// Files the comments below `node` in the index. A run of comment tokens
    /// with no other node between them is one comment, its tokens joined by
    /// single spaces, under the line on which the last token starts. A later
    /// comment on the same line replaces an earlier one.
    pub fn parse_comments(&mut self, node: &CstNode)
        ensures
            final(self).source == old(self).source,
            final(self).index() == collected(old(self).src(), *node, old(self).index()),
        decreases node,
    {
        let len = node.children.len();
        let mut i: usize = 0;
        while i < len
            invariant
                i <= len,
                len == node.children@.len(),
                self.source == old(self).source,
                collected_from(self.src(), node.children@, i as int, self.index())
                    == collected_from(old(self).src(), node.children@, 0, old(self).index()),
            decreases len - i,
        {
            let child = &node.children[i];
            if child.kind() == Kind::Comment {
                let mut joined = String::new();
                joined.append(self.extract_comment_text(child));
                let mut last_row = child.at.row;
                let mut j: usize = i + 1;
                while j < len && node.children[j].kind() == Kind::Comment
                    invariant
                        i < j <= len,
                        len == node.children@.len(),
                        run_end(node.children@, i + 1) == run_end(node.children@, j as int),
                        joined@ == merged(self.src(), node.children@, i as int, j as int),
                        last_row == node.children@[j - 1].at.row,
                    decreases len - j,
                {
                    proof {
                        reveal_strlit(" ");
                    }
                    joined.append(" ");
                    joined.append(self.extract_comment_text(&node.children[j]));
                    last_row = node.children[j].at.row;
                    assert(" "@ =~= seq![' ']);
                    j = j + 1;
                }
                let ghost before = self.index();
                self.comments.insert(last_row, joined);
                assert(self.index() =~= before.insert(last_row, joined@));
                i = j;
            } else {
                self.parse_comments(child);
                i = i + 1;
            }
        }
    }

    /// Compiles the content of a wrapper: the first child that is neither a
    /// dash nor a comment. A document or a stream in that place is compiled
    /// as a wrapper in turn; anything else is a value, which gets the comment
    /// that the index holds for it. A wrapper without content is empty.
    pub fn parse_tree(&self, node: &CstNode) -> (r: Result<Scalar<'a>, ParseError>)
        ensures
            yields(r, tree_outcome(self.src(), self.index(), *node)),
        decreases node, 0nat,
    {
        let len = node.children.len();
        let mut i: usize = 0;
        while i < len
            invariant
                i <= len,
                len == node.children@.len(),
                content_index(node.children@, 0) == content_index(node.children@, i as int),
            decreases len - i,
        {
            let child = &node.children[i];
            match child.kind() {
                Kind::Document | Kind::Stream => {
                    return self.parse_tree(child);
                },
                Kind::Dash | Kind::Comment => {},
                _ => {
                    return match self.parse_value(child) {
                        Ok(scalar) => Ok(self.attach_comment(scalar, child)),
                        Err(fault) => Err(ParseError::Generic(fault)),
                    };
                },
            }
            i = i + 1;
        }
        Err(ParseError::EmptyDocument)
    }

    /// Gives a value the comment that the index holds for the node it was
    /// made from. A value that has a comment keeps it; a list or a mapping
    /// gets none.
    pub fn attach_comment(&self, scalar: Scalar<'a>, node: &CstNode) -> (r: Scalar<'a>)
        ensures
            r@ == attached(scalar@, self.index(), node.at.row),
    {
        let wanted = match &scalar.value {
            ScalarType::List(_) => false,
            ScalarType::Mapping(_) => false,
            _ => scalar.comment.is_none(),
        };
        if wanted {
            Scalar { value: scalar.value, comment: self.find_comment_for_node(node) }
        } else {
            scalar
        }
    }

    /// Compiles a node that stands where a value is expected. The value has
    /// no comment yet.
    pub fn parse_value(&self, node: &CstNode) -> (r: Result<Scalar<'a>, Fault>)
        ensures
            yields(r, value_outcome(self.src(), self.index(), *node)),
        decreases node, 3nat,
    {
        match node.kind() {
            Kind::FlowNode | Kind::BlockNode => {
                if node.children.len() > 0 {
                    self.parse_value(&node.children[0])
                } else {
                    Err(Fault::EmptyWrapper)
                }
            },
            Kind::PlainScalar => self.parse_plain_scalar(node),
            Kind::SingleQuoteScalar | Kind::DoubleQuoteScalar => self.parse_quoted_scalar(node),
            Kind::BlockScalar => self.parse_block_scalar(node),
            Kind::BlockSequence => match self.parse_block_sequence(node) {
                Ok(items) => Ok(Scalar { value: ScalarType::List(items), comment: None }),
                Err(error) => Err(error.into_fault()),
            },
            Kind::BlockMapping | Kind::FlowMapping => match self.parse_mapping(node) {
                Ok(entries) => Ok(Scalar { value: ScalarType::Mapping(entries), comment: None }),
                Err(fault) => Err(fault),
            },
            Kind::FlowSequence => match self.parse_flow_sequence(node) {
                Ok(items) => Ok(Scalar { value: ScalarType::List(items), comment: None }),
                Err(error) => Err(error.into_fault()),
            },
            _ => Err(Fault::UnexpectedKind { label: node.label.clone(), at: node.at }),
        }
    }

    /// Compiles a quoted scalar: its text without the first and the last
    /// character. Escapes are not interpreted.
    pub fn parse_quoted_scalar(&self, node: &CstNode) -> (r: Result<Scalar<'a>, Fault>)
        ensures
            yields(r, quoted_outcome(self.src(), *node)),
    {
        match self.quoted(node) {
            Ok(text) => Ok(Scalar { value: ScalarType::String(text), comment: None }),
            Err(fault) => Err(fault),
        }
    }

    /// What stands between the quotes of a quoted scalar.
    pub fn quoted(&self, node: &CstNode) -> (r: Result<&'a str, Fault>)
        ensures
            yields(r, quoted_text(self.src(), *node)),
    {
        match text_of(self.source, node) {
            Ok(text) => {
                let len = text.unicode_len();
                if len >= 2 {
                    Ok(text.substring_char(1, len - 1))
                } else {
                    Err(Fault::InvalidSpan { at: node.at })
                }
            },
            Err(fault) => Err(fault),
        }
    }

    /// Compiles a block scalar: what follows its header line, as written.
    /// Neither folding nor chomping is applied.
    pub fn parse_block_scalar(&self, node: &CstNode) -> (r: Result<Scalar<'a>, Fault>)
        ensures
            yields(r, block_outcome(self.src(), *node)),
    {
        match text_of(self.source, node) {
            Ok(text) => Ok(
                Scalar { value: ScalarType::String(block_body_of(text)), comment: None },
            ),
            Err(fault) => Err(fault),
        }
    }

    /// Compiles a plain scalar: the literal that its first child types.
    pub fn parse_plain_scalar(&self, node: &CstNode) -> (r: Result<Scalar<'a>, Fault>)
        ensures
            yields(r, plain_outcome(self.src(), *node)),
    {
        if node.children.len() == 0 {
            return Err(Fault::EmptyPlainScalar);
        }
        let scalar = &node.children[0];
        let value = match scalar.kind() {
            Kind::IntegerScalar => {
                let text = match text_of(self.source, scalar) {
                    Ok(text) => text,
                    Err(fault) => {
                        return Err(fault);
                    },
                };
                match decode_integer(text.as_bytes()) {
                    Ok(value) => ScalarType::Integer(value),
                    Err(format) => {
                        return Err(Fault::InvalidInteger { format, at: scalar.at });
                    },
                }
            },
            Kind::FloatScalar => {
                let text = match text_of(self.source, scalar) {
                    Ok(text) => text,
                    Err(fault) => {
                        return Err(fault);
                    },
                };
                match decode_float(text) {
                    Some(value) => ScalarType::Float(value),
                    None => {
                        return Err(Fault::InvalidFloat { at: scalar.at });
                    },
                }
            },
            Kind::BooleanScalar => {
                let text = match text_of(self.source, scalar) {
                    Ok(text) => text,
                    Err(fault) => {
                        return Err(fault);
                    },
                };
                match decode_boolean(text.as_bytes()) {
                    Some(value) => ScalarType::Boolean(value),
                    None => {
                        return Err(Fault::InvalidBoolean { at: scalar.at });
                    },
                }
            },
            Kind::StringScalar => {
                match text_of(self.source, scalar) {
                    Ok(text) => ScalarType::String(text),
                    Err(fault) => {
                        return Err(fault);
                    },
                }
            },
            Kind::NullScalar => ScalarType::Null,
            _ => {
                return Err(Fault::UnexpectedKind { label: scalar.label.clone(), at: scalar.at });
            },
        };
        Ok(Scalar { value, comment: None })
    }

    /// Compiles the items of a block sequence, in source order.
    pub fn parse_block_sequence(&self, node: &CstNode) -> (r: Result<Vec<Scalar<'a>>, ParseError>)
        ensures
            yields_items(
                r,
                sequence_outcome(self.src(), self.index(), *node, Kind::BlockSequenceItem),
            ),
        decreases node, 2nat,
    {
        self.parse_items(node, Kind::BlockSequenceItem)
    }

    /// Compiles the items of a flow sequence, in source order.
    pub fn parse_flow_sequence(&self, node: &CstNode) -> (r: Result<Vec<Scalar<'a>>, ParseError>)
        ensures
            yields_items(r, sequence_outcome(self.src(), self.index(), *node, Kind::FlowNode)),
        decreases node, 2nat,
    {
        self.parse_items(node, Kind::FlowNode)
    }

    /// Compiles the children of kind `item` as the items of a sequence, in
    /// source order. The first item that fails ends the work.
    pub fn parse_items(&self, node: &CstNode, item: Kind) -> (r: Result<
        Vec<Scalar<'a>>,
        ParseError,
    >)
        ensures
            yields_items(r, sequence_outcome(self.src(), self.index(), *node, item)),
        decreases node, 1nat,
    {
        let len = node.children.len();
        let mut items: Vec<Scalar<'a>> = Vec::new();
        let mut i: usize = 0;
        assert(scalar_views(items@) =~= Seq::<ScalarView>::empty());
        while i < len
            invariant
                i <= len,
                len == node.children@.len(),
                items_outcome(self.src(), self.index(), node.children@, item, i as nat) == Ok::<
                    Seq<ScalarView>,
                    ParseError,
                >(scalar_views(items@)),
            decreases len - i,
        {
            let child = &node.children[i];
            let ghost before = items@;
            if child.kind() == item {
                match self.parse_tree(child) {
                    Ok(scalar) => {
                        items.push(scalar);
                        assert(scalar_views(items@) =~= scalar_views(before).push(scalar@));
                    },
                    Err(error) => {
                        proof {
                            lemma_items_fail(
                                self.src(),
                                self.index(),
                                node.children@,
                                item,
                                (i + 1) as nat,
                                len as nat,
                            );
                        }
                        return Err(error);
                    },
                }
            }
            i = i + 1;
        }
        Ok(items)
    }

    /// Compiles the entries of a mapping, in source order. A pair gives its
    /// key and its value, or null where it has no value; a bare flow node is
    /// a key without a value. Keys may repeat.
    pub fn parse_mapping(&self, node: &CstNode) -> (r: Result<Vec<MapItem<'a>>, Fault>)
        ensures
            yields_entries(r, mapping_outcome(self.src(), self.index(), *node)),
        decreases node, 2nat,
    {
        let len = node.children.len();
        let mut entries: Vec<MapItem<'a>> = Vec::new();
        let mut i: usize = 0;
        assert(entry_views(entries@) =~= Seq::<MapItemView>::empty());
        while i < len
            invariant
                i <= len,
                len == node.children@.len(),
                entries_outcome(self.src(), self.index(), node.children@, i as nat) == Ok::<
                    Seq<MapItemView>,
                    Fault,
                >(entry_views(entries@)),
            decreases len - i,
        {
            let child = &node.children[i];
            let ghost before = entries@;
            let entry = match child.kind() {
                Kind::BlockMappingPair | Kind::FlowPair => Some(self.parse_pair(child)),
                Kind::FlowNode => Some(
                    match self.parse_key_as_str(child) {
                        Ok(key) => Ok(
                            MapItem { key, value: Scalar { value: ScalarType::Null, comment: None } },
                        ),
                        Err(fault) => Err(fault),
                    },
                ),
                _ => None,
            };
            match entry {
                Some(Ok(entry)) => {
                    entries.push(entry);
                    assert(entry_views(entries@) =~= entry_views(before).push(entry@));
                },
                Some(Err(fault)) => {
                    proof {
                        lemma_entries_fail(
                            self.src(),
                            self.index(),
                            node.children@,
                            (i + 1) as nat,
                            len as nat,
                        );
                    }
                    return Err(fault);
                },
                None => {},
            }
            i = i + 1;
        }
        Ok(entries)
    }

    /// Compiles a pair of a mapping: the key, and the value that the pair
    /// holds under the field `value`, or null where it holds none.
    pub fn parse_pair(&self, pair: &CstNode) -> (r: Result<MapItem<'a>, Fault>)
        ensures
            yields(r, pair_outcome(self.src(), self.index(), *pair)),
        decreases pair, 1nat,
    {
        let key = match pair.child_by_field(Field::Key) {
            Some(key_node) => match self.parse_key_as_str(key_node) {
                Ok(key) => key,
                Err(fault) => {
                    return Err(fault);
                },
            },
            None => {
                return Err(Fault::MissingKey);
            },
        };
        let value = match pair.child_by_field(Field::Value) {
            Some(value_node) => match self.parse_tree(value_node) {
                Ok(value) => value,
                Err(error) => {
                    return Err(error.into_fault());
                },
            },
            None => Scalar { value: ScalarType::Null, comment: None },
        };
        Ok(MapItem { key, value })
    }

    /// Reads a node as a key: the text of a scalar as it is written, of a
    /// quoted scalar what stands between the quotes. A sequence or a mapping
    /// is refused.
    pub fn parse_key_as_str(&self, node: &CstNode) -> (r: Result<&'a str, Fault>)
        ensures
            yields(r, key_outcome(self.src(), *node)),
        decreases node,
    {
        match node.kind() {
            Kind::FlowNode | Kind::BlockNode => {
                if node.children.len() > 0 {
                    self.parse_key_as_str(&node.children[0])
                } else {
                    Err(Fault::EmptyKey)
                }
            },
            Kind::PlainScalar => {
                if node.children.len() > 0 {
                    text_of(self.source, &node.children[0])
                } else {
                    text_of(self.source, node)
                }
            },
            Kind::SingleQuoteScalar | Kind::DoubleQuoteScalar => self.quoted(node),
            Kind::BlockSequence | Kind::FlowSequence | Kind::BlockMapping | Kind::FlowMapping => {
                Err(Fault::ComplexKey { at: node.at })
            },
            _ => text_of(self.source, node),
        }
    }

    /// Compiles a whole tree: files its comments, then compiles its content.
    pub fn parse(&mut self, node: &CstNode) -> (r: Result<Scalar<'a>, ParseError>)
        ensures
            final(self).source == old(self).source,
            final(self).index() == collected(old(self).src(), *node, old(self).index()),
            yields(r, tree_outcome(final(self).src(), final(self).index(), *node)),
    {
        self.parse_comments(node);
        self.parse_tree(node)
    }
}

/// Compiles a syntax tree of `source`: the document, nothing where the
/// source holds no content, or the fault that makes the source malformed.
pub fn compile<'a>(source: &'a str, root: &CstNode) -> (r: Result<Option<Document<'a>>, Fault>)
    ensures
        yields_document(r, document_outcome(source.spec_bytes(), *root)),
{
    let mut parser = YamlParser::new(source);
    match parser.parse(root) {
        Ok(scalar) => Ok(Some(Document { root: scalar })),
        Err(ParseError::EmptyDocument) => Ok(None),
        Err(ParseError::Generic(fault)) => Err(fault),
    }
}

/// Compiles a YAML text: the outcome that the rules give for the syntax
/// tree that the grammar gives for the text. A text that the grammar gives
/// no tree for is a fault.
pub fn parse(text: &str) -> (r: Result<Option<Document<'_>>, Fault>)
    ensures
        match grammar_tree(text@) {
            Ok(root) => yields_document(r, document_outcome(text.spec_bytes(), root)),
            Err(fault) => r == Err::<Option<Document>, Fault>(fault),
        },
        grammar_tree(text@) matches Err(fault) ==> fault is Language || fault is NoTree,
{
    match syntax_tree(text) {
        Ok(root) => compile(text, &root),
        Err(fault) => Err(fault),
    }
}

} // verus!
