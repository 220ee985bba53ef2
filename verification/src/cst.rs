//! The concrete syntax tree that the compiler reads.
//!
//! A grammar-based parser produces the tree; here it is plain data. Each node
//! holds the grammar's label for it, the bytes of the source that it covers
//! and the place where it starts, and its children in source order. What
//! kind of node a label names is read off the label where it is asked for.

use vstd::prelude::*;
use vstd::string::*;
use crate::text::same_text;

verus! {

/// The kinds of node that the compiler tells apart.
#[derive(Debug, Clone, Copy, PartialEq, Eq, Structural)]
pub enum Kind {
    /// The whole source: a run of documents.
    Stream,
    /// One document of the stream.
    Document,
    /// A comment token.
    Comment,
    /// The dash that opens an item of a block sequence.
    Dash,
    /// A wrapper around a value in flow style.
    FlowNode,
    /// A wrapper around a value in block style.
    BlockNode,
    /// An unquoted scalar; its one child says of what type.
    PlainScalar,
    /// A scalar between single quotes.
    SingleQuoteScalar,
    /// A scalar between double quotes.
    DoubleQuoteScalar,
    /// A literal or folded block scalar, header line included.
    BlockScalar,
    /// A sequence in block style.
    BlockSequence,
    /// One item of a block sequence: the dash and the value.
    BlockSequenceItem,
    /// A sequence between square brackets.
    FlowSequence,
    /// A mapping in block style.
    BlockMapping,
    /// A mapping between braces.
    FlowMapping,
    /// One entry of a block mapping.
    BlockMappingPair,
    /// One entry of a flow mapping that has a colon.
    FlowPair,
    /// A plain scalar that the grammar read as an integer.
    IntegerScalar,
    /// A plain scalar that the grammar read as a float.
    FloatScalar,
    /// A plain scalar that the grammar read as a boolean.
    BooleanScalar,
    /// A plain scalar that the grammar read as a string.
    StringScalar,
    /// A plain scalar that the grammar read as null.
    NullScalar,
    /// Any other node of the grammar.
    Other,
}

/// The kind that a label of the grammar names.
pub open spec fn kind_of(label: Seq<char>) -> Kind {
    if label == "stream"@ {
        Kind::Stream
    } else if label == "document"@ {
        Kind::Document
    } else if label == "comment"@ {
        Kind::Comment
    } else if label == "-"@ {
        Kind::Dash
    } else if label == "flow_node"@ {
        Kind::FlowNode
    } else if label == "block_node"@ {
        Kind::BlockNode
    } else if label == "plain_scalar"@ {
        Kind::PlainScalar
    } else if label == "single_quote_scalar"@ {
        Kind::SingleQuoteScalar
    } else if label == "double_quote_scalar"@ {
        Kind::DoubleQuoteScalar
    } else if label == "block_scalar"@ {
        Kind::BlockScalar
    } else if label == "block_sequence"@ {
        Kind::BlockSequence
    } else if label == "block_sequence_item"@ {
        Kind::BlockSequenceItem
    } else if label == "flow_sequence"@ {
        Kind::FlowSequence
    } else if label == "block_mapping"@ {
        Kind::BlockMapping
    } else if label == "flow_mapping"@ {
        Kind::FlowMapping
    } else if label == "block_mapping_pair"@ {
        Kind::BlockMappingPair
    } else if label == "flow_pair"@ {
        Kind::FlowPair
    } else if label == "integer_scalar"@ {
        Kind::IntegerScalar
    } else if label == "float_scalar"@ {
        Kind::FloatScalar
    } else if label == "boolean_scalar"@ {
        Kind::BooleanScalar
    } else if label == "string_scalar"@ {
        Kind::StringScalar
    } else if label == "null_scalar"@ {
        Kind::NullScalar
    } else {
        Kind::Other
    }
}

/// Reads the kind off a label of the grammar.
pub fn classify(label: &str) -> (kind: Kind)
    ensures
        kind == kind_of(label@),
{
    if same_text(label, "stream") {
        Kind::Stream
    } else if same_text(label, "document") {
        Kind::Document
    } else if same_text(label, "comment") {
        Kind::Comment
    } else if same_text(label, "-") {
        Kind::Dash
    } else if same_text(label, "flow_node") {
        Kind::FlowNode
    } else if same_text(label, "block_node") {
        Kind::BlockNode
    } else if same_text(label, "plain_scalar") {
        Kind::PlainScalar
    } else if same_text(label, "single_quote_scalar") {
        Kind::SingleQuoteScalar
    } else if same_text(label, "double_quote_scalar") {
        Kind::DoubleQuoteScalar
    } else if same_text(label, "block_scalar") {
        Kind::BlockScalar
    } else if same_text(label, "block_sequence") {
        Kind::BlockSequence
    } else if same_text(label, "block_sequence_item") {
        Kind::BlockSequenceItem
    } else if same_text(label, "flow_sequence") {
        Kind::FlowSequence
    } else if same_text(label, "block_mapping") {
        Kind::BlockMapping
    } else if same_text(label, "flow_mapping") {
        Kind::FlowMapping
    } else if same_text(label, "block_mapping_pair") {
        Kind::BlockMappingPair
    } else if same_text(label, "flow_pair") {
        Kind::FlowPair
    } else if same_text(label, "integer_scalar") {
        Kind::IntegerScalar
    } else if same_text(label, "float_scalar") {
        Kind::FloatScalar
    } else if same_text(label, "boolean_scalar") {
        Kind::BooleanScalar
    } else if same_text(label, "string_scalar") {
        Kind::StringScalar
    } else if same_text(label, "null_scalar") {
        Kind::NullScalar
    } else {
        Kind::Other
    }
}

/// The fields by which a pair names its children.
#[derive(Debug, Clone, Copy, PartialEq, Eq, Structural)]
pub enum Field {
    Key,
    Value,
}

/// The field that a name of the grammar stands for, if the compiler reads it.
pub open spec fn field_of(name: Seq<char>) -> Option<Field> {
    if name == "key"@ {
        Some(Field::Key)
    } else if name == "value"@ {
        Some(Field::Value)
    } else {
        None
    }
}

/// Reads the field off a name of the grammar.
pub fn classify_field(name: &str) -> (field: Option<Field>)
    ensures
        field == field_of(name@),
{
    if same_text(name, "key") {
        Some(Field::Key)
    } else if same_text(name, "value") {
        Some(Field::Value)
    } else {
        None
    }
}

/// A place in the source, counted from zero.
#[derive(Debug, Clone, Copy, PartialEq, Eq, Structural)]
pub struct Position {
    pub row: usize,
    pub column: usize,
}

/// A node of the syntax tree, as the grammar gives it.
#[derive(Debug, PartialEq)]
pub struct CstNode {
    /// The grammar's name for what the node is.
    pub label: String,
    /// The grammar's name for the field under which the parent holds the
    /// node, if it holds it under one.
    pub field: Option<String>,
    /// The offset of the node's first byte in the source.
    pub start: usize,
    /// The offset behind the node's last byte.
    pub end: usize,
    /// Where the node starts.
    pub at: Position,
    /// The children, in source order.
    pub children: Vec<CstNode>,
}

/// The index of the first of `children`, from `from` on, that the parent
/// holds under `field`; the number of children where there is none.
pub open spec fn field_index(children: Seq<CstNode>, field: Field, from: int) -> int
    decreases children.len() - from,
{
    if 0 <= from < children.len() && children[from].held() != Some(field) {
        field_index(children, field, from + 1)
    } else {
        from
    }
}

impl CstNode {
    /// What the node is: the kind that its label names.
    pub open spec fn spec_kind(&self) -> Kind {
        kind_of(self.label@)
    }

    /// What the node is: the kind that its label names.
    #[verifier::when_used_as_spec(spec_kind)]
    pub fn kind(&self) -> (kind: Kind)
        ensures
            kind == self.spec_kind(),
    {
        classify(self.label.as_str())
    }

    /// The field under which the parent holds the node, if the compiler
    /// reads it.
    pub open spec fn spec_held(&self) -> Option<Field> {
        match self.field {
            Some(name) => field_of(name@),
            None => None,
        }
    }

    /// The field under which the parent holds the node, if the compiler
    /// reads it.
    #[verifier::when_used_as_spec(spec_held)]
    pub fn held(&self) -> (field: Option<Field>)
        ensures
            field == self.spec_held(),
    {
        match &self.field {
            Some(name) => classify_field(name.as_str()),
            None => None,
        }
    }

    /// The first child that the node holds under `field`.
    pub fn child_by_field(&self, field: Field) -> (r: Option<&CstNode>)
        ensures
            match r {
                Some(child) => {
                    let i = field_index(self.children@, field, 0);
                    0 <= i < self.children@.len() && *child == self.children@[i]
                },
                None => field_index(self.children@, field, 0) >= self.children@.len(),
            },
    {
        let mut i: usize = 0;
        while i < self.children.len()
            invariant
                i <= self.children@.len(),
                field_index(self.children@, field, 0) == field_index(self.children@, field, i as int),
            decreases self.children@.len() - i,
        {
            match self.children[i].held() {
                Some(f) => {
                    if f == field {
                        return Some(&self.children[i]);
                    }
                },
                None => {},
            }
            i = i + 1;
        }
        None
    }
}

} // verus!
