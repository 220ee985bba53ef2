//! How compiling a syntax tree can fail.

use vstd::prelude::*;
use vstd::string::*;
use crate::cst::Position;
use crate::number::{decimal, write_decimal, IntegerFormat};

verus! {

/// Why a syntax tree has no document model.
#[derive(Debug, PartialEq)]
pub enum Fault {
    /// An integer literal that is no numeral of its format, or that does not
    /// fit in 64 bits.
    InvalidInteger { format: IntegerFormat, at: Position },
    /// A float literal that is neither a special token nor a decimal number.
    InvalidFloat { at: Position },
    /// A boolean literal that is neither `true` nor `false`.
    InvalidBoolean { at: Position },
    /// A node of a kind that cannot stand where a value is expected.
    UnexpectedKind { label: String, at: Position },
    /// A flow or block wrapper without a child.
    EmptyWrapper,
    /// A plain scalar without the child that says of what type it is.
    EmptyPlainScalar,
    /// A wrapper without a child, where a key is expected.
    EmptyKey,
    /// A pair without a key.
    MissingKey,
    /// A sequence or a mapping where a key is expected.
    ComplexKey { at: Position },
    /// A sequence item or a mapping value that holds no content.
    EmptyValue,
    /// A node whose byte range does not cut its text out of the source.
    InvalidSpan { at: Position },
    /// The grammar could not be given to the syntax-tree parser.
    Language,
    /// The syntax-tree parser returned no tree.
    NoTree,
}

/// The outcome of compiling a tree that is no document.
#[derive(Debug, PartialEq)]
pub enum ParseError {
    /// The source holds no content: it is blank, or comments only.
    EmptyDocument,
    /// The source is malformed.
    Generic(Fault),
}

/// The fault that stands for an outcome inside a sequence or a mapping: a
/// fault as it is, and an item without content as a fault of its own.
pub open spec fn fault_of(error: ParseError) -> Fault {
    match error {
        ParseError::EmptyDocument => Fault::EmptyValue,
        ParseError::Generic(fault) => fault,
    }
}

impl ParseError {
    /// The fault that stands for this outcome inside a sequence or a mapping.
    pub fn into_fault(self) -> (r: Fault)
        ensures
            r == fault_of(self),
    {
        match self {
            ParseError::EmptyDocument => Fault::EmptyValue,
            ParseError::Generic(fault) => fault,
        }
    }
}

/// The words for a place: line and column, counted from one.
pub open spec fn place_text(at: Position) -> Seq<char> {
    " at line "@ + decimal((at.row + 1) as nat) + ", column "@ + decimal((at.column + 1) as nat)
}

/// Writes the words for a place at the end of `out`.
pub fn write_place(at: Position, out: &mut String)
    ensures
        final(out)@ == old(out)@ + place_text(at),
{
    out.append(" at line ");
    write_decimal(at.row as u128 + 1, out);
    out.append(", column ");
    write_decimal(at.column as u128 + 1, out);
    assert(out@ =~= old(out)@ + place_text(at));
}

/// The name of the format of an integer literal, as a message gives it:
/// with a space behind it, and none for decimal.
pub open spec fn format_text(format: IntegerFormat) -> Seq<char> {
    match format {
        IntegerFormat::Decimal => Seq::empty(),
        IntegerFormat::Hexadecimal => "hexadecimal "@,
        IntegerFormat::Octal => "octal "@,
    }
}

impl Fault {
    /// The message of the fault.
    pub open spec fn message_text(self) -> Seq<char> {
        match self {
            Fault::InvalidInteger { format, at } => "invalid "@ + format_text(format) + "integer"@
                + place_text(at),
            Fault::InvalidFloat { at } => "invalid float"@ + place_text(at),
            Fault::InvalidBoolean { at } => "invalid boolean"@ + place_text(at),
            Fault::UnexpectedKind { label, at } => "unexpected node kind "@ + label@ + place_text(
                at,
            ),
            Fault::EmptyWrapper => "flow_node/block_node should have a child"@,
            Fault::EmptyPlainScalar => "should have a child"@,
            Fault::EmptyKey => "expected child node"@,
            Fault::MissingKey => "mandatory map key is missing"@,
            Fault::ComplexKey { at } => "complex types cannot be used as map keys"@ + place_text(
                at,
            ),
            Fault::EmptyValue => "an empty document"@,
            Fault::InvalidSpan { at } => "node outside the source text"@ + place_text(at),
            Fault::Language => "failed to set YAML language"@,
            Fault::NoTree => "failed to parse YAML document"@,
        }
    }

    /// Writes the message of the fault.
    pub fn message(&self) -> (r: String)
        ensures
            r@ == self.message_text(),
    {
        let mut out = String::new();
        match self {
            Fault::InvalidInteger { format, at } => {
                out.append("invalid ");
                match format {
                    IntegerFormat::Decimal => {},
                    IntegerFormat::Hexadecimal => {
                        out.append("hexadecimal ");
                    },
                    IntegerFormat::Octal => {
                        out.append("octal ");
                    },
                }
                out.append("integer");
                write_place(*at, &mut out);
            },
            Fault::InvalidFloat { at } => {
                out.append("invalid float");
                write_place(*at, &mut out);
            },
            Fault::InvalidBoolean { at } => {
                out.append("invalid boolean");
                write_place(*at, &mut out);
            },
            Fault::UnexpectedKind { label, at } => {
                out.append("unexpected node kind ");
                out.append(label.as_str());
                write_place(*at, &mut out);
            },
            Fault::EmptyWrapper => {
                out.append("flow_node/block_node should have a child");
            },
            Fault::EmptyPlainScalar => {
                out.append("should have a child");
            },
            Fault::EmptyKey => {
                out.append("expected child node");
            },
            Fault::MissingKey => {
                out.append("mandatory map key is missing");
            },
            Fault::ComplexKey { at } => {
                out.append("complex types cannot be used as map keys");
                write_place(*at, &mut out);
            },
            Fault::EmptyValue => {
                out.append("an empty document");
            },
            Fault::InvalidSpan { at } => {
                out.append("node outside the source text");
                write_place(*at, &mut out);
            },
            Fault::Language => {
                out.append("failed to set YAML language");
            },
            Fault::NoTree => {
                out.append("failed to parse YAML document");
            },
        }
        assert(out@ =~= self.message_text());
        out
    }
}

impl ParseError {
    /// The message of the outcome.
    pub open spec fn message_text(self) -> Seq<char> {
        match self {
            ParseError::EmptyDocument => "an empty document"@,
            ParseError::Generic(fault) => "parsing error: "@ + fault.message_text(),
        }
    }

    /// Writes the message of the outcome.
    pub fn message(&self) -> (r: String)
        ensures
            r@ == self.message_text(),
    {
        let mut out = String::new();
        match self {
            ParseError::EmptyDocument => {
                out.append("an empty document");
            },
            ParseError::Generic(fault) => {
                out.append("parsing error: ");
                let text = fault.message();
                out.append(text.as_str());
            },
        }
        assert(out@ =~= self.message_text());
        out
    }
}

} // verus!
