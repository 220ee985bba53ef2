//! Decoding scalar literals: from the text of a node and the type that the
//! grammar gave it to a value of the document model.

use vstd::prelude::*;
use vstd::string::*;
use vstd::utf8::*;
use crate::cst::{CstNode, Kind};
use crate::document::{yields, FloatValue, FloatView, ScalarTypeView, ScalarView};
use crate::error::Fault;
use crate::number::{
    decimal_number, decode_integer, has_sign, integer_literal, is_decimal_number, spells,
    spells_word, unsigned_part, MINUS, PLUS,
};
use crate::text::{chars_between, cuts, lemma_boundary_after_ascii, same_bytes, slice};

verus! {

/// The byte that ends a line.
pub const NEWLINE: u8 = 0x0a;

/// Whether the byte range of a node cuts its text out of the source.
pub open spec fn span_cuts(src: Seq<u8>, node: CstNode) -> bool {
    cuts(src, node.start as int, node.end as int)
}

/// The bytes of the source that a node covers.
pub open spec fn span_bytes(src: Seq<u8>, node: CstNode) -> Seq<u8> {
    src.subrange(node.start as int, node.end as int)
}

/// The text of a node, where its byte range cuts one out of the source.
pub open spec fn node_text(src: Seq<u8>, node: CstNode) -> Result<Seq<char>, Fault> {
    if span_cuts(src, node) {
        Ok(decode_utf8(span_bytes(src, node)))
    } else {
        Err(Fault::InvalidSpan { at: node.at })
    }
}

/// A value without a comment.
pub open spec fn bare(value: ScalarTypeView) -> ScalarView {
    ScalarView { value, comment: None }
}

/// What a float literal denotes. The tokens `.inf`, `-.inf` and `.nan`, in
/// any letter case, are the infinities and NaN. Any other literal is read as
/// the standard library reads a float: an optional sign, then `inf`,
/// `infinity` or `nan` in any letter case, or a decimal number, which is kept
/// as written. `None` where the text is none of these.
pub open spec fn float_literal(text: Seq<u8>) -> Option<FloatView> {
    let body = unsigned_part(text);
    let negative = has_sign(text) && text[0] == MINUS;
    if spells(text, ".inf".spec_bytes()) {
        Some(FloatView::Infinity)
    } else if spells(text, "-.inf".spec_bytes()) {
        Some(FloatView::NegInfinity)
    } else if spells(text, ".nan".spec_bytes()) {
        Some(FloatView::NaN)
    } else if spells(body, "inf".spec_bytes()) || spells(body, "infinity".spec_bytes()) {
        if negative {
            Some(FloatView::NegInfinity)
        } else {
            Some(FloatView::Infinity)
        }
    } else if spells(body, "nan".spec_bytes()) {
        Some(FloatView::NaN)
    } else if is_decimal_number(body) {
        Some(FloatView::Decimal(decode_utf8(text)))
    } else {
        None
    }
}

/// Reads a float literal.
pub fn decode_float<'a>(text: &'a str) -> (r: Option<FloatValue<'a>>)
    ensures
        match r {
            Some(value) => float_literal(text.spec_bytes()) == Some(value@),
            None => float_literal(text.spec_bytes()) is None,
        },
{
    let bytes = text.as_bytes();
    let len = bytes.len();
    let signed = len > 0 && (bytes[0] == PLUS || bytes[0] == MINUS);
    let negative = len > 0 && bytes[0] == MINUS;
    let body = if signed {
        vstd::slice::slice_subrange(bytes, 1, len)
    } else {
        bytes
    };
    assert(body@ =~= unsigned_part(bytes@));
    proof {
        encode_utf8_decode_utf8(text@);
    }
    if spells_word(bytes, ".inf".as_bytes()) {
        Some(FloatValue::Infinity)
    } else if spells_word(bytes, "-.inf".as_bytes()) {
        Some(FloatValue::NegInfinity)
    } else if spells_word(bytes, ".nan".as_bytes()) {
        Some(FloatValue::NaN)
    } else if spells_word(body, "inf".as_bytes()) || spells_word(body, "infinity".as_bytes()) {
        if negative {
            Some(FloatValue::NegInfinity)
        } else {
            Some(FloatValue::Infinity)
        }
    } else if spells_word(body, "nan".as_bytes()) {
        Some(FloatValue::NaN)
    } else if decimal_number(body) {
        Some(FloatValue::Decimal(text))
    } else {
        None
    }
}

/// What a boolean literal denotes: `true` or `false`, spelled exactly so.
pub open spec fn boolean_literal(text: Seq<u8>) -> Option<bool> {
    if text == "true".spec_bytes() {
        Some(true)
    } else if text == "false".spec_bytes() {
        Some(false)
    } else {
        None
    }
}

/// Reads a boolean literal.
pub fn decode_boolean(text: &[u8]) -> (r: Option<bool>)
    ensures
        r == boolean_literal(text@),
{
    if same_bytes(text, "true".as_bytes()) {
        Some(true)
    } else if same_bytes(text, "false".as_bytes()) {
        Some(false)
    } else {
        None
    }
}

/// The value of the node that types a plain scalar.
pub open spec fn typed_value(src: Seq<u8>, node: CstNode) -> Result<ScalarTypeView, Fault> {
    let text = span_bytes(src, node);
    match node.kind() {
        Kind::NullScalar => Ok(ScalarTypeView::Null),
        Kind::IntegerScalar | Kind::FloatScalar | Kind::BooleanScalar | Kind::StringScalar => {
            if !span_cuts(src, node) {
                Err(Fault::InvalidSpan { at: node.at })
            } else {
                match node.kind() {
                    Kind::IntegerScalar => match integer_literal(text) {
                        Ok(v) => Ok(ScalarTypeView::Integer(v)),
                        Err(format) => Err(Fault::InvalidInteger { format, at: node.at }),
                    },
                    Kind::FloatScalar => match float_literal(text) {
                        Some(v) => Ok(ScalarTypeView::Float(v)),
                        None => Err(Fault::InvalidFloat { at: node.at }),
                    },
                    Kind::BooleanScalar => match boolean_literal(text) {
                        Some(v) => Ok(ScalarTypeView::Boolean(v)),
                        None => Err(Fault::InvalidBoolean { at: node.at }),
                    },
                    _ => Ok(ScalarTypeView::String(decode_utf8(text))),
                }
            }
        },
        _ => Err(Fault::UnexpectedKind { label: node.label, at: node.at }),
    }
}

/// What a plain scalar denotes: the value of its first child.
pub open spec fn plain_value(src: Seq<u8>, node: CstNode) -> Result<ScalarTypeView, Fault> {
    if node.children@.len() == 0 {
        Err(Fault::EmptyPlainScalar)
    } else {
        typed_value(src, node.children@[0])
    }
}

/// What a plain scalar denotes, without a comment.
pub open spec fn plain_outcome(src: Seq<u8>, node: CstNode) -> Result<ScalarView, Fault> {
    match plain_value(src, node) {
        Ok(value) => Ok(bare(value)),
        Err(fault) => Err(fault),
    }
}

/// What stands between the quotes of a quoted scalar: its text without the
/// first and the last character, escapes as they were written. A text of
/// fewer than two characters is no quoted scalar.
pub open spec fn quoted_text(src: Seq<u8>, node: CstNode) -> Result<Seq<char>, Fault> {
    match node_text(src, node) {
        Ok(text) => if text.len() >= 2 {
            Ok(text.subrange(1, text.len() - 1))
        } else {
            Err(Fault::InvalidSpan { at: node.at })
        },
        Err(fault) => Err(fault),
    }
}

/// What a quoted scalar denotes: the string between its quotes, without a
/// comment.
pub open spec fn quoted_outcome(src: Seq<u8>, node: CstNode) -> Result<ScalarView, Fault> {
    match quoted_text(src, node) {
        Ok(text) => Ok(bare(ScalarTypeView::String(text))),
        Err(fault) => Err(fault),
    }
}

/// Where the first line of `text` ends: the index of the first newline from
/// `from` on, or the length of the text.
pub open spec fn line_end(text: Seq<u8>, from: int) -> int
    decreases text.len() - from,
{
    if 0 <= from < text.len() && text[from] != NEWLINE {
        line_end(text, from + 1)
    } else {
        from
    }
}

/// The body of a block scalar: what follows the header line, as written.
/// A block scalar of one line has an empty body.
pub open spec fn block_body(text: Seq<u8>) -> Seq<char> {
    let end = line_end(text, 0);
    if end < text.len() {
        chars_between(text, end + 1, text.len() as int)
    } else {
        Seq::empty()
    }
}

/// The text of a block scalar node.
pub open spec fn block_text(src: Seq<u8>, node: CstNode) -> Result<Seq<char>, Fault> {
    if span_cuts(src, node) {
        Ok(block_body(span_bytes(src, node)))
    } else {
        Err(Fault::InvalidSpan { at: node.at })
    }
}

/// What a block scalar denotes: the string that is its body, without a
/// comment.
pub open spec fn block_outcome(src: Seq<u8>, node: CstNode) -> Result<ScalarView, Fault> {
    match block_text(src, node) {
        Ok(text) => Ok(bare(ScalarTypeView::String(text))),
        Err(fault) => Err(fault),
    }
}

/// Cuts the text of a node out of the source.
pub fn text_of<'a>(source: &'a str, node: &CstNode) -> (r: Result<&'a str, Fault>)
    ensures
        yields(r, node_text(source.spec_bytes(), *node)),
        r matches Ok(text) ==> span_cuts(source.spec_bytes(), *node) && text.spec_bytes()
            == span_bytes(source.spec_bytes(), *node),
{
    match slice(source, node.start, node.end) {
        Some(text) => Ok(text),
        None => Err(Fault::InvalidSpan { at: node.at }),
    }
}

/// Cuts the body out of the text of a block scalar.
pub fn block_body_of<'a>(text: &'a str) -> (r: &'a str)
    ensures
        r@ == block_body(text.spec_bytes()),
{
    broadcast use encode_utf8_valid_utf8;

    let bytes = text.as_bytes();
    let len = bytes.len();
    let mut end: usize = 0;
    while end < len && bytes[end] != NEWLINE
        invariant
            end <= len,
            len == bytes@.len(),
            line_end(bytes@, 0) == line_end(bytes@, end as int),
        decreases len - end,
    {
        end = end + 1;
    }
    if end < len {
        proof {
            lemma_boundary_after_ascii(bytes@, end as int);
            is_char_boundary_start_end_of_seq(bytes@);
        }
        let (_, body) = text.split_at(end + 1);
        assert(body.spec_bytes() =~= bytes@.subrange(end + 1, len as int));
        proof {
            encode_utf8_decode_utf8(body@);
        }
        body
    } else {
        let empty = text.substring_char(0, 0);
        assert(empty@ =~= Seq::<char>::empty());
        empty
    }
}

} // verus!
