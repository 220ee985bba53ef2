//! Cutting pieces out of the source text.
//!
//! The source is a `&str`; the syntax tree addresses it by byte offsets. The
//! contracts here speak of the source as its UTF-8 bytes and of every piece as
//! the characters that its bytes decode to.

use vstd::prelude::*;
use vstd::string::*;
use vstd::utf8::*;

verus! {

/// Whether `[start, end)` lies inside `bytes` and begins and ends on a
/// character boundary.
pub open spec fn cuts(bytes: Seq<u8>, start: int, end: int) -> bool {
    &&& 0 <= start <= end <= bytes.len()
    &&& is_char_boundary(bytes, start)
    &&& is_char_boundary(bytes, end)
}

/// The characters between two boundaries of `bytes`.
pub open spec fn chars_between(bytes: Seq<u8>, start: int, end: int) -> Seq<char> {
    decode_utf8(bytes.subrange(start, end))
}

/// A boundary of a text is a boundary of each prefix that reaches it.
pub proof fn lemma_boundary_in_prefix(bytes: Seq<u8>, index: int, end: int)
    requires
        valid_utf8(bytes),
        0 <= index <= end <= bytes.len(),
        is_char_boundary(bytes, index),
        is_char_boundary(bytes, end),
    ensures
        valid_utf8(bytes.subrange(0, end)),
        is_char_boundary(bytes.subrange(0, end), index),
{
    let head = bytes.subrange(0, end);
    valid_utf8_split(bytes, end);
    if index == end {
        is_char_boundary_start_end_of_seq(head);
    } else {
        is_char_boundary_iff_not_is_continuation_byte(bytes, index);
        is_char_boundary_iff_not_is_continuation_byte(head, index);
    }
}

/// The place behind a one-byte character is a boundary.
pub proof fn lemma_boundary_after_ascii(bytes: Seq<u8>, index: int)
    requires
        valid_utf8(bytes),
        0 <= index < bytes.len(),
        bytes[index] < 0x80,
    ensures
        is_char_boundary(bytes, index),
        is_char_boundary(bytes, index + 1),
    decreases bytes.len(),
{
    assert(!is_continuation_byte(bytes[index])) by {
        let b = bytes[index];
        assert(b < 0x80 ==> b & 0xC0 != 0x80) by (bit_vector);
    }
    is_char_boundary_iff_not_is_continuation_byte(bytes, index);
    let width = length_of_first_scalar(bytes);
    let rest = pop_first_scalar(bytes);
    if index == 0 {
        assert(is_leading_byte_width_1(bytes[0])) by {
            let b = bytes[0];
            assert(b < 0x80 ==> b & 0x80 == 0) by (bit_vector);
        }
        assert(width == 1);
        assert(is_char_boundary(rest, 0));
        assert(is_char_boundary(bytes, 1));
    } else {
        assert(0 < width <= index) by {
            reveal_with_fuel(is_char_boundary, 2);
        }
        assert(rest[index - width] == bytes[index]);
        lemma_boundary_after_ascii(rest, index - width);
        assert(is_char_boundary(bytes, index + 1));
    }
}

/// The piece of `source` between two byte offsets, where they cut it on
/// character boundaries.
pub fn slice<'a>(source: &'a str, start: usize, end: usize) -> (r: Option<&'a str>)
    ensures
        r is Some <==> cuts(source.spec_bytes(), start as int, end as int),
        r matches Some(t) ==> t.spec_bytes() == source.spec_bytes().subrange(
            start as int,
            end as int,
        ) && t@ == chars_between(source.spec_bytes(), start as int, end as int),
{
    broadcast use {encode_utf8_valid_utf8, encode_utf8_decode_utf8};

    let len = source.as_bytes().len();
    if start <= end && end <= len && source.is_char_boundary(start) && source.is_char_boundary(
        end,
    ) {
        proof {
            lemma_boundary_in_prefix(source.spec_bytes(), start as int, end as int);
        }
        let (head, _) = source.split_at(end);
        let (_, piece) = head.split_at(start);
        assert(piece.spec_bytes() =~= source.spec_bytes().subrange(start as int, end as int));
        Some(piece)
    } else {
        None
    }
}

/// Whether two byte strings are the same.
pub fn same_bytes(a: &[u8], b: &[u8]) -> (r: bool)
    ensures
        r == (a@ == b@),
{
    let len = a.len();
    if len != b.len() {
        return false;
    }
    let mut i: usize = 0;
    while i < len
        invariant
            i <= len,
            len == a@.len(),
            len == b@.len(),
            forall|j: int| 0 <= j < i ==> a@[j] == b@[j],
        decreases len - i,
    {
        if a[i] != b[i] {
            return false;
        }
        i = i + 1;
    }
    assert(a@ =~= b@);
    true
}

/// Whether two texts are the same.
pub fn same_text(a: &str, b: &str) -> (r: bool)
    ensures
        r == (a@ == b@),
{
    proof {
        encode_utf8_decode_utf8(a@);
        encode_utf8_decode_utf8(b@);
    }
    same_bytes(a.as_bytes(), b.as_bytes())
}

/// The mark that opens a comment.
pub const HASH: char = '#';

/// The characters with the Unicode property `White_Space`.
pub open spec fn is_white_space(c: char) -> bool {
    let n = c as u32;
    ||| 0x09 <= n <= 0x0d
    ||| n == 0x20
    ||| n == 0x85
    ||| n == 0xa0
    ||| n == 0x1680
    ||| 0x2000 <= n <= 0x200a
    ||| n == 0x2028
    ||| n == 0x2029
    ||| n == 0x202f
    ||| n == 0x205f
    ||| n == 0x3000
}

/// Whether a character has the Unicode property `White_Space`.
pub fn white_space(c: char) -> (r: bool)
    ensures
        r == is_white_space(c),
{
    let n: u32 = c as u32;
    (0x09 <= n && n <= 0x0d) || n == 0x20 || n == 0x85 || n == 0xa0 || n == 0x1680 || (0x2000 <= n
        && n <= 0x200a) || n == 0x2028 || n == 0x2029 || n == 0x202f || n == 0x205f || n == 0x3000
}

/// Where the run of comment marks that begins at `from` ends.
pub open spec fn marks_end(text: Seq<char>, from: int) -> int
    decreases text.len() - from,
{
    if 0 <= from < text.len() && text[from] == HASH {
        marks_end(text, from + 1)
    } else {
        from
    }
}

/// Where the run of white space that begins at `from` ends.
pub open spec fn blanks_end(text: Seq<char>, from: int) -> int
    decreases text.len() - from,
{
    if 0 <= from < text.len() && is_white_space(text[from]) {
        blanks_end(text, from + 1)
    } else {
        from
    }
}

/// Where the run of white space that ends before `to` begins.
pub open spec fn blanks_start(text: Seq<char>, to: int) -> int
    decreases to,
{
    if 0 < to <= text.len() && is_white_space(text[to - 1]) {
        blanks_start(text, to - 1)
    } else {
        to
    }
}

/// What a comment says: the token without the marks that open it and without
/// the white space around what is left.
pub open spec fn comment_body(token: Seq<char>) -> Seq<char> {
    let first = blanks_end(token, marks_end(token, 0));
    let last = blanks_start(token, token.len() as int);
    if first < last {
        token.subrange(first, last)
    } else {
        Seq::empty()
    }
}

/// The characters of a text.
pub fn chars_of(text: &str) -> (r: Vec<char>)
    ensures
        r@ == text@,
{
    let mut out: Vec<char> = Vec::new();
    for c in it: text.chars()
        invariant
            out@ == it.seq().take(it.index() as int),
            it.seq() == text@,
    {
        out.push(c);
    }
    out
}

/// Cuts what a comment says out of its token.
pub fn strip_comment<'a>(token: &'a str) -> (r: &'a str)
    ensures
        r@ == comment_body(token@),
{
    let chars = chars_of(token);
    let len = chars.len();
    let mut first: usize = 0;
    while first < len && chars[first] == HASH
        invariant
            first <= len,
            len == chars@.len(),
            marks_end(chars@, 0) == marks_end(chars@, first as int),
        decreases len - first,
    {
        first = first + 1;
    }
    let ghost marks = first;
    while first < len && white_space(chars[first])
        invariant
            marks <= first <= len,
            len == chars@.len(),
            blanks_end(chars@, marks as int) == blanks_end(chars@, first as int),
        decreases len - first,
    {
        first = first + 1;
    }
    let mut last: usize = len;
    while last > 0 && white_space(chars[last - 1])
        invariant
            last <= len,
            len == chars@.len(),
            blanks_start(chars@, len as int) == blanks_start(chars@, last as int),
        decreases last,
    {
        last = last - 1;
    }
    if first < last {
        token.substring_char(first, last)
    } else {
        let empty = token.substring_char(0, 0);
        assert(empty@ =~= Seq::<char>::empty());
        empty
    }
}

} // verus!
