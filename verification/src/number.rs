//! Numerals: what a run of ASCII bytes denotes as an integer or as a
//! floating literal.

use vstd::prelude::*;
use vstd::string::*;

verus! {

pub const PLUS: u8 = 0x2b;

pub const MINUS: u8 = 0x2d;

pub const DOT: u8 = 0x2e;

pub const DIGIT_0: u8 = 0x30;

pub const DIGIT_9: u8 = 0x39;

pub const UPPER_A: u8 = 0x41;

pub const UPPER_Z: u8 = 0x5a;

pub const LOWER_A: u8 = 0x61;

pub const LOWER_Z: u8 = 0x7a;

/// The greatest radix that letters and digits can spell.
pub const MAX_RADIX: u8 = 36;

/// The value of a digit, in the widest radix: `0-9`, then `a-z` or `A-Z` for
/// ten to thirty-five. A byte that is no digit has the value [`MAX_RADIX`],
/// which no radix reaches.
pub open spec fn digit_value(b: u8) -> int {
    if DIGIT_0 <= b <= DIGIT_9 {
        b - DIGIT_0
    } else if LOWER_A <= b <= LOWER_Z {
        b - LOWER_A + 10
    } else if UPPER_A <= b <= UPPER_Z {
        b - UPPER_A + 10
    } else {
        MAX_RADIX as int
    }
}

/// A numeral: at least one digit, each below the radix.
pub open spec fn is_numeral(digits: Seq<u8>, radix: int) -> bool {
    &&& digits.len() > 0
    &&& forall|i: int| 0 <= i < digits.len() ==> digit_value(#[trigger] digits[i]) < radix
}

/// The number that a run of digits spells, most significant digit first.
pub open spec fn numeral_value(digits: Seq<u8>, radix: int) -> int
    decreases digits.len(),
{
    if digits.len() == 0 {
        0
    } else {
        numeral_value(digits.drop_last(), radix) * radix + digit_value(digits.last())
    }
}

/// Whether the text opens with a sign.
pub open spec fn has_sign(text: Seq<u8>) -> bool {
    text.len() > 0 && (text[0] == PLUS || text[0] == MINUS)
}

/// The text without its sign.
pub open spec fn unsigned_part(text: Seq<u8>) -> Seq<u8> {
    if has_sign(text) {
        text.skip(1)
    } else {
        text
    }
}

/// The integer that a text spells: an optional sign, then a numeral. `None`
/// where the text is no such thing.
pub open spec fn signed_value(text: Seq<u8>, radix: int) -> Option<int> {
    let digits = unsigned_part(text);
    if !is_numeral(digits, radix) {
        None
    } else if text[0] == MINUS {
        Some(-numeral_value(digits, radix))
    } else {
        Some(numeral_value(digits, radix))
    }
}

/// The 64-bit integer that a text spells, where it spells one that fits.
pub open spec fn integer_of(text: Seq<u8>, radix: int) -> Option<i64> {
    match signed_value(text, radix) {
        Some(v) => if i64::MIN <= v <= i64::MAX {
            Some(v as i64)
        } else {
            None
        },
        None => None,
    }
}

/// Digits count for no less when more digits follow them.
pub proof fn lemma_numeral_prefix(digits: Seq<u8>, radix: int, k: int)
    requires
        radix >= 1,
        0 <= k <= digits.len(),
    ensures
        0 <= numeral_value(digits.take(k), radix) <= numeral_value(digits, radix),
    decreases digits.len() - k,
{
    lemma_numeral_nonnegative(digits.take(k), radix);
    if k < digits.len() {
        let longer = digits.take(k + 1);
        assert(longer.drop_last() =~= digits.take(k));
        let low = numeral_value(digits.take(k), radix);
        assert(low <= low * radix) by (nonlinear_arith)
            requires
                low >= 0,
                radix >= 1,
        ;
        lemma_numeral_prefix(digits, radix, k + 1);
    } else {
        assert(digits.take(k) =~= digits);
    }
}

/// No run of digits spells a negative number.
pub proof fn lemma_numeral_nonnegative(digits: Seq<u8>, radix: int)
    requires
        radix >= 1,
    ensures
        numeral_value(digits, radix) >= 0,
    decreases digits.len(),
{
    if digits.len() > 0 {
        lemma_numeral_nonnegative(digits.drop_last(), radix);
        let high = numeral_value(digits.drop_last(), radix);
        assert(high * radix >= 0) by (nonlinear_arith)
            requires
                high >= 0,
                radix >= 1,
        ;
    }
}

/// The value of a byte as a digit of the radix, if it is one.
pub fn digit_in(b: u8, radix: u8) -> (r: Option<u8>)
    requires
        radix <= MAX_RADIX,
    ensures
        r is Some <==> digit_value(b) < radix,
        r matches Some(d) ==> d == digit_value(b),
{
    let d: u8 = if DIGIT_0 <= b && b <= DIGIT_9 {
        b - DIGIT_0
    } else if LOWER_A <= b && b <= LOWER_Z {
        b - LOWER_A + 10
    } else if UPPER_A <= b && b <= UPPER_Z {
        b - UPPER_A + 10
    } else {
        MAX_RADIX
    };
    if d < radix {
        Some(d)
    } else {
        None
    }
}

/// Reads a signed integer in the given radix: an optional `+` or `-`, then
/// one or more digits and nothing else. Fails where the text is anything
/// else, or spells a number outside the 64-bit range.
pub fn parse_integer(text: &[u8], radix: u8) -> (r: Option<i64>)
    requires
        2 <= radix <= MAX_RADIX,
    ensures
        r == integer_of(text@, radix as int),
{
    let len = text.len();
    let negative = len > 0 && text[0] == MINUS;
    let start: usize = if len > 0 && (text[0] == PLUS || text[0] == MINUS) {
        1
    } else {
        0
    };
    let ghost digits = unsigned_part(text@);
    assert(digits.len() == len - start);
    if start == len {
        return None;
    }
    let limit: u128 = if negative {
        0x8000_0000_0000_0000
    } else {
        0x7fff_ffff_ffff_ffff
    };
    let mut acc: u128 = 0;
    let mut i: usize = start;
    while i < len
        invariant
            2 <= radix <= MAX_RADIX,
            start <= i <= len,
            len == text@.len(),
            digits == unsigned_part(text@),
            digits.len() == len - start,
            start == (if has_sign(text@) { 1int } else { 0int }),
            acc == numeral_value(digits.take(i - start), radix as int),
            acc <= limit,
            negative == (text@.len() > 0 && text@[0] == MINUS),
            limit == (if negative { 0x8000_0000_0000_0000u128 } else { 0x7fff_ffff_ffff_ffffu128 }),
            forall|j: int| 0 <= j < i - start ==> digit_value(#[trigger] digits[j]) < radix,
        decreases len - i,
    {
        assert(digits[i - start] == text@[i as int]);
        match digit_in(text[i], radix) {
            None => {
                return None;
            },
            Some(d) => {
                assert(acc * radix <= 0x8000_0000_0000_0000 * 36) by (nonlinear_arith)
                    requires
                        0 <= acc <= 0x8000_0000_0000_0000,
                        0 <= radix <= 36,
                ;
                let next: u128 = acc * (radix as u128) + (d as u128);
                proof {
                    let longer = digits.take(i - start + 1);
                    assert(longer.drop_last() =~= digits.take(i - start));
                    assert(longer.last() == digits[i - start]);
                    assert(next == numeral_value(longer, radix as int));
                    lemma_numeral_prefix(digits, radix as int, i - start + 1);
                }
                if next > limit {
                    return None;
                }
                acc = next;
            },
        }
        i = i + 1;
    }
    assert(digits.take(len - start) =~= digits);
    assert(is_numeral(digits, radix as int));
    if negative {
        if acc == 0x8000_0000_0000_0000 {
            Some(i64::MIN)
        } else {
            Some(-(acc as i64))
        }
    } else {
        Some(acc as i64)
    }
}

/// The radix that an integer literal is written in.
#[derive(Debug, Clone, Copy, PartialEq, Eq, Structural)]
pub enum IntegerFormat {
    Decimal,
    Hexadecimal,
    Octal,
}

impl IntegerFormat {
    pub open spec fn radix(self) -> int {
        match self {
            IntegerFormat::Decimal => 10,
            IntegerFormat::Hexadecimal => 16,
            IntegerFormat::Octal => 8,
        }
    }

    /// The radix as a number.
    pub fn base(self) -> (r: u8)
        ensures
            r == self.radix(),
    {
        match self {
            IntegerFormat::Decimal => 10,
            IntegerFormat::Hexadecimal => 16,
            IntegerFormat::Octal => 8,
        }
    }
}

pub const LOWER_E: u8 = 0x65;

pub const LOWER_O: u8 = 0x6f;

pub const LOWER_X: u8 = 0x78;

/// The lower-case form of an ASCII letter; any other byte as it is.
pub open spec fn lower(b: u8) -> u8 {
    if UPPER_A <= b <= UPPER_Z {
        (b + 32) as u8
    } else {
        b
    }
}

/// The lower-case form of an ASCII letter; any other byte as it is.
pub fn to_lower(b: u8) -> (r: u8)
    ensures
        r == lower(b),
{
    if UPPER_A <= b && b <= UPPER_Z {
        b + 32
    } else {
        b
    }
}

/// The format that an integer literal announces: more than two bytes of which
/// the first two are `0x` or `0o`, in either case, announce hexadecimal or
/// octal digits; anything else is decimal.
pub open spec fn integer_format(text: Seq<u8>) -> IntegerFormat {
    if text.len() > 2 && text[0] == DIGIT_0 && lower(text[1]) == LOWER_X {
        IntegerFormat::Hexadecimal
    } else if text.len() > 2 && text[0] == DIGIT_0 && lower(text[1]) == LOWER_O {
        IntegerFormat::Octal
    } else {
        IntegerFormat::Decimal
    }
}

/// The digits of an integer literal: what follows the two bytes that announce
/// a radix, or the whole of a decimal literal.
pub open spec fn integer_digits(text: Seq<u8>) -> Seq<u8> {
    if integer_format(text) == IntegerFormat::Decimal {
        text
    } else {
        text.skip(2)
    }
}

/// The value of an integer literal, or the format in which it could not be
/// read.
pub open spec fn integer_literal(text: Seq<u8>) -> Result<i64, IntegerFormat> {
    let format = integer_format(text);
    match integer_of(integer_digits(text), format.radix()) {
        Some(v) => Ok(v),
        None => Err(format),
    }
}

/// Reads an integer literal: decimal, or hexadecimal behind `0x`, or octal
/// behind `0o`. The digits may carry a sign of their own, also behind the
/// prefix. A literal that cannot be read gives the format that was tried.
pub fn decode_integer(text: &[u8]) -> (r: Result<i64, IntegerFormat>)
    ensures
        r == integer_literal(text@),
{
    let len = text.len();
    let format = if len > 2 && text[0] == DIGIT_0 && to_lower(text[1]) == LOWER_X {
        IntegerFormat::Hexadecimal
    } else if len > 2 && text[0] == DIGIT_0 && to_lower(text[1]) == LOWER_O {
        IntegerFormat::Octal
    } else {
        IntegerFormat::Decimal
    };
    let value = match format {
        IntegerFormat::Decimal => parse_integer(text, format.base()),
        _ => {
            let digits = vstd::slice::slice_subrange(text, 2, len);
            assert(digits@ =~= text@.skip(2));
            parse_integer(digits, format.base())
        },
    };
    match value {
        Some(v) => Ok(v),
        None => Err(format),
    }
}

/// Whether a byte is a decimal digit.
pub open spec fn is_decimal_digit(b: u8) -> bool {
    DIGIT_0 <= b <= DIGIT_9
}

/// Where the run of decimal digits that begins at `from` ends.
pub open spec fn digits_end(text: Seq<u8>, from: int) -> int
    decreases text.len() - from,
{
    if 0 <= from < text.len() && is_decimal_digit(text[from]) {
        digits_end(text, from + 1)
    } else {
        from
    }
}

/// Whether the text is `word`, letter case aside. `word` is in lower case.
pub open spec fn spells(text: Seq<u8>, word: Seq<u8>) -> bool {
    &&& text.len() == word.len()
    &&& forall|i: int| 0 <= i < text.len() ==> lower(#[trigger] text[i]) == word[i]
}

/// Whether a byte is a sign.
pub open spec fn is_sign(b: u8) -> bool {
    b == PLUS || b == MINUS
}

/// Where the exponent that begins at `from` ends: an `e` in either case, an
/// optional sign, one or more digits. `None` where no exponent begins there.
pub open spec fn exponent_end(text: Seq<u8>, from: int) -> Option<int> {
    if 0 <= from < text.len() && lower(text[from]) == LOWER_E {
        let digits = if from + 1 < text.len() && is_sign(text[from + 1]) {
            from + 2
        } else {
            from + 1
        };
        let end = digits_end(text, digits);
        if end > digits {
            Some(end)
        } else {
            None
        }
    } else {
        None
    }
}

/// Whether the text is an unsigned decimal number: digits with at most one
/// point among them, at least one digit before or after it, and then an
/// optional exponent.
pub open spec fn is_decimal_number(text: Seq<u8>) -> bool {
    let whole = digits_end(text, 0);
    let point = whole < text.len() && text[whole] == DOT;
    let mantissa = if point {
        digits_end(text, whole + 1)
    } else {
        whole
    };
    let digits = if point {
        mantissa - 1
    } else {
        mantissa
    };
    &&& digits > 0
    &&& (mantissa == text.len() || exponent_end(text, mantissa) == Some(text.len() as int))
}

/// Finds the end of the run of decimal digits that begins at `from`.
pub fn scan_digits(text: &[u8], from: usize) -> (r: usize)
    requires
        from <= text@.len(),
    ensures
        r == digits_end(text@, from as int),
        from <= r <= text@.len(),
{
    let len = text.len();
    let mut i: usize = from;
    while i < len && DIGIT_0 <= text[i] && text[i] <= DIGIT_9
        invariant
            from <= i <= len,
            len == text@.len(),
            digits_end(text@, from as int) == digits_end(text@, i as int),
        decreases len - i,
    {
        i = i + 1;
    }
    i
}

/// Whether the text is an unsigned decimal number.
pub fn decimal_number(text: &[u8]) -> (r: bool)
    ensures
        r == is_decimal_number(text@),
{
    let len = text.len();
    let whole = scan_digits(text, 0);
    let point = whole < len && text[whole] == DOT;
    let mantissa = if point {
        scan_digits(text, whole + 1)
    } else {
        whole
    };
    let digits = if point {
        mantissa - 1
    } else {
        mantissa
    };
    if digits == 0 {
        return false;
    }
    if mantissa == len {
        return true;
    }
    if to_lower(text[mantissa]) != LOWER_E {
        return false;
    }
    let first = if mantissa + 1 < len && (text[mantissa + 1] == PLUS || text[mantissa + 1]
        == MINUS) {
        mantissa + 2
    } else {
        mantissa + 1
    };
    let end = scan_digits(text, first);
    end > first && end == len
}

/// Whether the text is `word`, letter case aside. `word` is in lower case.
pub fn spells_word(text: &[u8], word: &[u8]) -> (r: bool)
    ensures
        r == spells(text@, word@),
{
    let len = text.len();
    if len != word.len() {
        return false;
    }
    let mut i: usize = 0;
    while i < len
        invariant
            i <= len,
            len == text@.len(),
            len == word@.len(),
            forall|j: int| 0 <= j < i ==> lower(#[trigger] text@[j]) == word@[j],
        decreases len - i,
    {
        if to_lower(text[i]) != word[i] {
            return false;
        }
        i = i + 1;
    }
    true
}

/// The character that writes a digit below ten.
pub open spec fn digit_char(d: nat) -> char {
    if d == 0 {
        '0'
    } else if d == 1 {
        '1'
    } else if d == 2 {
        '2'
    } else if d == 3 {
        '3'
    } else if d == 4 {
        '4'
    } else if d == 5 {
        '5'
    } else if d == 6 {
        '6'
    } else if d == 7 {
        '7'
    } else if d == 8 {
        '8'
    } else {
        '9'
    }
}

/// A natural number in decimal digits, without leading zeros.
pub open spec fn decimal(n: nat) -> Seq<char>
    decreases n,
{
    if n < 10 {
        seq![digit_char(n)]
    } else {
        decimal(n / 10).push(digit_char(n % 10))
    }
}

/// An integer in decimal digits, behind a minus sign where it is negative.
pub open spec fn signed_decimal(n: int) -> Seq<char> {
    if n < 0 {
        seq!['-'] + decimal((-n) as nat)
    } else {
        decimal(n as nat)
    }
}

/// The text that writes a digit below ten.
pub fn digit_text(d: u8) -> (r: &'static str)
    requires
        d < 10,
    ensures
        r@ == seq![digit_char(d as nat)],
{
    proof {
        reveal_strlit("0");
        reveal_strlit("1");
        reveal_strlit("2");
        reveal_strlit("3");
        reveal_strlit("4");
        reveal_strlit("5");
        reveal_strlit("6");
        reveal_strlit("7");
        reveal_strlit("8");
        reveal_strlit("9");
    }
    let r = if d == 0 {
        "0"
    } else if d == 1 {
        "1"
    } else if d == 2 {
        "2"
    } else if d == 3 {
        "3"
    } else if d == 4 {
        "4"
    } else if d == 5 {
        "5"
    } else if d == 6 {
        "6"
    } else if d == 7 {
        "7"
    } else if d == 8 {
        "8"
    } else {
        "9"
    };
    assert(r@ =~= seq![digit_char(d as nat)]);
    r
}

/// Writes a natural number in decimal digits at the end of `out`.
pub fn write_decimal(n: u128, out: &mut String)
    ensures
        final(out)@ == old(out)@ + decimal(n as nat),
    decreases n,
{
    if n >= 10 {
        write_decimal(n / 10, out);
    }
    out.append(digit_text((n % 10) as u8));
    assert(out@ =~= old(out)@ + decimal(n as nat));
}

/// Writes an integer in decimal digits at the end of `out`.
pub fn write_integer(n: i64, out: &mut String)
    ensures
        final(out)@ == old(out)@ + signed_decimal(n as int),
{
    if n < 0 {
        proof {
            reveal_strlit("-");
        }
        out.append("-");
        write_decimal((-(n as i128)) as u128, out);
        assert(out@ =~= old(out)@ + signed_decimal(n as int));
    } else {
        write_decimal(n as u128, out);
    }
}

} // verus!
