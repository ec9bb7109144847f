//! The compiled module of a contract, between its hexadecimal text and its
//! bytes.
//!
//! In a document the module is a string of hexadecimal digits, two for each
//! byte, which may begin with `0x` or `0X`. Upper and lower case digits are
//! both read. Written back, the module always begins with `0x` and its digits
//! are lower case.
//!
//! The digits are read by `hex::decode`, which works on the bytes of a text:
//! the contracts here speak of the UTF-8 bytes of a string for that reason.

use crate::codec::JsonCodec;
use crate::error::decoded;
use crate::error::DecodeError;
use crate::error::DecodeErrorView;
use crate::error::Expected;
use crate::error::HexFailure;
use crate::error::mismatch;
use crate::json::JsonModel;
use crate::json::value_kind;
use crate::json::value_string;
use vstd::prelude::*;
use vstd::slice::slice_subrange;
use vstd::utf8::encode_utf8;
use vstd::utf8::is_ascii_chars;
use vstd::utf8::is_ascii_chars_encode_utf8;

verus! {

/// Whether a byte is one of `0`-`9`, `A`-`F`, `a`-`f`.
pub open spec fn is_hex_digit(b: u8) -> bool {
    ||| 0x30 <= b <= 0x39
    ||| 0x41 <= b <= 0x46
    ||| 0x61 <= b <= 0x66
}

/// The number from 0 to 15 that a hexadecimal digit stands for.
pub open spec fn hex_value(b: u8) -> int {
    if 0x30 <= b <= 0x39 {
        b - 0x30
    } else if 0x41 <= b <= 0x46 {
        b - 0x41 + 10
    } else {
        b - 0x61 + 10
    }
}

/// The position of the first byte that is no hexadecimal digit, or the
/// length of the sequence where every byte is one.
pub open spec fn first_non_hex(digits: Seq<u8>) -> int
    decreases digits.len(),
{
    if digits.len() == 0 || !is_hex_digit(digits[0]) {
        0
    } else {
        1 + first_non_hex(digits.drop_first())
    }
}

/// The bytes that an even number of hexadecimal digits stand for: each pair
/// of digits is one byte, the first digit its upper half.
pub open spec fn hex_bytes(digits: Seq<u8>) -> Seq<u8> {
    Seq::new(
        digits.len() / 2,
        |i: int| (16 * hex_value(digits[2 * i]) + hex_value(digits[2 * i + 1])) as u8,
    )
}

/// What reading a sequence of digits yields. An odd length is reported
/// before any digit is looked at, then the first byte that is no digit.
pub open spec fn hex_decoding(digits: Seq<u8>) -> Result<Seq<u8>, HexFailure> {
    let stop = first_non_hex(digits);
    if digits.len() % 2 != 0 {
        Err(HexFailure::OddLength)
    } else if stop < digits.len() {
        Err(HexFailure::InvalidCharacter { c: digits[stop] as char, index: stop as usize })
    } else {
        Ok(hex_bytes(digits))
    }
}

/// Whether a text, as bytes, begins with `0x` or `0X`.
pub open spec fn has_hex_prefix(bytes: Seq<u8>) -> bool {
    &&& bytes.len() >= 2
    &&& bytes[0] == 0x30
    &&& (bytes[1] == 0x78 || bytes[1] == 0x58)
}

/// The digits of a text, as bytes: the text without its prefix, if it has
/// one. One prefix is taken off, not more.
pub open spec fn payload_digits(bytes: Seq<u8>) -> Seq<u8> {
    if has_hex_prefix(bytes) {
        bytes.skip(2)
    } else {
        bytes
    }
}

/// The bytes that a payload string stands for, or why it stands for none.
pub open spec fn payload_bytes(text: Seq<char>) -> Result<Seq<u8>, HexFailure> {
    hex_decoding(payload_digits(encode_utf8(text)))
}

/// What decoding a payload string yields: its bytes, or the error that
/// holds the string and the reason.
pub open spec fn payload_from_text(text: Seq<char>) -> Result<Seq<u8>, DecodeErrorView> {
    match payload_bytes(text) {
        Ok(bytes) => Ok(bytes),
        Err(reason) => Err(DecodeErrorView::InvalidHexPayload { payload: text, reason }),
    }
}

/// The lower case hexadecimal digit for a number from 0 to 15.
pub open spec fn hex_digit(n: int) -> char {
    if n == 0 {
        '0'
    } else if n == 1 {
        '1'
    } else if n == 2 {
        '2'
    } else if n == 3 {
        '3'
    } else if n == 4 {
        '4'
    } else if n == 5 {
        '5'
    } else if n == 6 {
        '6'
    } else if n == 7 {
        '7'
    } else if n == 8 {
        '8'
    } else if n == 9 {
        '9'
    } else if n == 10 {
        'a'
    } else if n == 11 {
        'b'
    } else if n == 12 {
        'c'
    } else if n == 13 {
        'd'
    } else if n == 14 {
        'e'
    } else {
        'f'
    }
}

/// The digits of a byte sequence: two for each byte, the upper half first.
pub open spec fn hex_text(bytes: Seq<u8>) -> Seq<char> {
    Seq::new(
        2 * bytes.len(),
        |i: int|
            if i % 2 == 0 {
                hex_digit(bytes[i / 2] as int / 16)
            } else {
                hex_digit(bytes[i / 2] as int % 16)
            },
    )
}

/// The payload string that is written for a byte sequence: `0x`, then its
/// digits.
pub open spec fn payload_text(bytes: Seq<u8>) -> Seq<char> {
    seq!['0', 'x'] + hex_text(bytes)
}

/// `hex::decode` on a byte slice.
///
/// Claimed, as the source of `hex` has it: a slice of odd length is
/// refused as such; otherwise the first byte that is none of `0`-`9`,
/// `A`-`F`, `a`-`f` is reported with its position, the byte itself turned
/// into the character of the same number; otherwise each pair of digits
/// gives one byte, the first digit its upper half. The error's third variant
/// is carried over and never claimed to occur.
#[verifier::external_body]
pub(crate) fn hex_decode(digits: &[u8]) -> (r: Result<Vec<u8>, HexFailure>)
    ensures
        match r {
            Ok(bytes) => hex_decoding(digits@) == Ok::<Seq<u8>, HexFailure>(bytes@),
            Err(reason) => hex_decoding(digits@) == Err::<Seq<u8>, HexFailure>(reason),
        },
{
    match hex::decode(digits) {
        Ok(bytes) => Ok(bytes),
        Err(hex::FromHexError::InvalidHexCharacter { c, index }) => Err(
            HexFailure::InvalidCharacter { c, index },
        ),
        Err(hex::FromHexError::OddLength) => Err(HexFailure::OddLength),
        Err(hex::FromHexError::InvalidStringLength) => Err(HexFailure::InvalidLength),
    }
}

/// Reads the compiled module from its string in a document.
///
/// A leading `0x` or `0X` is taken off and the rest is read as hexadecimal
/// digits. The empty string and a bare prefix stand for no bytes at all.
pub fn wasm_from_hex(text: &str) -> (r: Result<Vec<u8>, DecodeError>)
    ensures
        decoded(r) == payload_from_text(text@),
{
    let bytes = text.as_bytes();
    let prefixed = bytes.len() >= 2 && bytes[0] == 0x30 && (bytes[1] == 0x78 || bytes[1] == 0x58);
    let digits = if prefixed {
        slice_subrange(bytes, 2, bytes.len())
    } else {
        bytes
    };
    assert(digits@ == payload_digits(encode_utf8(text@)));
    match hex_decode(digits) {
        Ok(module) => {
            assert(module.deep_view() =~= module@);
            Ok(module)
        },
        Err(reason) => Err(DecodeError::InvalidHexPayload { payload: text.to_owned(), reason }),
    }
}

/// The one-character string of the lower case digit for `n`.
fn digit_str(n: u8) -> (s: &'static str)
    requires
        n < 16,
    ensures
        s@ == seq![hex_digit(n as int)],
{
    proof {
        reveal_strlit("0");
        reveal_strlit("1");
        reveal_strlit("2");
        reveal_strlit("3");
        reveal_strlit("4");
        reveal_strlit("5");
        reveal_strlit("6");
        reveal_strlit("7");
        reveal_strlit("8");
        reveal_strlit("9");
        reveal_strlit("a");
        reveal_strlit("b");
        reveal_strlit("c");
        reveal_strlit("d");
        reveal_strlit("e");
        reveal_strlit("f");
    }
    let s = match n {
        0 => "0",
        1 => "1",
        2 => "2",
        3 => "3",
        4 => "4",
        5 => "5",
        6 => "6",
        7 => "7",
        8 => "8",
        9 => "9",
        10 => "a",
        11 => "b",
        12 => "c",
        13 => "d",
        14 => "e",
        _ => "f",
    };
    assert(s@ =~= seq![hex_digit(n as int)]);
    s
}

/// Writes the compiled module as the string that stands for it in a
/// document: `0x`, then two lower case digits for each byte.
pub fn wasm_to_hex(bytes: &[u8]) -> (text: String)
    ensures
        text@ == payload_text(bytes@),
{
    let mut text = "0x".to_owned();
    proof {
        reveal_strlit("0x");
        assert(text@ =~= seq!['0', 'x'] + hex_text(bytes@.take(0)));
    }
    let mut i: usize = 0;
    while i < bytes.len()
        invariant
            i <= bytes.len(),
            text@ == seq!['0', 'x'] + hex_text(bytes@.take(i as int)),
        decreases bytes.len() - i,
    {
        let b = bytes[i];
        let ghost before = text@;
        text.append(digit_str(b / 16));
        text.append(digit_str(b % 16));
        i += 1;
        proof {
            let shorter = bytes@.take(i - 1);
            let longer = bytes@.take(i as int);
            assert(longer =~= shorter.push(b));
            assert(hex_text(longer) =~= hex_text(shorter) + seq![
                hex_digit(b as int / 16),
                hex_digit(b as int % 16),
            ]);
            assert(text@ =~= seq!['0', 'x'] + hex_text(longer));
        }
    }
    assert(bytes@.take(i as int) =~= bytes@);
    text
}

/// Whether a character is one of `0`-`9`, `A`-`F`, `a`-`f`.
pub open spec fn is_hex_char(c: char) -> bool {
    ||| '0' <= c <= '9'
    ||| 'A' <= c <= 'F'
    ||| 'a' <= c <= 'f'
}

/// Whether two texts are hexadecimal digits throughout and the same but for
/// the case of their letters.
pub open spec fn same_digits(a: Seq<char>, b: Seq<char>) -> bool {
    &&& a.len() == b.len()
    &&& forall|i: int|
        0 <= i < a.len() ==> is_hex_char(#[trigger] a[i]) && is_hex_char(b[i]) && hex_value(
            a[i] as u8,
        ) == hex_value(b[i] as u8)
}

/// Whether a text is one of the three ways to begin a payload string:
/// nothing, `0x` or `0X`.
pub open spec fn is_payload_prefix(p: Seq<char>) -> bool {
    ||| p =~= Seq::<char>::empty()
    ||| p =~= seq!['0', 'x']
    ||| p =~= seq!['0', 'X']
}

/// The bytes of a text whose characters are all below 128.
pub open spec fn ascii_bytes(text: Seq<char>) -> Seq<u8> {
    Seq::new(text.len(), |i: int| text[i] as u8)
}

/// `first_non_hex` stops at the first byte that is no digit and nowhere
/// before.
pub proof fn lemma_first_non_hex(digits: Seq<u8>)
    ensures
        0 <= first_non_hex(digits) <= digits.len(),
        forall|i: int| 0 <= i < first_non_hex(digits) ==> is_hex_digit(#[trigger] digits[i]),
        first_non_hex(digits) < digits.len() ==> !is_hex_digit(digits[first_non_hex(digits)]),
    decreases digits.len(),
{
    if digits.len() == 0 || !is_hex_digit(digits[0]) {
    } else {
        let rest = digits.drop_first();
        lemma_first_non_hex(rest);
        assert forall|i: int| 0 <= i < first_non_hex(digits) implies is_hex_digit(
            #[trigger] digits[i],
        ) by {
            if i > 0 {
                assert(digits[i] == rest[i - 1]);
            }
        }
    }
}

/// After an optional prefix, the digits of a text of hexadecimal digits are
/// those digits, byte for character.
proof fn lemma_digits_after_prefix(p: Seq<char>, a: Seq<char>)
    requires
        is_payload_prefix(p),
        forall|i: int| 0 <= i < a.len() ==> is_hex_char(#[trigger] a[i]),
    ensures
        payload_digits(encode_utf8(p + a)) == ascii_bytes(a),
        first_non_hex(ascii_bytes(a)) == a.len(),
{
    let text = p + a;
    assert(is_ascii_chars(text)) by {
        assert forall|i: int| 0 <= i < text.len() implies '\0' <= #[trigger] text[i]
            <= '\u{7f}' by {
            if i >= p.len() {
                assert(text[i] == a[i - p.len()]);
            }
        }
    }
    is_ascii_chars_encode_utf8(text);
    let bytes = encode_utf8(text);
    assert(bytes =~= ascii_bytes(text));
    if p.len() == 0 {
        assert(text =~= a);
        if a.len() >= 2 {
            assert(is_hex_char(a[1]));
        }
    } else {
        assert(has_hex_prefix(bytes));
        assert(bytes.skip(2) =~= ascii_bytes(a)) by {
            assert forall|i: int| 0 <= i < a.len() implies bytes.skip(2)[i] == ascii_bytes(
                a,
            )[i] by {
                assert(text[i + 2] == a[i]);
            }
        }
    }
    let digits = ascii_bytes(a);
    lemma_first_non_hex(digits);
    if first_non_hex(digits) < digits.len() {
        assert(is_hex_char(a[first_non_hex(digits)]));
    }
}

/// A payload string may begin with `0x`, with `0X` or with neither, and its
/// digits may be upper or lower case: strings that differ in nothing else
/// stand for the same bytes. Such a string stands for the bytes of its digits
/// where their number is even, and is refused for its length where it is odd.
pub proof fn law_prefix_and_case(p: Seq<char>, a: Seq<char>, q: Seq<char>, b: Seq<char>)
    requires
        is_payload_prefix(p),
        is_payload_prefix(q),
        same_digits(a, b),
    ensures
        payload_bytes(p + a) == payload_bytes(q + b),
        a.len() % 2 == 0 ==> payload_bytes(p + a) == Ok::<Seq<u8>, HexFailure>(
            hex_bytes(ascii_bytes(a)),
        ),
        a.len() % 2 == 1 ==> payload_bytes(p + a) == Err::<Seq<u8>, HexFailure>(
            HexFailure::OddLength,
        ),
{
    assert forall|i: int| 0 <= i < b.len() implies is_hex_char(#[trigger] b[i]) by {
        assert(is_hex_char(a[i]));
    }
    lemma_digits_after_prefix(p, a);
    lemma_digits_after_prefix(q, b);
    assert(hex_bytes(ascii_bytes(a)) =~= hex_bytes(ascii_bytes(b)));
}

/// A payload string with an odd number of digits after its prefix is
/// refused for that reason, whatever the digits are.
pub proof fn law_odd_length(text: Seq<char>)
    requires
        payload_digits(encode_utf8(text)).len() % 2 == 1,
    ensures
        payload_from_text(text) == Err::<Seq<u8>, DecodeErrorView>(
            DecodeErrorView::InvalidHexPayload { payload: text, reason: HexFailure::OddLength },
        ),
{
}

/// The empty string and the bare prefix stand for no bytes at all.
pub proof fn law_empty_payload(p: Seq<char>)
    requires
        is_payload_prefix(p),
    ensures
        payload_from_text(p) == Ok::<Seq<u8>, DecodeErrorView>(Seq::empty()),
{
    let none = Seq::<char>::empty();
    lemma_digits_after_prefix(p, none);
    assert(p + none =~= p);
    assert(hex_bytes(ascii_bytes(none)) =~= Seq::<u8>::empty());
}

/// The lower case digit for `n` is read back as `n`.
proof fn lemma_digit_value(n: int)
    requires
        0 <= n < 16,
    ensures
        is_hex_char(hex_digit(n)),
        hex_value(hex_digit(n) as u8) == n,
{
}

/// Reading what was written for a byte sequence gives the sequence back.
pub proof fn law_payload_round_trip(bytes: Seq<u8>)
    ensures
        payload_from_text(payload_text(bytes)) == Ok::<Seq<u8>, DecodeErrorView>(bytes),
{
    let p = seq!['0', 'x'];
    let a = hex_text(bytes);
    assert forall|i: int| 0 <= i < a.len() implies is_hex_char(#[trigger] a[i]) by {
        lemma_digit_value(bytes[i / 2] as int / 16);
        lemma_digit_value(bytes[i / 2] as int % 16);
    }
    lemma_digits_after_prefix(p, a);
    let digits = ascii_bytes(a);
    assert(hex_bytes(digits) =~= bytes) by {
        assert forall|i: int| 0 <= i < bytes.len() implies hex_bytes(digits)[i] == bytes[i] by {
            lemma_digit_value(bytes[i] as int / 16);
            lemma_digit_value(bytes[i] as int % 16);
            assert(a[2 * i] == hex_digit(bytes[i] as int / 16));
            assert(a[2 * i + 1] == hex_digit(bytes[i] as int % 16));
        }
    }
}

/// The compiled module as a member of a document: a string of hexadecimal
/// digits that stands for the bytes held here.
#[derive(Debug, PartialEq, Eq)]
pub struct HexPayload(pub Vec<u8>);

impl DeepView for HexPayload {
    type V = Seq<u8>;

    open spec fn deep_view(&self) -> Seq<u8> {
        self.0@
    }
}

impl View for HexPayload {
    type V = Seq<u8>;

    open spec fn view(&self) -> Seq<u8> {
        self.0@
    }
}

impl JsonCodec for HexPayload {
    open spec fn expected() -> Expected {
        Expected::String
    }

    open spec fn from_json(j: JsonModel) -> Result<Seq<u8>, DecodeErrorView> {
        match j {
            JsonModel::String(text) => payload_from_text(text),
            _ => Err(mismatch(Expected::String, j.kind())),
        }
    }

    open spec fn to_json(x: Seq<u8>) -> JsonModel {
        JsonModel::String(payload_text(x))
    }

    fn expects() -> (e: Expected) {
        Expected::String
    }

    fn from_value(v: &serde_json::Value) -> (r: Result<HexPayload, DecodeError>) {
        match v.as_str() {
            Some(text) => match wasm_from_hex(text) {
                Ok(bytes) => {
                    assert(bytes.deep_view() =~= bytes@);
                    Ok(HexPayload(bytes))
                },
                Err(e) => Err(e),
            },
            None => Err(DecodeError::wrong_kind(Expected::String, value_kind(v))),
        }
    }

    fn to_value(&self) -> (v: serde_json::Value) {
        value_string(wasm_to_hex(self.0.as_slice()))
    }

    proof fn law_round_trip(x: Seq<u8>) {
        law_payload_round_trip(x);
    }
}

} // verus!
