//! Base64, as RFC 4648 defines it: the standard alphabet, with padding.
//!
//! Bytes are taken three at a time. Each run of three gives 24 bits, which
//! are written as four symbols of six bits each. A last run of one or two
//! bytes is filled up with zero bits; the symbols that would hold nothing
//! but filling are written as `=`.

use base64::Engine;
use vstd::prelude::*;

verus! {

/// The symbol that stands for a value of six bits.
pub open spec fn symbol(value: int) -> char
    recommends
        0 <= value < 64,
{
    "ABCDEFGHIJKLMNOPQRSTUVWXYZabcdefghijklmnopqrstuvwxyz0123456789+/"@[value]
}

/// The byte at a place, and zero past the end.
pub open spec fn octet(bytes: Seq<u8>, at: int) -> int {
    if 0 <= at < bytes.len() {
        bytes[at] as int
    } else {
        0
    }
}

/// The 24 bits of a run of three bytes, the first byte highest.
pub open spec fn run(bytes: Seq<u8>, index: int) -> int {
    octet(bytes, 3 * index) * 65536 + octet(bytes, 3 * index + 1) * 256 + octet(
        bytes,
        3 * index + 2,
    )
}

/// One of the four values of six bits that make up 24 bits, the highest at
/// place 0.
pub open spec fn sextet(bits: int, place: int) -> int {
    if place == 0 {
        bits / 262144
    } else if place == 1 {
        bits / 4096 % 64
    } else if place == 2 {
        bits / 64 % 64
    } else {
        bits % 64
    }
}

/// The character at a place of the text that stands for the bytes.
pub open spec fn encoded_char(bytes: Seq<u8>, at: int) -> char {
    if 3 * (at / 4) + at % 4 > bytes.len() {
        '='
    } else {
        symbol(sextet(run(bytes, at / 4), at % 4))
    }
}

/// The length of the text that stands for so many bytes.
pub open spec fn encoded_len(count: nat) -> nat {
    4 * ((count + 2) / 3)
}

/// The base64 text that stands for the bytes.
pub open spec fn encoded(bytes: Seq<u8>) -> Seq<char> {
    Seq::new(encoded_len(bytes.len()), |at: int| encoded_char(bytes, at))
}

/// The value of six bits that a character stands for, where it is one of
/// the 64 symbols.
pub open spec fn symbol_value(c: char) -> Option<int> {
    if 'A' <= c <= 'Z' {
        Some(c as int - 'A' as int)
    } else if 'a' <= c <= 'z' {
        Some(c as int - 'a' as int + 26)
    } else if '0' <= c <= '9' {
        Some(c as int - '0' as int + 52)
    } else if c == '+' {
        Some(62)
    } else if c == '/' {
        Some(63)
    } else {
        None
    }
}

/// How many `=` end the text: two at most count.
pub open spec fn padding(text: Seq<char>) -> nat {
    if text.len() >= 2 && text[text.len() - 1] == '=' && text[text.len() - 2] == '=' {
        2
    } else if text.len() >= 1 && text[text.len() - 1] == '=' {
        1
    } else {
        0
    }
}

/// The six bits that the character at a place gives: its value, and zero
/// for a character that is no symbol.
pub open spec fn digit(text: Seq<char>, at: int) -> int {
    match symbol_value(text[at]) {
        Some(value) => value,
        None => 0,
    }
}

/// The 24 bits that a run of four characters gives, the first character
/// highest.
pub open spec fn quad(text: Seq<char>, index: int) -> int {
    digit(text, 4 * index) * 262144 + digit(text, 4 * index + 1) * 4096 + digit(
        text,
        4 * index + 2,
    ) * 64 + digit(text, 4 * index + 3)
}

/// One of the three bytes that make up 24 bits, the highest at place 0.
pub open spec fn byte_of(bits: int, place: int) -> int {
    if place == 0 {
        bits / 65536
    } else if place == 1 {
        bits / 256 % 256
    } else {
        bits % 256
    }
}

/// Whether the text is base64 in its one accepted spelling: whole runs of
/// four characters, symbols throughout but for the padding at the end, and
/// zero in the bits that the padding leaves over.
pub open spec fn canonical(text: Seq<char>) -> bool {
    &&& text.len() % 4 == 0
    &&& forall|at: int|
        0 <= at < text.len() - padding(text) ==> symbol_value(#[trigger] text[at]) is Some
    &&& padding(text) == 1 ==> digit(text, text.len() - 2) % 4 == 0
    &&& padding(text) == 2 ==> digit(text, text.len() - 3) % 16 == 0
}

/// The bytes that a base64 text stands for, if it stands for any.
pub open spec fn decoded(text: Seq<char>) -> Option<Seq<u8>> {
    if canonical(text) {
        Some(
            Seq::new(
                (text.len() / 4 * 3 - padding(text)) as nat,
                |at: int| byte_of(quad(text, at / 3), at % 3) as u8,
            ),
        )
    } else {
        None
    }
}

/// Each of the 64 symbols stands for the value it was chosen for, and none
/// of them is the padding character.
pub proof fn symbol_value_of_symbol(value: int)
    requires
        0 <= value < 64,
    ensures
        symbol_value(symbol(value)) == Some(value),
        symbol(value) != '=',
{
    reveal_strlit("ABCDEFGHIJKLMNOPQRSTUVWXYZabcdefghijklmnopqrstuvwxyz0123456789+/");
}

/// The four values of six bits of a run are its 24 bits.
proof fn sextets_make_bits(bits: int)
    requires
        0 <= bits < 16777216,
    ensures
        forall|place: int| 0 <= place < 4 ==> 0 <= #[trigger] sextet(bits, place) < 64,
        sextet(bits, 0) * 262144 + sextet(bits, 1) * 4096 + sextet(bits, 2) * 64 + sextet(bits, 3)
            == bits,
{
}

/// A run of three bytes fits in 24 bits and gives its bytes back.
proof fn bytes_of_run(bytes: Seq<u8>, index: int)
    ensures
        0 <= run(bytes, index) < 16777216,
        forall|place: int|
            0 <= place < 3 ==> #[trigger] byte_of(run(bytes, index), place) == octet(
                bytes,
                3 * index + place,
            ),
{
}

/// A character of the text is padding exactly where no byte reaches into
/// its six bits, and is a symbol elsewhere; either way it gives the six
/// bits at its place, which under padding are zero.
proof fn digit_of_encoded(bytes: Seq<u8>, at: int)
    requires
        0 <= at < encoded_len(bytes.len()),
    ensures
        digit(encoded(bytes), at) == sextet(run(bytes, at / 4), at % 4),
        encoded(bytes)[at] == '=' <==> 3 * (at / 4) + at % 4 > bytes.len(),
        encoded(bytes)[at] != '=' ==> symbol_value(encoded(bytes)[at]) is Some,
{
    let bits = run(bytes, at / 4);
    bytes_of_run(bytes, at / 4);
    sextets_make_bits(bits);
    assert(0 <= sextet(bits, at % 4) < 64);
    symbol_value_of_symbol(sextet(bits, at % 4));
}

/// The bits that a last run of one or two bytes leaves over are zero.
proof fn leftover_bits(bytes: Seq<u8>)
    ensures
        bytes.len() % 3 == 2 ==> sextet(run(bytes, bytes.len() as int / 3), 2) % 4 == 0,
        bytes.len() % 3 == 1 ==> sextet(run(bytes, bytes.len() as int / 3), 1) % 16 == 0,
{
}

/// The text ends in as many `=` as bytes are missing in the last run.
proof fn padding_of_encoded(bytes: Seq<u8>)
    ensures
        padding(encoded(bytes)) == (3 - bytes.len() % 3) % 3,
{
    let text = encoded(bytes);
    let len = text.len() as int;
    if len >= 1 {
        digit_of_encoded(bytes, len - 1);
        digit_of_encoded(bytes, len - 2);
    }
}

/// A run of four characters of the text gives the 24 bits of the run of
/// bytes that it was written for.
proof fn quad_of_encoded(bytes: Seq<u8>, index: int)
    requires
        0 <= 4 * index < encoded_len(bytes.len()),
    ensures
        quad(encoded(bytes), index) == run(bytes, index),
{
    digit_of_encoded(bytes, 4 * index);
    digit_of_encoded(bytes, 4 * index + 1);
    digit_of_encoded(bytes, 4 * index + 2);
    digit_of_encoded(bytes, 4 * index + 3);
    bytes_of_run(bytes, index);
    sextets_make_bits(run(bytes, index));
}

/// The text that stands for some bytes is in the accepted spelling.
proof fn encoded_is_canonical(bytes: Seq<u8>)
    ensures
        canonical(encoded(bytes)),
{
    let text = encoded(bytes);
    let len = text.len() as int;
    padding_of_encoded(bytes);
    leftover_bits(bytes);
    assert forall|at: int| 0 <= at < len - padding(text) implies symbol_value(
        #[trigger] text[at],
    ) is Some by {
        digit_of_encoded(bytes, at);
    }
    if padding(text) == 1 {
        digit_of_encoded(bytes, len - 2);
        assert((len - 2) / 4 == bytes.len() as int / 3 && (len - 2) % 4 == 2);
    }
    if padding(text) == 2 {
        digit_of_encoded(bytes, len - 3);
        assert((len - 3) / 4 == bytes.len() as int / 3 && (len - 3) % 4 == 1);
    }
}

/// Decoding takes encoding back: the text that stands for some bytes
/// stands for those bytes and no others.
pub proof fn decoding_inverts_encoding(bytes: Seq<u8>)
    ensures
        decoded(encoded(bytes)) == Some(bytes),
{
    let text = encoded(bytes);
    encoded_is_canonical(bytes);
    padding_of_encoded(bytes);
    let back = decoded(text)->0;
    assert(back.len() == bytes.len());
    assert forall|at: int| 0 <= at < bytes.len() implies back[at] == bytes[at] by {
        quad_of_encoded(bytes, at / 3);
        bytes_of_run(bytes, at / 3);
        assert(byte_of(run(bytes, at / 3), at % 3) == octet(bytes, 3 * (at / 3) + at % 3));
    }
    assert(back =~= bytes);
}

/// No two runs of bytes are written as the same text.
pub proof fn encoding_is_injective(one: Seq<u8>, other: Seq<u8>)
    requires
        encoded(one) == encoded(other),
    ensures
        one == other,
{
    decoding_inverts_encoding(one);
    decoding_inverts_encoding(other);
}

/// Whether the text for so many bytes can be written: whether its length
/// is one that a string may have.
pub fn can_encode(count: usize) -> (fits: bool)
    ensures
        fits == (encoded_len(count as nat) <= isize::MAX),
{
    let quarter: usize = (isize::MAX as usize) / 4;
    count / 3 < quarter || (count / 3 == quarter && count % 3 == 0)
}

/// Writes bytes as base64 text.
///
/// Trusted: the body is `Engine::encode` of the base64 crate, called on its
/// `STANDARD` engine, which pairs the standard alphabet with padding. The
/// contract claims that the string it returns is the text that RFC 4648
/// defines for the bytes, as `encoded` spells it out. The call panics where
/// the length of the text cannot be computed or allocated; such inputs are
/// left out.
#[verifier::external_body]
pub(crate) fn encode_standard(bytes: &[u8]) -> (text: String)
    requires
        encoded_len(bytes@.len()) <= isize::MAX,
    ensures
        text@ == encoded(bytes@),
{
    base64::engine::general_purpose::STANDARD.encode(bytes)
}

} // verus!
