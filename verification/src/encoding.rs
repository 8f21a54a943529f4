//! Percent-encoding of the components of a query string.

use vstd::prelude::*;
use vstd::string::*;
use vstd::utf8::{
    decode_utf8, encode_utf8, encode_utf8_decode_utf8, encode_utf8_valid_utf8, is_ascii_chars,
    is_ascii_chars_encode_utf8, valid_utf8,
};

verus! {

/// `String::push` of the standard library: appends the given character to
/// the end of the text and changes nothing else of it.
pub assume_specification[ String::push ](text: &mut String, ch: char)
    ensures
        final(text)@ == old(text)@.push(ch),
;

/// The bytes that a query component may hold as they are: ASCII letters,
/// digits, and `-`, `.`, `_`, `~`.
pub open spec fn is_unreserved(byte: u8) -> bool {
    ||| 0x41 <= byte <= 0x5A
    ||| 0x61 <= byte <= 0x7A
    ||| 0x30 <= byte <= 0x39
    ||| byte == 0x2D
    ||| byte == 0x2E
    ||| byte == 0x5F
    ||| byte == 0x7E
}

/// The upper-case hexadecimal digit of a value below sixteen.
pub open spec fn hex_digit(nibble: u8) -> char {
    if nibble < 10 {
        ((0x30 + nibble) as u8) as char
    } else {
        ((0x37 + nibble) as u8) as char
    }
}

/// One byte of a query component, encoded: itself where it is unreserved,
/// else a percent sign and its two hexadecimal digits.
pub open spec fn encode_byte(byte: u8) -> Seq<char> {
    if is_unreserved(byte) {
        seq![byte as char]
    } else {
        seq!['%', hex_digit(byte / 16), hex_digit(byte % 16)]
    }
}

/// The percent-encoding of a byte string: the encodings of its bytes, in
/// order.
pub open spec fn percent_encode(bytes: Seq<u8>) -> Seq<char>
    decreases bytes.len(),
{
    if bytes.len() == 0 {
        Seq::empty()
    } else {
        percent_encode(bytes.drop_last()) + encode_byte(bytes.last())
    }
}

/// A text as it stands in a query string: its UTF-8 bytes, percent-encoded.
pub open spec fn encoded(text: Seq<char>) -> Seq<char> {
    percent_encode(encode_utf8(text))
}

fn unreserved(byte: u8) -> (keep: bool)
    ensures
        keep == is_unreserved(byte),
{
    (0x41 <= byte && byte <= 0x5A) || (0x61 <= byte && byte <= 0x7A) || (0x30 <= byte && byte
        <= 0x39) || byte == 0x2D || byte == 0x2E || byte == 0x5F || byte == 0x7E
}

fn hex_char(nibble: u8) -> (digit: char)
    requires
        nibble < 16,
    ensures
        digit == hex_digit(nibble),
{
    if nibble < 10 {
        (0x30 + nibble) as char
    } else {
        (0x37 + nibble) as char
    }
}

/// Appends the percent-encoding of `text` to `out`.
pub(crate) fn push_encoded(out: &mut String, text: &str)
    ensures
        final(out)@ == old(out)@ + encoded(text@),
{
    let bytes = text.as_bytes();
    let ghost start = out@;
    let mut i: usize = 0;
    while i < bytes.len()
        invariant
            i <= bytes@.len(),
            out@ == start + percent_encode(bytes@.take(i as int)),
        decreases bytes.len() - i,
    {
        let byte = bytes[i];
        proof {
            assert(bytes@.take(i + 1).drop_last() =~= bytes@.take(i as int));
            assert(bytes@.take(i + 1).last() == byte);
        }
        if unreserved(byte) {
            out.push(byte as char);
        } else {
            out.push('%');
            out.push(hex_char(byte / 16));
            out.push(hex_char(byte % 16));
        }
        assert(out@ =~= start + percent_encode(bytes@.take(i + 1)));
        i += 1;
    }
    assert(bytes@.take(i as int) =~= bytes@);
}

/// Percent-encodes one component of a query string, a name or a value.
pub fn encode_component(text: &str) -> (out: String)
    ensures
        out@ == encoded(text@),
{
    let mut out = String::new();
    push_encoded(&mut out, text);
    assert(out@ =~= encoded(text@));
    out
}

/// The characters that stand for themselves in a query component: those
/// of the unreserved bytes.
pub open spec fn is_unreserved_char(ch: char) -> bool {
    (ch as int) < 128 && is_unreserved(ch as u8)
}

/// The value of an upper-case hexadecimal digit; `None` for any other
/// character.
pub open spec fn hex_value(digit: char) -> Option<u8> {
    let code = digit as int;
    if 0x30 <= code <= 0x39 {
        Some((code - 0x30) as u8)
    } else if 0x41 <= code <= 0x46 {
        Some((code - 0x37) as u8)
    } else {
        None
    }
}

/// Reads a percent-encoded text back into bytes: an unreserved character
/// stands for its own byte, and a percent sign with two upper-case
/// hexadecimal digits for the byte they spell. `None` for a text that is
/// no encoding.
pub open spec fn percent_decode(text: Seq<char>) -> Option<Seq<u8>>
    decreases text.len(),
{
    if text.len() == 0 {
        Some(Seq::empty())
    } else if text[0] == '%' {
        if text.len() >= 3 {
            match (hex_value(text[1]), hex_value(text[2]), percent_decode(text.skip(3))) {
                (Some(high), Some(low), Some(rest)) => Some(
                    seq![(high * 16 + low) as u8] + rest,
                ),
                _ => None,
            }
        } else {
            None
        }
    } else if is_unreserved_char(text[0]) {
        match percent_decode(text.skip(1)) {
            Some(rest) => Some(seq![text[0] as u8] + rest),
            None => None,
        }
    } else {
        None
    }
}

/// A text read back from its place in a query string: percent-decoded,
/// then read as UTF-8. `None` where either fails.
pub open spec fn decoded(text: Seq<char>) -> Option<Seq<char>> {
    match percent_decode(text) {
        Some(bytes) => if valid_utf8(bytes) {
            Some(decode_utf8(bytes))
        } else {
            None
        },
        None => None,
    }
}

/// The encoding of a byte string begins with the encoding of its first
/// byte.
pub proof fn lemma_encode_from_the_front(bytes: Seq<u8>)
    requires
        bytes.len() > 0,
    ensures
        percent_encode(bytes) == encode_byte(bytes[0]) + percent_encode(bytes.drop_first()),
    decreases bytes.len(),
{
    let shorter = bytes.drop_last();
    if shorter.len() == 0 {
        assert(bytes.drop_first() =~= Seq::empty());
        assert(percent_encode(shorter) =~= Seq::empty());
        assert(percent_encode(bytes) =~= encode_byte(bytes[0]));
        assert(encode_byte(bytes[0]) + percent_encode(bytes.drop_first()) =~= encode_byte(
            bytes[0],
        ));
    } else {
        lemma_encode_from_the_front(shorter);
        assert(bytes.drop_first().drop_last() =~= shorter.drop_first());
        assert(bytes.drop_first().last() == bytes.last());
        assert(percent_encode(bytes) =~= encode_byte(bytes[0]) + percent_encode(
            bytes.drop_first(),
        ));
    }
}

/// Every hexadecimal digit spells its own value.
pub proof fn lemma_hex_digit_value(nibble: u8)
    requires
        nibble < 16,
    ensures
        hex_value(hex_digit(nibble)) == Some(nibble),
{
}

/// Percent-encoding loses nothing: decoding the encoding of a byte string
/// gives that byte string back.
pub proof fn lemma_decode_inverts_encode(bytes: Seq<u8>)
    ensures
        percent_decode(percent_encode(bytes)) == Some(bytes),
    decreases bytes.len(),
{
    if bytes.len() > 0 {
        let first = bytes[0];
        let rest = bytes.drop_first();
        let text = percent_encode(bytes);
        lemma_encode_from_the_front(bytes);
        lemma_decode_inverts_encode(rest);
        if is_unreserved(first) {
            assert(text[0] == first as char);
            assert(text.skip(1) =~= percent_encode(rest));
            assert(seq![first] + rest =~= bytes);
        } else {
            lemma_hex_digit_value(first / 16);
            lemma_hex_digit_value(first % 16);
            assert(text[0] == '%');
            assert(text[1] == hex_digit(first / 16));
            assert(text[2] == hex_digit(first % 16));
            assert(text.skip(3) =~= percent_encode(rest));
            assert(((first / 16) * 16 + first % 16) as u8 == first);
            assert(seq![first] + rest =~= bytes);
        }
    }
}

/// No character lies below the first.
proof fn lemma_char_is_not_negative(ch: char)
    ensures
        '\0' <= ch,
{
}

/// A text of unreserved characters alone is its own encoding.
pub proof fn lemma_unreserved_text_is_kept(text: Seq<char>)
    requires
        forall|i: int| 0 <= i < text.len() ==> is_unreserved_char(#[trigger] text[i]),
    ensures
        encoded(text) == text,
{
    assert forall|i: int| 0 <= i < text.len() implies '\0' <= #[trigger] text[i] <= '\u{7f}' by {
        assert(is_unreserved_char(text[i]));
        lemma_char_is_not_negative(text[i]);
    }
    assert(is_ascii_chars(text));
    is_ascii_chars_encode_utf8(text);
    let bytes = encode_utf8(text);
    assert(bytes.len() == text.len());
    assert forall|i: int| 0 <= i < bytes.len() implies is_unreserved(#[trigger] bytes[i])
        && bytes[i] as char == text[i] by {
        assert(bytes[i] == text[i] as u8);
    }
    lemma_unreserved_bytes_are_kept(bytes);
    assert(encoded(text) =~= text);
}

/// A string of unreserved bytes is encoded byte for byte.
pub proof fn lemma_unreserved_bytes_are_kept(bytes: Seq<u8>)
    requires
        forall|i: int| 0 <= i < bytes.len() ==> is_unreserved(#[trigger] bytes[i]),
    ensures
        percent_encode(bytes).len() == bytes.len(),
        forall|i: int|
            0 <= i < bytes.len() ==> #[trigger] percent_encode(bytes)[i] == bytes[i] as char,
    decreases bytes.len(),
{
    if bytes.len() > 0 {
        lemma_unreserved_bytes_are_kept(bytes.drop_last());
        assert(is_unreserved(bytes[bytes.len() - 1]));
    }
}

/// Two byte strings with the same encoding are the same byte string.
pub proof fn lemma_encode_is_injective(one: Seq<u8>, other: Seq<u8>)
    requires
        percent_encode(one) == percent_encode(other),
    ensures
        one == other,
{
    lemma_decode_inverts_encode(one);
    lemma_decode_inverts_encode(other);
}

/// A text survives its way through a query string: what the receiver
/// reads back from the encoding is the text that was encoded.
pub proof fn lemma_decoded_inverts_encoded(text: Seq<char>)
    ensures
        decoded(encoded(text)) == Some(text),
{
    lemma_decode_inverts_encode(encode_utf8(text));
    encode_utf8_valid_utf8(text);
    encode_utf8_decode_utf8(text);
}

} // verus!
