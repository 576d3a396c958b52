//! Percent-encoding of a URL that rides inside a query parameter.

use vstd::prelude::*;
use vstd::utf8::*;

verus! {

/// An ASCII letter or digit.
pub open spec fn is_alphanumeric(b: u8) -> bool {
    (0x30 <= b <= 0x39) || (0x41 <= b <= 0x5a) || (0x61 <= b <= 0x7a)
}

/// The upper-case hexadecimal digit of a value below sixteen.
pub open spec fn hex_digit(n: int) -> u8 {
    if n < 10 {
        (0x30 + n) as u8
    } else {
        (0x41 + n - 10) as u8
    }
}

/// The value of a hexadecimal digit of either case, if it is one.
pub open spec fn hex_value(b: u8) -> Option<int> {
    if 0x30 <= b <= 0x39 {
        Some(b - 0x30)
    } else if 0x41 <= b <= 0x46 {
        Some(b - 0x41 + 10)
    } else if 0x61 <= b <= 0x66 {
        Some(b - 0x61 + 10)
    } else {
        None
    }
}

/// One byte, encoded: letters and digits stay, every other byte becomes `%`
/// and its two upper-case hexadecimal digits.
pub open spec fn encode_byte(b: u8) -> Seq<u8> {
    if is_alphanumeric(b) {
        seq![b]
    } else {
        seq![0x25u8, hex_digit(b as int / 16), hex_digit(b as int % 16)]
    }
}

/// The percent-encoding of a byte string in which only ASCII letters and
/// digits are left as they are.
pub open spec fn percent_encode(bytes: Seq<u8>) -> Seq<u8>
    decreases bytes.len(),
{
    if bytes.len() == 0 {
        Seq::empty()
    } else {
        encode_byte(bytes[0]) + percent_encode(bytes.drop_first())
    }
}

/// Percent-decoding: `%` followed by two hexadecimal digits stands for the
/// byte they spell, every other byte for itself.
pub open spec fn percent_decode(text: Seq<u8>) -> Seq<u8>
    decreases text.len(),
{
    if text.len() == 0 {
        Seq::empty()
    } else if text[0] == 0x25 && text.len() >= 3 && hex_value(text[1]) is Some && hex_value(
        text[2],
    ) is Some {
        seq![(hex_value(text[1])->0 * 16 + hex_value(text[2])->0) as u8] + percent_decode(
            text.skip(3),
        )
    } else {
        seq![text[0]] + percent_decode(text.drop_first())
    }
}

/// Decoding undoes encoding: for every byte string,
/// `percent_decode(percent_encode(bytes)) == bytes`.
pub proof fn lemma_decode_encode(bytes: Seq<u8>)
    ensures
        percent_decode(percent_encode(bytes)) == bytes,
    decreases bytes.len(),
{
    if bytes.len() > 0 {
        let b = bytes[0];
        let tail = bytes.drop_first();
        let text = percent_encode(bytes);
        lemma_decode_encode(tail);
        if is_alphanumeric(b) {
            assert(text.drop_first() =~= percent_encode(tail));
        } else {
            assert(text.skip(3) =~= percent_encode(tail));
            let hi = b as int / 16;
            let lo = b as int % 16;
            assert(hex_value(hex_digit(hi)) == Some(hi));
            assert(hex_value(hex_digit(lo)) == Some(lo));
            assert(hi * 16 + lo == b);
        }
        assert(percent_decode(text) =~= seq![b] + tail);
        assert(seq![b] + tail =~= bytes);
    }
}

/// Encoding only produces `%`, letters and digits, so its output can stand
/// inside a query parameter.
pub proof fn lemma_encoded_bytes(bytes: Seq<u8>, i: int)
    requires
        0 <= i < percent_encode(bytes).len(),
    ensures
        percent_encode(bytes)[i] == 0x25 || is_alphanumeric(percent_encode(bytes)[i]),
    decreases bytes.len(),
{
    let head = encode_byte(bytes[0]);
    if i >= head.len() {
        lemma_encoded_bytes(bytes.drop_first(), i - head.len());
    }
}

/// The text whose characters are the given ASCII bytes.
pub open spec fn ascii_text(bytes: Seq<u8>) -> Seq<char> {
    Seq::new(bytes.len(), |i: int| bytes[i] as char)
}

/// A text of ASCII bytes has exactly these bytes as its UTF-8 encoding.
pub proof fn lemma_ascii_text_bytes(bytes: Seq<u8>)
    requires
        forall|i: int| 0 <= i < bytes.len() ==> bytes[i] < 128,
    ensures
        encode_utf8(ascii_text(bytes)) == bytes,
{
    let text = ascii_text(bytes);
    assert(is_ascii_chars(text)) by {
        assert forall|i: int| 0 <= i < text.len() implies '\0' <= #[trigger] text[i]
            <= '\u{7f}' by {
            assert(bytes[i] < 128);
        }
    }
    is_ascii_chars_encode_utf8(text);
    assert forall|i: int| 0 <= i < bytes.len() implies encode_utf8(text)[i] == bytes[i] by {
        assert(text[i] as u8 == encode_utf8(text)[i]);
        assert(bytes[i] < 128);
    }
    assert(encode_utf8(text) =~= bytes);
}

/// The percent-encoded form of a text: its UTF-8 bytes, encoded so that only
/// ASCII letters and digits stay as they are.
pub open spec fn encoded_text(text: Seq<char>) -> Seq<char> {
    ascii_text(percent_encode(encode_utf8(text)))
}

/// The bytes of an encoded text are the encoding of the text's bytes.
pub proof fn lemma_encoded_text_bytes(text: Seq<char>)
    ensures
        encode_utf8(encoded_text(text)) == percent_encode(encode_utf8(text)),
{
    let encoded = percent_encode(encode_utf8(text));
    assert forall|i: int| 0 <= i < encoded.len() implies encoded[i] < 128 by {
        lemma_encoded_bytes(encode_utf8(text), i);
    }
    lemma_ascii_text_bytes(encoded);
}

/// An encoded text decodes back to the text it was made from: percent-decoding
/// its bytes gives the UTF-8 bytes of that text, and so the text itself.
pub proof fn lemma_encoded_text_decodes(text: Seq<char>)
    ensures
        percent_decode(encode_utf8(encoded_text(text))) == encode_utf8(text),
        decode_utf8(percent_decode(encode_utf8(encoded_text(text)))) == text,
{
    lemma_encoded_text_bytes(text);
    lemma_decode_encode(encode_utf8(text));
    encode_utf8_decode_utf8(text);
}

/// Percent-encodes the UTF-8 bytes of `text`, leaving only ASCII letters and
/// digits unencoded.
///
/// Calls `percent_encoding::utf8_percent_encode` with the set
/// `NON_ALPHANUMERIC` and collects what it yields. The crate documents the set
/// as everything that is not an ASCII letter or digit, encodes every byte
/// outside ASCII, and writes each encoded byte as `%` and two upper-case
/// hexadecimal digits; the contract says exactly that of the result's bytes.
#[verifier::external_body]
fn utf8_percent_encode(text: &str) -> (encoded: String)
    ensures
        encode_utf8(encoded@) == percent_encode(encode_utf8(text@)),
{
    percent_encoding::utf8_percent_encode(text, percent_encoding::NON_ALPHANUMERIC).to_string()
}

/// Percent-encodes a URL so that it can ride inside a query parameter.
pub fn percent_encode_text(text: &str) -> (encoded: String)
    ensures
        encoded@ == encoded_text(text@),
{
    let encoded = utf8_percent_encode(text);
    proof {
        lemma_encoded_text_bytes(text@);
        encode_utf8_decode_utf8(encoded@);
        encode_utf8_decode_utf8(encoded_text(text@));
    }
    encoded
}

} // verus!
