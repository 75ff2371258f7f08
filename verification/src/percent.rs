//! Percent-encoding of text that travels as the value of a query parameter.

use vstd::prelude::*;
use vstd::utf8::*;

verus! {

/// The bytes that are written as they are: ASCII letters, digits and `-`, `.`, `_`, `~`.
pub open spec fn is_unreserved(b: u8) -> bool {
    ||| ('0' as u8) <= b <= ('9' as u8)
    ||| ('A' as u8) <= b <= ('Z' as u8)
    ||| ('a' as u8) <= b <= ('z' as u8)
    ||| b == ('-' as u8)
    ||| b == ('.' as u8)
    ||| b == ('_' as u8)
    ||| b == ('~' as u8)
}

/// The upper-case hexadecimal digit for a value below 16.
pub open spec fn hex_digit(value: u8) -> u8 {
    if value < 10 {
        (('0' as u8) + value) as u8
    } else {
        (('A' as u8) + value - 10) as u8
    }
}

/// One byte, percent-encoded: itself where it is unreserved, else `%` and its
/// two hexadecimal digits.
pub open spec fn encoded_byte(b: u8) -> Seq<u8> {
    if is_unreserved(b) {
        seq![b]
    } else {
        seq![('%' as u8), hex_digit(b >> 4), hex_digit(b & 15)]
    }
}

/// A byte sequence, percent-encoded byte by byte.
pub open spec fn encoded_bytes(bytes: Seq<u8>) -> Seq<u8>
    decreases bytes.len(),
{
    if bytes.len() == 0 {
        seq![]
    } else {
        encoded_byte(bytes[0]) + encoded_bytes(bytes.drop_first())
    }
}

/// ASCII bytes read as characters.
pub open spec fn ascii_text(bytes: Seq<u8>) -> Seq<char> {
    Seq::new(bytes.len(), |i: int| bytes[i] as char)
}

/// The percent-encoding of the UTF-8 form of `text`.
pub open spec fn percent_encoded(text: Seq<char>) -> Seq<char> {
    ascii_text(encoded_bytes(encode_utf8(text)))
}

/// The value of a hexadecimal digit of either case.
pub open spec fn hex_value(digit: u8) -> Option<u8> {
    if ('0' as u8) <= digit <= ('9' as u8) {
        Some((digit - ('0' as u8)) as u8)
    } else if ('A' as u8) <= digit <= ('F' as u8) {
        Some((digit - ('A' as u8) + 10) as u8)
    } else if ('a' as u8) <= digit <= ('f' as u8) {
        Some((digit - ('a' as u8) + 10) as u8)
    } else {
        None
    }
}

/// Whether `bytes` begins with `%` and two hexadecimal digits.
pub open spec fn starts_with_escape(bytes: Seq<u8>) -> bool {
    &&& bytes.len() >= 3
    &&& bytes[0] == ('%' as u8)
    &&& hex_value(bytes[1]) is Some
    &&& hex_value(bytes[2]) is Some
}

/// A byte sequence with every escape replaced by the byte it stands for.
pub open spec fn decoded_bytes(bytes: Seq<u8>) -> Seq<u8>
    decreases bytes.len(),
{
    if bytes.len() == 0 {
        seq![]
    } else if starts_with_escape(bytes) {
        seq![(hex_value(bytes[1])->0 * 16 + hex_value(bytes[2])->0) as u8] + decoded_bytes(
            bytes.skip(3),
        )
    } else {
        seq![bytes[0]] + decoded_bytes(bytes.drop_first())
    }
}

/// `text` with its escapes resolved, read as UTF-8.
pub open spec fn percent_decoded(text: Seq<char>) -> Seq<char> {
    decode_utf8(decoded_bytes(encode_utf8(text)))
}

/// The characters that a percent-encoded text is made of.
pub open spec fn is_encoded_char(c: char) -> bool {
    ||| '0' <= c <= '9'
    ||| 'A' <= c <= 'Z'
    ||| 'a' <= c <= 'z'
    ||| c == '-'
    ||| c == '.'
    ||| c == '_'
    ||| c == '~'
    ||| c == '%'
}

/// Calls `urlencoding::encode`, which walks the UTF-8 bytes of its argument,
/// copies the unreserved ones and writes every other byte as `%` followed by
/// two upper-case hexadecimal digits.
#[verifier::external_body]
pub(crate) fn percent_encode(text: &str) -> (out: String)
    ensures
        out@ == percent_encoded(text@),
{
    urlencoding::encode(text).into_owned()
}

proof fn lemma_hex_digit(b: u8)
    ensures
        hex_value(hex_digit(b >> 4)) == Some(b >> 4),
        hex_value(hex_digit(b & 15)) == Some(b & 15),
        (b >> 4) * 16 + (b & 15) == b,
        hex_digit(b >> 4) < 128,
        hex_digit(b & 15) < 128,
        is_unreserved(hex_digit(b >> 4)),
        is_unreserved(hex_digit(b & 15)),
{
    assert((b >> 4) < 16 && (b & 15) < 16 && (b >> 4) * 16 + (b & 15) == b) by (bit_vector);
}

/// Every byte of an encoding is unreserved or `%`.
pub proof fn lemma_encoded_bytes_plain(bytes: Seq<u8>)
    ensures
        forall|i: int|
            0 <= i < encoded_bytes(bytes).len() ==> {
                let e = #[trigger] encoded_bytes(bytes)[i];
                is_unreserved(e) || e == ('%' as u8)
            },
    decreases bytes.len(),
{
    if bytes.len() > 0 {
        let head = encoded_byte(bytes[0]);
        let tail = encoded_bytes(bytes.drop_first());
        lemma_hex_digit(bytes[0]);
        lemma_encoded_bytes_plain(bytes.drop_first());
        assert forall|i: int| 0 <= i < encoded_bytes(bytes).len() implies {
            let e = #[trigger] encoded_bytes(bytes)[i];
            is_unreserved(e) || e == ('%' as u8)
        } by {
            if i >= head.len() {
                assert(encoded_bytes(bytes)[i] == tail[i - head.len()]);
            }
        }
    }
}

/// A percent-encoded text holds letters, digits, `-`, `.`, `_`, `~` and `%`
/// only.
pub proof fn lemma_percent_encoded_chars(text: Seq<char>)
    ensures
        forall|i: int|
            0 <= i < percent_encoded(text).len() ==> is_encoded_char(
                #[trigger] percent_encoded(text)[i],
            ),
{
    let encoded = encoded_bytes(encode_utf8(text));
    lemma_encoded_bytes_plain(encode_utf8(text));
    assert forall|i: int| 0 <= i < percent_encoded(text).len() implies is_encoded_char(
        #[trigger] percent_encoded(text)[i],
    ) by {
        assert(is_unreserved(encoded[i]) || encoded[i] == ('%' as u8));
    }
}

/// Decoding the encoding of a byte sequence gives the sequence back.
pub proof fn lemma_decoded_encoded_bytes(bytes: Seq<u8>)
    ensures
        decoded_bytes(encoded_bytes(bytes)) == bytes,
    decreases bytes.len(),
{
    if bytes.len() > 0 {
        let first = bytes[0];
        let rest = bytes.drop_first();
        let tail = encoded_bytes(rest);
        let all = encoded_bytes(bytes);
        lemma_decoded_encoded_bytes(rest);
        lemma_hex_digit(first);
        if is_unreserved(first) {
            assert(all.drop_first() == tail);
        } else {
            assert(all.skip(3) == tail);
        }
    }
}

/// Decoding a percent-encoded text gives the text back.
pub proof fn lemma_percent_round_trip(text: Seq<char>)
    ensures
        percent_decoded(percent_encoded(text)) == text,
{
    let bytes = encode_utf8(text);
    let encoded = encoded_bytes(bytes);
    let shown = percent_encoded(text);
    lemma_encoded_bytes_plain(bytes);
    assert forall|i: int| 0 <= i < shown.len() implies '\0' <= #[trigger] shown[i] <= '\u{7f}' by {
        assert(is_unreserved(encoded[i]) || encoded[i] == ('%' as u8));
    }
    is_ascii_chars_encode_utf8(shown);
    assert(encode_utf8(shown) =~= encoded) by {
        assert forall|i: int| 0 <= i < encoded.len() implies encode_utf8(shown)[i]
            == encoded[i] by {
            assert(is_unreserved(encoded[i]) || encoded[i] == ('%' as u8));
            assert(shown[i] as u8 == encoded[i]);
        }
    }
    lemma_decoded_encoded_bytes(bytes);
    encode_utf8_decode_utf8(text);
}

} // verus!
