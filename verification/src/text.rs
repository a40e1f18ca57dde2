//! Turning frame payloads into text, and facts about the byte form of text.
//!
//! The relay hands every complete payload to UTF-8 decoding; a payload that is
//! not valid UTF-8 is the one way a complete frame can fail to become a line.

use vstd::prelude::*;
use vstd::utf8::{
    char_is_scalar, char_u32_cast, decode_utf8, encode_scalar, encode_utf8, has_width_1_encoding,
    valid_utf8,
};
use crate::frame::LF;

verus! {

/// Turns one payload into text.
///
/// Relies on `String::from_utf8`: it returns `Ok` exactly when the bytes are a
/// valid UTF-8 encoding, and the string it then yields is their decoding.
#[verifier::external_body]
pub(crate) fn bytes_to_string(bytes: Vec<u8>) -> (r: Option<String>)
    ensures
        match r {
            Some(s) => valid_utf8(bytes@) && s@ == decode_utf8(bytes@),
            None => !valid_utf8(bytes@),
        },
{
    match String::from_utf8(bytes) {
        Ok(s) => Some(s),
        Err(_) => None,
    }
}

/// No byte of a multi-byte UTF-8 encoding, and no single-byte encoding of a
/// character other than `\n`, is the line-feed byte.
proof fn lemma_encode_scalar_no_lf(c: char)
    requires
        c != '\n',
    ensures
        forall|j: int|
            0 <= j < encode_scalar(c as u32).len() ==> #[trigger] encode_scalar(c as u32)[j] != LF,
{
    char_is_scalar(c);
    let v = c as u32;
    let e = encode_scalar(v);
    if has_width_1_encoding(v) {
        assert(v & 0x7F == v) by (bit_vector)
            requires
                v <= 0x7F,
        ;
        if e[0] == LF {
            assert(v == 10);
            char_u32_cast(c, v);
            assert(c == '\n');
        }
    } else {
        assert forall|j: int| 0 <= j < e.len() implies e[j] != LF by {
            let lead2 = (v >> 6) & 0x1F;
            let lead3 = (v >> 12) & 0x0F;
            let lead4 = (v >> 18) & 0x7;
            let cont1 = v & 0x3F;
            let cont2 = (v >> 6) & 0x3F;
            let cont3 = (v >> 12) & 0x3F;
            assert(0xC0u8 | (lead2 as u8) >= 0x80) by (bit_vector);
            assert(0xE0u8 | (lead3 as u8) >= 0x80) by (bit_vector);
            assert(0xF0u8 | (lead4 as u8) >= 0x80) by (bit_vector);
            assert(0x80u8 | (cont1 as u8) >= 0x80) by (bit_vector);
            assert(0x80u8 | (cont2 as u8) >= 0x80) by (bit_vector);
            assert(0x80u8 | (cont3 as u8) >= 0x80) by (bit_vector);
        }
    }
}

/// Text with no `\n` character encodes to bytes with no line-feed byte, so
/// encoding a line never smuggles a frame boundary into the wire form.
pub proof fn lemma_encode_utf8_no_lf(chars: Seq<char>)
    requires
        forall|i: int| 0 <= i < chars.len() ==> chars[i] != '\n',
    ensures
        forall|j: int| 0 <= j < encode_utf8(chars).len() ==> encode_utf8(chars)[j] != LF,
    decreases chars.len(),
{
    if chars.len() == 0 {
    } else {
        let first = encode_scalar(chars[0] as u32);
        let rest = encode_utf8(chars.drop_first());
        lemma_encode_scalar_no_lf(chars[0]);
        lemma_encode_utf8_no_lf(chars.drop_first());
        assert(encode_utf8(chars) == first + rest);
        assert forall|j: int| 0 <= j < encode_utf8(chars).len() implies encode_utf8(chars)[j]
            != LF by {
            if j < first.len() {
                assert(encode_utf8(chars)[j] == first[j]);
            } else {
                assert(encode_utf8(chars)[j] == rest[j - first.len()]);
            }
        }
    }
}

} // verus!
