//! The console side of the relay: its frame decoder and encoder.
//!
//! The console uses plain `\n`-terminated lines in both directions, with no
//! `\r` stripped or inserted. Unlike the device decoder, the console decoder
//! bounds how far it will search for a terminator: a buffer that outgrows
//! [`MAX_FRAME_LEN`] with no line feed in it is a pathological run of input
//! and is reported as a frame-too-long failure rather than buffered forever.

use vstd::prelude::*;
use vstd::string::StrSliceExecFns;
use vstd::utf8::{decode_utf8, encode_utf8, valid_utf8};
use crate::frame::{find_lf, has_lf, lemma_lf_pos, lemma_lf_pos_is_first, lf_pos, LF};
use crate::text::{bytes_to_string, lemma_encode_utf8_no_lf};
use crate::RelayError;

verus! {

/// The generous bound on how many bytes may accumulate with no terminator
/// before console decoding gives up on the stream.
pub const MAX_FRAME_LEN: usize = 8388608;

/// Takes at most one complete line out of the raw bytes accumulated from the
/// console.
///
/// With no line feed buffered yet, nothing is consumed; that is no frame yet
/// while the buffer is within [`MAX_FRAME_LEN`], and a frame-too-long failure
/// once it has grown past the bound. Otherwise the frame up to and including
/// the first line feed is consumed; the bytes before the line feed are the
/// payload, which yields a line exactly when it is valid UTF-8 and a decode
/// failure otherwise.
pub fn decode_frame(src: &mut Vec<u8>) -> (r: Result<Option<String>, RelayError>)
    ensures
        !has_lf(old(src)@) ==> final (src)@ == old(src)@,
        !has_lf(old(src)@) && old(src)@.len() <= MAX_FRAME_LEN ==> r == Ok::<
            Option<String>,
            RelayError,
        >(None),
        !has_lf(old(src)@) && old(src)@.len() > MAX_FRAME_LEN ==> r == Err::<
            Option<String>,
            RelayError,
        >(RelayError::FrameTooLong),
        has_lf(old(src)@) ==> final (src)@ == old(src)@.subrange(
            lf_pos(old(src)@) + 1,
            old(src)@.len() as int,
        ) && ({
            let payload = old(src)@.subrange(0, lf_pos(old(src)@));
            match r {
                Ok(Some(line)) => valid_utf8(payload) && line@ == decode_utf8(payload),
                Ok(None) => false,
                Err(e) => e == RelayError::Decode && !valid_utf8(payload),
            }
        }),
{
    let n = match find_lf(src) {
        Some(n) => n,
        None => {
            if src.len() > MAX_FRAME_LEN {
                return Err(RelayError::FrameTooLong);
            }
            return Ok(None);
        },
    };
    proof {
        lemma_lf_pos(src@);
    }
    let len = src.len();
    proof {
        assert(n < len);
    }
    let mut tail = src.split_off(n + 1);
    src.truncate(n);
    proof {
        assert(src@ =~= old(src)@.subrange(0, n as int));
    }
    core::mem::swap(src, &mut tail);
    match bytes_to_string(tail) {
        Some(line) => Ok(Some(line)),
        None => Err(RelayError::Decode),
    }
}

/// Appends the console wire form of one line to the outgoing buffer: the
/// text's UTF-8 bytes, then `\n`. Encoding never fails and puts no bound on
/// the line.
pub fn encode_frame(line: &str, dst: &mut Vec<u8>)
    ensures
        final (dst)@ == old(dst)@ + encode_utf8(line@) + seq![LF],
{
    let mut bytes = line.as_bytes_vec();
    dst.append(&mut bytes);
    dst.push(LF);
    proof {
        assert(dst@ =~= old(dst)@ + encode_utf8(line@) + seq![LF]);
    }
}

/// Round trip of the console convention: a line whose text holds no `\n`,
/// encoded for the console, decodes back to exactly that line. The encoder's
/// output ends in the one terminator byte, the decoder finds it and no
/// earlier one, and the payload before it decodes to the original text with
/// nothing left in the buffer.
pub proof fn lemma_console_round_trip(line: Seq<char>)
    requires
        forall|i: int| 0 <= i < line.len() ==> line[i] != '\n',
    ensures
        ({
            let wire = encode_utf8(line) + seq![LF];
            &&& has_lf(wire)
            &&& lf_pos(wire) == encode_utf8(line).len()
            &&& wire.subrange(0, lf_pos(wire)) == encode_utf8(line)
            &&& valid_utf8(wire.subrange(0, lf_pos(wire)))
            &&& decode_utf8(wire.subrange(0, lf_pos(wire))) == line
            &&& wire.subrange(lf_pos(wire) + 1, wire.len() as int) == Seq::<u8>::empty()
        }),
{
    lemma_encode_utf8_no_lf(line);
    let enc = encode_utf8(line);
    let wire = enc + seq![LF];
    let n = enc.len() as int;
    assert(wire[n] == LF);
    assert forall|j: int| 0 <= j < n implies wire[j] != LF by {
        assert(wire[j] == enc[j]);
    }
    lemma_lf_pos_is_first(wire, n);
    assert(wire.subrange(0, n) =~= enc);
    vstd::utf8::encode_utf8_valid_utf8(line);
    vstd::utf8::encode_utf8_decode_utf8(line);
    assert(wire.subrange(n + 1, wire.len() as int) =~= Seq::<u8>::empty());
}

} // verus!
