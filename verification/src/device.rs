//! The device side of the relay: its frame decoder and encoder.
//!
//! The device terminates each line with `\r\n`. The decoder looks for the
//! first `\n` in the accumulated bytes, consumes the frame up to and
//! including it, and strips the frame's last two bytes — the assumed `\r\n`
//! pair, the found `\n` being its second byte — by position alone: the byte
//! in front of the `\n` is dropped whatever its value is. A frame of one byte
//! has no room for that pair and is reported as a decode failure. The decoder
//! places no bound on how many unterminated bytes it buffers.

use vstd::prelude::*;
use vstd::string::StrSliceExecFns;
use vstd::utf8::{decode_utf8, encode_utf8, valid_utf8};
use crate::frame::{find_lf, has_lf, lemma_lf_pos, lemma_lf_pos_is_first, lf_pos, CR, LF};
use crate::text::{bytes_to_string, lemma_encode_utf8_no_lf};
use crate::RelayError;

verus! {

/// Takes at most one complete line out of the raw bytes accumulated from the
/// device.
///
/// With no line feed buffered yet, nothing is consumed and no frame is
/// reported, however long the buffer is. Otherwise the frame up to and
/// including the first line feed is consumed; the bytes in front of the
/// stripped terminator pair are the payload, which yields a line exactly when
/// it is valid UTF-8 and a decode failure otherwise. A frame too short to
/// hold the terminator pair is a decode failure as well.
pub fn decode_frame(src: &mut Vec<u8>) -> (r: Result<Option<String>, RelayError>)
    ensures
        !has_lf(old(src)@) ==> r == Ok::<Option<String>, RelayError>(None) && final (src)@ == old(
            src,
        )@,
        has_lf(old(src)@) ==> final (src)@ == old(src)@.subrange(
            lf_pos(old(src)@) + 1,
            old(src)@.len() as int,
        ),
        has_lf(old(src)@) && lf_pos(old(src)@) < 1 ==> r == Err::<Option<String>, RelayError>(
            RelayError::Decode,
        ),
        has_lf(old(src)@) && lf_pos(old(src)@) >= 1 ==> ({
            let payload = old(src)@.subrange(0, lf_pos(old(src)@) - 1);
            match r {
                Ok(Some(line)) => valid_utf8(payload) && line@ == decode_utf8(payload),
                Ok(None) => false,
                Err(e) => e == RelayError::Decode && !valid_utf8(payload),
            }
        }),
{
    let n = match find_lf(src) {
        Some(n) => n,
        None => {
            return Ok(None);
        },
    };
    proof {
        lemma_lf_pos(src@);
    }
    let len = src.len();
    proof {
        assert(n < len);
    }
    let mut tail = src.split_off(n + 1);
    if n < 1 {
        core::mem::swap(src, &mut tail);
        return Err(RelayError::Decode);
    }
    src.truncate(n - 1);
    proof {
        assert(src@ =~= old(src)@.subrange(0, n as int - 1));
    }
    core::mem::swap(src, &mut tail);
    match bytes_to_string(tail) {
        Some(line) => Ok(Some(line)),
        None => Err(RelayError::Decode),
    }
}

/// Appends the device wire form of one line to the outgoing buffer: the
/// text's UTF-8 bytes, then `\r`, then `\n`. Encoding never fails and puts no
/// bound on the line.
pub fn encode_frame(line: &str, dst: &mut Vec<u8>)
    ensures
        final (dst)@ == old(dst)@ + encode_utf8(line@) + seq![CR, LF],
{
    let mut bytes = line.as_bytes_vec();
    dst.append(&mut bytes);
    dst.push(CR);
    dst.push(LF);
    proof {
        assert(dst@ =~= old(dst)@ + encode_utf8(line@) + seq![CR, LF]);
    }
}

/// Partial frames persist across reads: a buffer with no line feed yields no
/// frame and keeps every byte queued, and once appended input supplies the
/// first line feed, the one frame then taken spans the queued prefix and the
/// new bytes together — its payload is all of the old bytes followed by the
/// new bytes up to the stripped terminator pair.
pub proof fn lemma_partial_frame_persists(b1: Seq<u8>, b2: Seq<u8>)
    requires
        !has_lf(b1),
        has_lf(b2),
    ensures
        has_lf(b1 + b2),
        lf_pos(b1 + b2) == b1.len() + lf_pos(b2),
        lf_pos(b2) >= 1 ==> (b1 + b2).subrange(0, lf_pos(b1 + b2) - 1) == b1 + b2.subrange(
            0,
            lf_pos(b2) - 1,
        ),
{
    crate::frame::lemma_lf_append(b1, b2);
    lemma_lf_pos(b2);
    if lf_pos(b2) >= 1 {
        assert((b1 + b2).subrange(0, b1.len() + lf_pos(b2) - 1) =~= b1 + b2.subrange(
            0,
            lf_pos(b2) - 1,
        ));
    }
}

/// Round trip of the device convention: a line whose text holds no `\n`, `\r`
/// or `\0`, encoded for the device, decodes back to exactly that line. The
/// encoder's output ends in the terminator pair, the decoder finds that line
/// feed and no earlier one, strips the pair, and the payload decodes to the
/// original text with nothing left in the buffer.
pub proof fn lemma_device_round_trip(line: Seq<char>)
    requires
        forall|i: int| 0 <= i < line.len() ==> line[i] != '\n' && line[i] != '\r' && line[i] != '\0',
    ensures
        ({
            let wire = encode_utf8(line) + seq![CR, LF];
            &&& has_lf(wire)
            &&& lf_pos(wire) == encode_utf8(line).len() + 1
            &&& lf_pos(wire) >= 1
            &&& wire.subrange(0, lf_pos(wire) - 1) == encode_utf8(line)
            &&& valid_utf8(wire.subrange(0, lf_pos(wire) - 1))
            &&& decode_utf8(wire.subrange(0, lf_pos(wire) - 1)) == line
            &&& wire.subrange(lf_pos(wire) + 1, wire.len() as int) == Seq::<u8>::empty()
        }),
{
    lemma_encode_utf8_no_lf(line);
    let enc = encode_utf8(line);
    let wire = enc + seq![CR, LF];
    let n = enc.len() as int + 1;
    assert(wire[n] == LF);
    assert forall|j: int| 0 <= j < n implies wire[j] != LF by {
        if j < enc.len() {
            assert(wire[j] == enc[j]);
        } else {
            assert(wire[j] == CR);
        }
    }
    lemma_lf_pos_is_first(wire, n);
    assert(wire.subrange(0, n - 1) =~= enc);
    vstd::utf8::encode_utf8_valid_utf8(line);
    vstd::utf8::encode_utf8_decode_utf8(line);
    assert(wire.subrange(n + 1, wire.len() as int) =~= Seq::<u8>::empty());
}

} // verus!
