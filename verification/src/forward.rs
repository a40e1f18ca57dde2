//! The bidirectional forwarder: two independent relay directions and the
//! session that joins them.
//!
//! Each direction owns a raw input buffer exclusively, decodes complete lines
//! from it under its inbound side's terminator convention, and re-encodes
//! every line under the opposite side's convention. A direction runs until
//! its input ends or it fails; the session reports a joint result only once
//! both directions have stopped, and a failure on one side never tears the
//! other down.
//!
//! The surrounding program owns the actual streams: it feeds each direction
//! the bytes it read, writes out the bytes the direction hands back, and
//! reports end-of-stream and transport failures.

use vstd::prelude::*;
use vstd::utf8::{decode_utf8, encode_utf8, valid_utf8};
use crate::console;
use crate::console::MAX_FRAME_LEN;
use crate::device;
use crate::frame::{has_lf, lemma_lf_pos, lf_pos, CR, LF};
use crate::RelayError;

verus! {

/// Which side's line-terminator convention governs a stream of raw bytes.
#[derive(Clone, Copy, Debug, PartialEq, Eq, Structural)]
pub enum Convention {
    /// Lines end in `\r\n`; the pair is stripped by position when decoding.
    Device,
    /// Lines end in `\n`, and decoding gives up past [`MAX_FRAME_LEN`].
    Console,
}

/// The convention of the opposite side, under which a direction re-encodes
/// the lines it decoded.
pub open spec fn opposite(c: Convention) -> Convention {
    match c {
        Convention::Device => Convention::Console,
        Convention::Console => Convention::Device,
    }
}

/// The terminator bytes that encoding appends under each convention.
pub open spec fn terminator(c: Convention) -> Seq<u8> {
    match c {
        Convention::Device => seq![CR, LF],
        Convention::Console => seq![LF],
    }
}

/// The wire form of one line under the given convention.
pub open spec fn encoded_line(c: Convention, line: Seq<char>) -> Seq<u8> {
    encode_utf8(line) + terminator(c)
}

/// The payload of the first complete frame in the buffer: the device
/// convention strips the byte before the line feed, the console convention
/// keeps everything up to the line feed.
pub open spec fn payload_of(c: Convention, b: Seq<u8>) -> Seq<u8>
    recommends
        has_lf(b),
        c is Device ==> lf_pos(b) >= 1,
{
    match c {
        Convention::Device => b.subrange(0, lf_pos(b) - 1),
        Convention::Console => b.subrange(0, lf_pos(b)),
    }
}

/// What stays in the buffer after the first complete frame is consumed.
pub open spec fn rest_of(b: Seq<u8>) -> Seq<u8>
    recommends
        has_lf(b),
{
    b.subrange(lf_pos(b) + 1, b.len() as int)
}

/// What one direction does with everything currently in its buffer: the
/// re-encoded wire bytes of every line it can decode, the bytes that stay
/// buffered, and the failure that stopped it, if one did.
///
/// Frames are taken from the front one at a time and each decoded line is
/// re-encoded under the opposite convention, until no complete frame is left
/// (no failure; the unconsumed bytes wait for more input) or a frame fails to
/// decode (the failure is terminal and nothing after it is produced).
pub open spec fn drain(inbound: Convention, b: Seq<u8>) -> (Seq<u8>, Seq<u8>, Option<RelayError>)
    decreases b.len(),
{
    if !has_lf(b) {
        if inbound is Console && b.len() > MAX_FRAME_LEN {
            (Seq::<u8>::empty(), b, Some(RelayError::FrameTooLong))
        } else {
            (Seq::<u8>::empty(), b, None)
        }
    } else {
        proof {
            lemma_lf_pos(b);
        }
        if inbound is Device && lf_pos(b) < 1 {
            (Seq::<u8>::empty(), rest_of(b), Some(RelayError::Decode))
        } else if !valid_utf8(payload_of(inbound, b)) {
            (Seq::<u8>::empty(), rest_of(b), Some(RelayError::Decode))
        } else {
            let line = decode_utf8(payload_of(inbound, b));
            let tail = drain(inbound, rest_of(b));
            (encoded_line(opposite(inbound), line) + tail.0, tail.1, tail.2)
        }
    }
}

/// Where a direction stands in its `Running -> {Completed | Failed}` life.
#[derive(Clone, Copy, Debug, PartialEq, Eq, Structural)]
pub enum Status {
    /// Still relaying: more input may arrive.
    Running,
    /// The input stream ended cleanly.
    Completed,
    /// A decode or transport failure stopped this direction for good.
    Failed(RelayError),
}

/// The outcome a stopped direction contributes to the joint result.
pub open spec fn outcome_of(s: Status) -> Result<(), RelayError>
    recommends
        !(s is Running),
{
    match s {
        Status::Failed(e) => Err(e),
        _ => Ok(()),
    }
}

/// One relay direction: the raw bytes accumulated from its input stream, the
/// convention those bytes follow, and how far its life has run. The opposite
/// convention governs what it emits.
pub struct Direction {
    /// The convention of the incoming raw bytes.
    pub inbound: Convention,
    /// Bytes read but not yet part of a complete frame.
    pub buf: Vec<u8>,
    /// Where this direction stands.
    pub status: Status,
}

impl Direction {
    /// A fresh direction: nothing buffered, still running.
    pub fn new(inbound: Convention) -> (d: Direction)
        ensures
            d.inbound == inbound,
            d.buf@ == Seq::<u8>::empty(),
            d.status == Status::Running,
    {
        Direction { inbound, buf: Vec::new(), status: Status::Running }
    }

    /// True while the direction still accepts input.
    pub fn is_running(&self) -> (r: bool)
        ensures
            r == (self.status is Running),
    {
        match self.status {
            Status::Running => true,
            _ => false,
        }
    }

    /// Feeds the direction the bytes just read from its input stream and
    /// returns the bytes to write to its output stream: every line that is
    /// now complete, re-encoded under the opposite convention. Decoding a
    /// malformed frame, or outgrowing the console bound, stops the direction;
    /// the lines produced before the failure are still returned, and the
    /// bytes after the bad frame stay buffered.
    #[verifier::loop_isolation(false)]
    pub fn on_read(&mut self, data: &Vec<u8>) -> (out: Vec<u8>)
        requires
            old(self).status is Running,
        ensures
            final (self).inbound == old(self).inbound,
            ({
                let d = drain(old(self).inbound, old(self).buf@ + data@);
                &&& out@ == d.0
                &&& final (self).buf@ == d.1
                &&& final (self).status == (match d.2 {
                    None => Status::Running,
                    Some(e) => Status::Failed(e),
                })
            }),
    {
        let ghost inb = self.inbound;
        let ghost w = self.buf@ + data@;
        append_bytes(&mut self.buf, data);
        let mut out: Vec<u8> = Vec::new();
        loop
            invariant
                self.inbound == inb,
                self.status is Running,
                drain(inb, w).0 == out@ + drain(inb, self.buf@).0,
                drain(inb, w).1 == drain(inb, self.buf@).1,
                drain(inb, w).2 == drain(inb, self.buf@).2,
            decreases self.buf@.len(),
        {
            let ghost prev = self.buf@;
            let step = match self.inbound {
                Convention::Device => device::decode_frame(&mut self.buf),
                Convention::Console => console::decode_frame(&mut self.buf),
            };
            match step {
                Ok(Some(line)) => {
                    proof {
                        lemma_lf_pos(prev);
                        assert(self.buf@ =~= rest_of(prev));
                        assert(line@ == decode_utf8(payload_of(inb, prev)));
                    }
                    match self.inbound {
                        Convention::Device => console::encode_frame(line.as_str(), &mut out),
                        Convention::Console => device::encode_frame(line.as_str(), &mut out),
                    }
                    proof {
                        assert(drain(inb, prev).0 =~= encoded_line(opposite(inb), line@) + drain(
                            inb,
                            self.buf@,
                        ).0);
                    }
                },
                Ok(None) => {
                    proof {
                        assert(drain(inb, w).0 =~= out@);
                    }
                    return out;
                },
                Err(e) => {
                    proof {
                        if has_lf(prev) {
                            lemma_lf_pos(prev);
                            assert(self.buf@ =~= rest_of(prev));
                        }
                        assert(drain(inb, w).0 =~= out@);
                    }
                    self.status = Status::Failed(e);
                    return out;
                },
            }
        }
    }

    /// The input stream ended. The direction completes cleanly; bytes of an
    /// unterminated trailing line are discarded, not delivered.
    pub fn on_eof(&mut self)
        requires
            old(self).status is Running,
        ensures
            final (self).inbound == old(self).inbound,
            final (self).buf@ == Seq::<u8>::empty(),
            final (self).status == Status::Completed,
    {
        self.buf.clear();
        self.status = Status::Completed;
    }

    /// Reading from the input stream or writing to the output stream failed.
    /// The failure is terminal for this direction.
    pub fn on_transport_error(&mut self)
        requires
            old(self).status is Running,
        ensures
            final (self).inbound == old(self).inbound,
            final (self).buf@ == old(self).buf@,
            final (self).status == Status::Failed(RelayError::Transport),
    {
        self.status = Status::Failed(RelayError::Transport);
    }

    /// The outcome this direction contributes to the joint result, once it
    /// has stopped.
    pub fn outcome(&self) -> (r: Result<(), RelayError>)
        requires
            !(self.status is Running),
        ensures
            r == outcome_of(self.status),
    {
        match self.status {
            Status::Failed(e) => Err(e),
            _ => Ok(()),
        }
    }
}

/// Appends the freshly read bytes to a direction's buffer.
fn append_bytes(dst: &mut Vec<u8>, data: &Vec<u8>)
    ensures
        final (dst)@ == old(dst)@ + data@,
{
    let mut i: usize = 0;
    while i < data.len()
        invariant
            0 <= i <= data@.len(),
            dst@ == old(dst)@ + data@.subrange(0, i as int),
        decreases data@.len() - i,
    {
        dst.push(data[i]);
        proof {
            assert(dst@ =~= old(dst)@ + data@.subrange(0, i as int + 1));
        }
        i = i + 1;
    }
    proof {
        assert(dst@ =~= old(dst)@ + data@);
    }
}

/// What the surrounding program needs in order to open the device stream.
/// Passed in explicitly when the session is made; the relay itself keeps no
/// ambient configuration.
pub struct Config {
    /// Path of the serial device to bridge to.
    pub device_path: String,
    /// Baud rate to open it at.
    pub baud_rate: u32,
}

/// The paired lifetime of the two relay directions: made at startup, alive
/// until both directions have stopped, and then good for one joint result.
pub struct Session {
    /// How to reach the device; for the surrounding program to act on.
    pub config: Config,
    /// Console bytes in, device bytes out.
    pub console_to_device: Direction,
    /// Device bytes in, console bytes out.
    pub device_to_console: Direction,
}

impl Session {
    /// A fresh session: both directions running with empty buffers.
    pub fn new(config: Config) -> (s: Session)
        ensures
            s.config == config,
            s.console_to_device.inbound == Convention::Console,
            s.console_to_device.buf@ == Seq::<u8>::empty(),
            s.console_to_device.status == Status::Running,
            s.device_to_console.inbound == Convention::Device,
            s.device_to_console.buf@ == Seq::<u8>::empty(),
            s.device_to_console.status == Status::Running,
    {
        Session {
            config,
            console_to_device: Direction::new(Convention::Console),
            device_to_console: Direction::new(Convention::Device),
        }
    }

    /// True once both directions have stopped and the joint result is due.
    pub fn finished(&self) -> (r: bool)
        ensures
            r == (!(self.console_to_device.status is Running) && !(
            self.device_to_console.status is Running)),
    {
        !self.console_to_device.is_running() && !self.device_to_console.is_running()
    }

    /// The joint result: each direction's own outcome, side by side. Neither
    /// direction's failure displaces the other's outcome.
    pub fn joint_result(&self) -> (r: (Result<(), RelayError>, Result<(), RelayError>))
        requires
            !(self.console_to_device.status is Running),
            !(self.device_to_console.status is Running),
        ensures
            r.0 == outcome_of(self.console_to_device.status),
            r.1 == outcome_of(self.device_to_console.status),
    {
        (self.console_to_device.outcome(), self.device_to_console.outcome())
    }
}

} // verus!
