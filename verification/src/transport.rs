//! Transport: whole-frame reads and writes over any bidirectional byte
//! stream. The stream is modelled by two byte sequences, the bytes still to
//! arrive and the bytes sent so far; an in-memory loopback endpoint
//! implements the model directly and unverified endpoints (sockets,
//! encrypted streams) implement it outside this crate.

use vstd::prelude::*;
use vstd::pervasive::unreached;
use vstd::slice::{slice_subrange, slice_to_vec};
use crate::adb::{MAX_PAYLOAD, is_known_command, known_command};
use crate::types::{AMessage, APacket, AdbError, spec_decode_header, spec_frame_bytes,
    spec_header_bytes, spec_read_frame, spec_sent_header};

verus! {

/// One bidirectional byte-stream endpoint. `inbuf` models the bytes the peer
/// has sent that this endpoint has not consumed yet; `outbuf` models every
/// byte this endpoint has written. Reads never touch `outbuf` and writes
/// never touch `inbuf`; a failing operation reports `AdbError::Io` and is not
/// retried.
pub trait ByteStream {
    /// The incoming bytes not yet consumed. The default model is the empty
    /// stream; endpoints implemented outside this crate (sockets, encrypted
    /// streams) keep it, since no fact about their buffers is checked anyway.
    open spec fn inbuf(&self) -> Seq<u8> {
        Seq::<u8>::empty()
    }

    /// The bytes written so far; see [`ByteStream::inbuf`] on the default.
    open spec fn outbuf(&self) -> Seq<u8> {
        Seq::<u8>::empty()
    }

    /// Whether this endpoint can fail: a reliable endpoint owes success
    /// whenever its modelled buffers allow the operation. The in-memory
    /// loopback is reliable; endpoints that can fail for outside reasons
    /// (sockets, encrypted streams) keep the default.
    open spec fn reliable(&self) -> bool {
        false
    }

    /// Reads exactly `n` bytes, or fails; a short read is an error, never
    /// retried or buffered. A reliable endpoint succeeds whenever `n` bytes
    /// are there to read.
    fn read_bytes(&mut self, n: usize) -> (r: Result<Vec<u8>, AdbError>)
        ensures
            final(self).outbuf() == old(self).outbuf(),
            final(self).reliable() == old(self).reliable(),
            old(self).reliable() && old(self).inbuf().len() >= n ==> r is Ok,
            match r {
                Ok(v) => old(self).inbuf().len() >= n && v@ == old(self).inbuf().take(n as int)
                    && final(self).inbuf() == old(self).inbuf().skip(n as int),
                Err(e) => e == AdbError::Io,
            },
    ;

    /// Writes some prefix of `data`, returning how many bytes went out; a
    /// failed write call writes nothing. A reliable endpoint writes all of
    /// `data`.
    fn write_bytes(&mut self, data: &[u8]) -> (r: Result<usize, AdbError>)
        ensures
            final(self).inbuf() == old(self).inbuf(),
            final(self).reliable() == old(self).reliable(),
            old(self).reliable() ==> (r matches Ok(k) && k == data@.len()),
            match r {
                Ok(n) => n <= data@.len() && final(self).outbuf() == old(self).outbuf()
                    + data@.take(n as int),
                Err(e) => e == AdbError::Io && final(self).outbuf() == old(self).outbuf(),
            },
    ;
}

/// Owns exactly one byte-stream endpoint and exchanges whole frames over it.
/// It is never upgraded in place: to move to an encrypted stream, the
/// endpoint is taken back out with [`ATransport::stream`], rewrapped, and a
/// new transport is built over the result.
pub struct ATransport<S> {
    stream: S,
}

impl<S: ByteStream> ATransport<S> {
    /// The incoming bytes of the owned endpoint not yet consumed.
    pub closed spec fn inbuf(&self) -> Seq<u8> {
        self.stream.inbuf()
    }

    /// The bytes written to the owned endpoint so far.
    pub closed spec fn outbuf(&self) -> Seq<u8> {
        self.stream.outbuf()
    }

    /// Whether the owned endpoint owes success (see [`ByteStream::reliable`]).
    pub closed spec fn reliable(&self) -> bool {
        self.stream.reliable()
    }

    /// Wraps an endpoint.
    pub fn new(stream: S) -> (r: ATransport<S>)
        ensures
            r.inbuf() == stream.inbuf(),
            r.outbuf() == stream.outbuf(),
            r.reliable() == stream.reliable(),
    {
        ATransport { stream }
    }

    /// Consumes the transport and returns the owned endpoint, so that it can
    /// be rewrapped (for the plaintext-to-encrypted transition). After this
    /// call the old transport no longer exists; no further read or write can
    /// be issued against it.
    pub fn stream(self) -> (r: S)
        ensures
            r.inbuf() == self.inbuf(),
            r.outbuf() == self.outbuf(),
            r.reliable() == self.reliable(),
    {
        self.stream
    }

    /// Reads one whole frame: exactly 24 header bytes, then exactly
    /// `data_length` payload bytes. Fails on a stream error, on a command
    /// outside the closed set, and on a payload longer than the advertised
    /// maximum; a failure other than a stream error means the incoming bytes
    /// held no acceptable frame.
    pub fn read_apacket(&mut self) -> (r: Result<APacket, AdbError>)
        ensures
            final(self).outbuf() == old(self).outbuf(),
            final(self).reliable() == old(self).reliable(),
            old(self).reliable() && spec_read_frame(old(self).inbuf()) is Some ==> r is Ok,
            match r {
                Ok(p) => spec_read_frame(old(self).inbuf()) == Some(
                    (p.msg, p.payload@, final(self).inbuf()),
                ),
                Err(e) => e == AdbError::Io || (spec_read_frame(old(self).inbuf()) is None && old(
                    self,
                ).inbuf().len() >= 24 && ((e == AdbError::UnknownCommand && !is_known_command(
                    spec_decode_header(old(self).inbuf()).command,
                )) || (e == AdbError::PayloadTooLarge && is_known_command(
                    spec_decode_header(old(self).inbuf()).command,
                ) && spec_decode_header(old(self).inbuf()).data_length > MAX_PAYLOAD))),
            },
    {
        let hdr = self.stream.read_bytes(24)?;
        let msg = match AMessage::from(hdr.as_slice()) {
            Ok(m) => m,
            Err(_) => unreached(),
        };
        proof {
            assert(hdr@.subrange(0, 4) =~= old(self).inbuf().subrange(0, 4));
            assert(hdr@.subrange(4, 8) =~= old(self).inbuf().subrange(4, 8));
            assert(hdr@.subrange(8, 12) =~= old(self).inbuf().subrange(8, 12));
            assert(hdr@.subrange(12, 16) =~= old(self).inbuf().subrange(12, 16));
            assert(hdr@.subrange(16, 20) =~= old(self).inbuf().subrange(16, 20));
            assert(hdr@.subrange(20, 24) =~= old(self).inbuf().subrange(20, 24));
            assert(spec_decode_header(hdr@) == spec_decode_header(old(self).inbuf()));
        }
        if !known_command(msg.command) {
            return Err(AdbError::UnknownCommand);
        }
        if msg.data_length > MAX_PAYLOAD {
            return Err(AdbError::PayloadTooLarge);
        }
        let payload = self.stream.read_bytes(msg.data_length as usize)?;
        proof {
            assert(payload@ =~= old(self).inbuf().subrange(24, 24 + msg.data_length as int));
            assert(self.inbuf() =~= old(self).inbuf().skip(24 + msg.data_length as int));
        }
        Ok(APacket { msg, payload })
    }

    /// Sends one frame as a single contiguous unit: the header with
    /// `data_length` set to the payload length and `magic` recomputed,
    /// followed by the payload, looping until every byte is written. A write
    /// call that makes no progress is an error; on failure some prefix of the
    /// frame may already be on the wire.
    #[verifier::loop_isolation(false)]
    pub fn send_apacket(&mut self, packet: APacket) -> (r: Result<usize, AdbError>)
        requires
            packet.payload@.len() <= u32::MAX,
            packet.payload@.len() + 24 <= usize::MAX,
        ensures
            final(self).inbuf() == old(self).inbuf(),
            final(self).reliable() == old(self).reliable(),
            old(self).reliable() ==> r is Ok,
            match r {
                Ok(n) => n == 24 + packet.payload@.len()
                    && final(self).outbuf() == old(self).outbuf()
                    + spec_frame_bytes(packet.msg, packet.payload@),
                Err(e) => e == AdbError::Io
                    && old(self).outbuf().len() <= final(self).outbuf().len()
                    && final(self).outbuf().len() <= old(self).outbuf().len() + 24
                    + packet.payload@.len()
                    && final(self).outbuf() == old(self).outbuf()
                    + spec_frame_bytes(packet.msg, packet.payload@).take(
                        final(self).outbuf().len() - old(self).outbuf().len(),
                    ),
            },
    {
        let ghost m0 = packet.msg;
        let ghost p0 = packet.payload@;
        let mut msg = packet.msg;
        msg.data_length = packet.payload.len() as u32;
        let mut buf = match msg.bytes() {
            Ok(b) => b,
            Err(_) => unreached(),
        };
        proof {
            assert(spec_header_bytes(msg) =~= spec_header_bytes(spec_sent_header(m0, p0)));
        }
        let mut payload = packet.payload;
        buf.append(&mut payload);
        proof {
            assert(buf@ =~= spec_frame_bytes(m0, p0));
        }
        let total = buf.len();
        let mut written: usize = 0;
        while written < total
            invariant
                total == buf@.len(),
                total == 24 + p0.len(),
                buf@ == spec_frame_bytes(m0, p0),
                written <= total,
                self.inbuf() == old(self).inbuf(),
                self.reliable() == old(self).reliable(),
                self.outbuf() == old(self).outbuf() + buf@.take(written as int),
            decreases total - written,
        {
            let chunk = slice_subrange(buf.as_slice(), written, total);
            match self.stream.write_bytes(chunk) {
                Ok(n) => {
                    if n == 0 {
                        proof {
                            assert(spec_frame_bytes(m0, p0).take(written as int).len()
                                == written as int);
                            assert(self.outbuf().len() == old(self).outbuf().len() + written);
                            assert(self.outbuf() == old(self).outbuf() + spec_frame_bytes(
                                m0,
                                p0,
                            ).take(written as int));
                        }
                        return Err(AdbError::Io);
                    }
                    proof {
                        assert(buf@.take(written as int) + chunk@.take(n as int) =~= buf@.take(
                            written + n,
                        ));
                    }
                    written = written + n;
                }
                Err(_) => {
                    proof {
                        assert(spec_frame_bytes(m0, p0).take(written as int).len()
                            == written as int);
                        assert(self.outbuf().len() == old(self).outbuf().len() + written);
                        assert(self.outbuf() == old(self).outbuf() + spec_frame_bytes(
                            m0,
                            p0,
                        ).take(written as int));
                    }
                    return Err(AdbError::Io);
                }
            }
        }
        proof {
            assert(buf@.take(total as int) =~= buf@);
        }
        Ok(total)
    }
}

/// An in-memory loopback endpoint: reads consume a fixed byte sequence given
/// up front, writes accumulate in a buffer that can be inspected afterwards.
/// It implements the stream model exactly and backs the tests' mock peers.
pub struct MemStream {
    input: Vec<u8>,
    cursor: usize,
    output: Vec<u8>,
}

impl MemStream {
    /// A loopback endpoint whose incoming bytes are exactly `input`.
    pub fn new(input: Vec<u8>) -> (r: MemStream)
        ensures
            r.inbuf() == input@,
            r.outbuf() == Seq::<u8>::empty(),
            r.reliable(),
    {
        MemStream { input, cursor: 0, output: Vec::new() }
    }

    /// The bytes written to this endpoint so far.
    pub fn written(&self) -> (r: &Vec<u8>)
        ensures
            r@ == self.outbuf(),
    {
        &self.output
    }
}

impl ByteStream for MemStream {
    closed spec fn inbuf(&self) -> Seq<u8> {
        if self.cursor <= self.input@.len() {
            self.input@.skip(self.cursor as int)
        } else {
            Seq::<u8>::empty()
        }
    }

    closed spec fn outbuf(&self) -> Seq<u8> {
        self.output@
    }

    closed spec fn reliable(&self) -> bool {
        true
    }

    fn read_bytes(&mut self, n: usize) -> (r: Result<Vec<u8>, AdbError>) {
        if self.cursor > self.input.len() {
            if n == 0 {
                proof {
                    assert(Seq::<u8>::empty() =~= old(self).inbuf().take(0));
                    assert(self.inbuf() =~= old(self).inbuf().skip(0));
                }
                return Ok(Vec::new());
            }
            return Err(AdbError::Io);
        }
        if n > self.input.len() - self.cursor {
            return Err(AdbError::Io);
        }
        let end = self.cursor + n;
        let v = slice_to_vec(slice_subrange(self.input.as_slice(), self.cursor, end));
        self.cursor = end;
        proof {
            assert(v@ =~= old(self).inbuf().take(n as int));
            assert(self.inbuf() =~= old(self).inbuf().skip(n as int));
        }
        Ok(v)
    }

    fn write_bytes(&mut self, data: &[u8]) -> (r: Result<usize, AdbError>) {
        let n = data.len();
        let mut v = slice_to_vec(data);
        self.output.append(&mut v);
        proof {
            assert(self.outbuf() =~= old(self).outbuf() + data@.take(n as int));
        }
        Ok(n)
    }
}

} // verus!
