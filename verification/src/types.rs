//! Frame header and packet types, together with the pure byte-level codec:
//! a header is exactly 24 bytes, six little-endian `u32` fields in fixed
//! order, and the trailing `magic` field is recomputed from `command` on
//! every encode.

use vstd::prelude::*;
use vstd::bytes::{lemma_auto_spec_u32_to_from_le_bytes, spec_u32_from_le_bytes,
    spec_u32_to_le_bytes, u32_from_le_bytes, u32_to_le_bytes};
use vstd::pervasive::unreached;
use vstd::slice::{slice_index_get, slice_subrange, slice_to_vec};
use crate::adb::{A_AUTH, A_CLSE, A_CNXN, A_OKAY, A_OPEN, A_STLS, A_SYNC, A_WRTE, MAX_PAYLOAD,
    is_known_command, known_command};

verus! {

/// Errors of the protocol core. Decode errors and sequence errors are fatal:
/// the whole handshake must be restarted by the caller.
#[derive(Clone, Copy, Debug, PartialEq, Eq, Structural)]
pub enum AdbError {
    /// A header buffer held fewer than 24 bytes.
    TruncatedHeader,
    /// A received command value lies outside the closed command set.
    UnknownCommand,
    /// A received `data_length` exceeds the advertised maximum payload size.
    PayloadTooLarge,
    /// The received command does not match the one the protocol sequence expects.
    UnexpectedCommand,
    /// A handshake step was attempted in a state that does not allow it.
    OutOfOrder,
    /// An application payload does not follow its declared layout.
    MalformedPayload,
    /// The underlying byte stream failed or closed early.
    Io,
    /// Credential generation or encryption setup failed.
    Crypto,
}

/// The fixed 24-byte frame header: six unsigned 32-bit fields, little-endian
/// on the wire.
#[derive(Clone, Copy, Debug, PartialEq, Eq, Structural)]
pub struct AMessage {
    /// Command identifier constant.
    pub command: u32,
    /// First command-specific argument.
    pub arg0: u32,
    /// Second command-specific argument.
    pub arg1: u32,
    /// Byte length of the payload (0 is allowed).
    pub data_length: u32,
    /// Payload checksum; carried but never validated by this core.
    pub data_check: u32,
    /// Derived consistency field, `command XOR 0xffffffff`.
    pub magic: u32,
}

/// The wire value of the `magic` field for a given command.
pub open spec fn spec_magic_for(command: u32) -> u32 {
    command ^ 0xffffffffu32
}

/// `m` with its `magic` field replaced by the derived wire value; every encode
/// recomputes `magic`, so this is what a decode of an encode gives back.
pub open spec fn spec_with_wire_magic(m: AMessage) -> AMessage {
    AMessage { magic: spec_magic_for(m.command), ..m }
}

/// The 24 header bytes of `m`: six fields little-endian in fixed order, with
/// `magic` recomputed from `command`.
pub open spec fn spec_header_bytes(m: AMessage) -> Seq<u8> {
    spec_u32_to_le_bytes(m.command) + spec_u32_to_le_bytes(m.arg0) + spec_u32_to_le_bytes(m.arg1)
        + spec_u32_to_le_bytes(m.data_length) + spec_u32_to_le_bytes(m.data_check)
        + spec_u32_to_le_bytes(spec_magic_for(m.command))
}

/// The header read from the first 24 bytes of `s`; meaningful when
/// `s.len() >= 24`. No semantic validation happens here.
pub open spec fn spec_decode_header(s: Seq<u8>) -> AMessage {
    AMessage {
        command: spec_u32_from_le_bytes(s.subrange(0, 4)),
        arg0: spec_u32_from_le_bytes(s.subrange(4, 8)),
        arg1: spec_u32_from_le_bytes(s.subrange(8, 12)),
        data_length: spec_u32_from_le_bytes(s.subrange(12, 16)),
        data_check: spec_u32_from_le_bytes(s.subrange(16, 20)),
        magic: spec_u32_from_le_bytes(s.subrange(20, 24)),
    }
}

/// The header actually put on the wire when `m` is sent with `payload`:
/// `data_length` is set to the payload length and `magic` is recomputed.
pub open spec fn spec_sent_header(m: AMessage, payload: Seq<u8>) -> AMessage {
    AMessage {
        data_length: payload.len() as u32,
        magic: spec_magic_for(m.command),
        ..m
    }
}

/// One whole frame as a contiguous transmission unit: the 24 header bytes
/// followed by exactly `data_length` payload bytes.
pub open spec fn spec_frame_bytes(m: AMessage, payload: Seq<u8>) -> Seq<u8> {
    spec_header_bytes(spec_sent_header(m, payload)) + payload
}

/// What reading one frame from the head of the incoming byte sequence `s`
/// yields: the header, the payload, and the bytes left over; `None` when `s`
/// holds no whole frame acceptable to the receive rules (truncated, unknown
/// command, or oversized payload).
pub open spec fn spec_read_frame(s: Seq<u8>) -> Option<(AMessage, Seq<u8>, Seq<u8>)> {
    if s.len() < 24 {
        None
    } else {
        let m = spec_decode_header(s);
        if !is_known_command(m.command) {
            None
        } else if m.data_length > MAX_PAYLOAD {
            None
        } else if s.len() < 24 + m.data_length {
            None
        } else {
            Some((m, s.subrange(24, 24 + m.data_length as int), s.skip(24 + m.data_length as int)))
        }
    }
}

/// The display name of a command constant.
pub open spec fn spec_command_name(c: u32) -> Seq<char> {
    if c == A_SYNC {
        "SYNC"@
    } else if c == A_CNXN {
        "CNXN"@
    } else if c == A_OPEN {
        "OPEN"@
    } else if c == A_OKAY {
        "OKAY"@
    } else if c == A_CLSE {
        "CLSE"@
    } else if c == A_WRTE {
        "WRTE"@
    } else if c == A_AUTH {
        "AUTH"@
    } else if c == A_STLS {
        "STLS"@
    } else {
        Seq::<char>::empty()
    }
}

impl AMessage {
    /// A header for `command` with all other fields zero.
    pub fn new(command: u32) -> (r: AMessage)
        ensures
            r.command == command,
            r.arg0 == 0,
            r.arg1 == 0,
            r.data_length == 0,
            r.data_check == 0,
            r.magic == 0,
    {
        AMessage { command, arg0: 0, arg1: 0, data_length: 0, data_check: 0, magic: 0 }
    }

    /// Decodes the six little-endian fields from the first 24 bytes of `v`;
    /// fails exactly when fewer than 24 bytes are given. No semantic
    /// validation happens here.
    pub fn from(v: &[u8]) -> (r: Result<AMessage, AdbError>)
        ensures
            v@.len() >= 24 ==> r == Ok::<AMessage, AdbError>(spec_decode_header(v@)),
            v@.len() < 24 ==> r == Err::<AMessage, AdbError>(AdbError::TruncatedHeader),
    {
        if v.len() < 24 {
            return Err(AdbError::TruncatedHeader);
        }
        let command = u32_from_le_bytes(slice_subrange(v, 0, 4));
        let arg0 = u32_from_le_bytes(slice_subrange(v, 4, 8));
        let arg1 = u32_from_le_bytes(slice_subrange(v, 8, 12));
        let data_length = u32_from_le_bytes(slice_subrange(v, 12, 16));
        let data_check = u32_from_le_bytes(slice_subrange(v, 16, 20));
        let magic = u32_from_le_bytes(slice_subrange(v, 20, 24));
        Ok(AMessage { command, arg0, arg1, data_length, data_check, magic })
    }

    /// Encodes the header as its 24 wire bytes, recomputing `magic` from
    /// `command`; encoding itself never fails.
    pub fn bytes(&self) -> (r: Result<Vec<u8>, AdbError>)
        ensures
            match r {
                Ok(b) => b@ == spec_header_bytes(*self) && b@.len() == 24,
                Err(_) => false,
            },
    {
        proof {
            lemma_auto_spec_u32_to_from_le_bytes();
        }
        let mut out = u32_to_le_bytes(self.command);
        let mut f = u32_to_le_bytes(self.arg0);
        out.append(&mut f);
        let mut f = u32_to_le_bytes(self.arg1);
        out.append(&mut f);
        let mut f = u32_to_le_bytes(self.data_length);
        out.append(&mut f);
        let mut f = u32_to_le_bytes(self.data_check);
        out.append(&mut f);
        let mut f = u32_to_le_bytes(self.command ^ 0xffffffffu32);
        out.append(&mut f);
        assert(out@ =~= spec_header_bytes(*self));
        Ok(out)
    }

    /// The display name of this header's command.
    pub fn command(&self) -> (r: &'static str)
        requires
            is_known_command(self.command),
        ensures
            r@ == spec_command_name(self.command),
    {
        if self.command == A_SYNC {
            "SYNC"
        } else if self.command == A_CNXN {
            "CNXN"
        } else if self.command == A_OPEN {
            "OPEN"
        } else if self.command == A_OKAY {
            "OKAY"
        } else if self.command == A_CLSE {
            "CLSE"
        } else if self.command == A_WRTE {
            "WRTE"
        } else if self.command == A_AUTH {
            "AUTH"
        } else if self.command == A_STLS {
            "STLS"
        } else {
            unreached()
        }
    }
}

/// Explicit header validation, offered as a separate callable step: the
/// receive path itself trusts `magic` (it only checks the command set and the
/// payload cap), so strict callers can apply this to received headers.
pub fn validate_header(m: &AMessage) -> (r: bool)
    ensures
        r == (is_known_command(m.command) && m.magic == spec_magic_for(m.command)),
{
    known_command(m.command) && m.magic == (m.command ^ 0xffffffffu32)
}

/// One frame: a header and an owned payload buffer of `data_length` bytes.
pub struct APacket {
    /// The frame header.
    pub msg: AMessage,
    /// The payload bytes.
    pub payload: Vec<u8>,
}

impl APacket {
    /// A frame for `command` with an empty payload and zeroed arguments.
    pub fn new(command: u32) -> (r: APacket)
        ensures
            r.msg.command == command,
            r.msg.arg0 == 0,
            r.msg.arg1 == 0,
            r.msg.data_length == 0,
            r.msg.data_check == 0,
            r.msg.magic == 0,
            r.payload@ == Seq::<u8>::empty(),
    {
        let msg = AMessage::new(command);
        APacket { msg, payload: Vec::new() }
    }
}

/// The layout of a shell-output payload carried in a write frame: one byte of
/// stream id, four bytes of little-endian length, then exactly that many
/// bytes of data; `None` when the payload does not follow that layout.
pub open spec fn spec_parse_write_payload(p: Seq<u8>) -> Option<(u8, Seq<u8>)> {
    if p.len() < 5 {
        None
    } else {
        let len = spec_u32_from_le_bytes(p.subrange(1, 5));
        if p.len() >= 5 + len {
            Some((p[0], p.subrange(5, 5 + len)))
        } else {
            None
        }
    }
}

/// Decodes a shell-output payload into its stream id and its data bytes;
/// fails exactly when the payload does not follow the declared layout.
pub fn parse_write_payload(payload: &[u8]) -> (r: Result<(u8, Vec<u8>), AdbError>)
    ensures
        match r {
            Ok((id, data)) => spec_parse_write_payload(payload@) == Some((id, data@)),
            Err(e) => e == AdbError::MalformedPayload && spec_parse_write_payload(
                payload@,
            ) is None,
        },
{
    if payload.len() < 5 {
        return Err(AdbError::MalformedPayload);
    }
    let id = *slice_index_get(payload, 0);
    let len = u32_from_le_bytes(slice_subrange(payload, 1, 5));
    if (len as usize) > payload.len() - 5 {
        return Err(AdbError::MalformedPayload);
    }
    let end = 5 + (len as usize);
    let data = slice_to_vec(slice_subrange(payload, 5, end));
    Ok((id, data))
}

/// Round trip of the header codec: decoding an encoded header gives the
/// header back, except that `magic` always comes back as the value derived
/// from `command`, whatever was stored before encoding.
pub proof fn lemma_header_round_trip(m: AMessage)
    ensures
        spec_header_bytes(m).len() == 24,
        spec_decode_header(spec_header_bytes(m)) == spec_with_wire_magic(m),
        spec_decode_header(spec_header_bytes(m)).magic == spec_magic_for(
            spec_decode_header(spec_header_bytes(m)).command,
        ),
{
    lemma_auto_spec_u32_to_from_le_bytes();
    let b = spec_header_bytes(m);
    assert(b.subrange(0, 4) =~= spec_u32_to_le_bytes(m.command));
    assert(b.subrange(4, 8) =~= spec_u32_to_le_bytes(m.arg0));
    assert(b.subrange(8, 12) =~= spec_u32_to_le_bytes(m.arg1));
    assert(b.subrange(12, 16) =~= spec_u32_to_le_bytes(m.data_length));
    assert(b.subrange(16, 20) =~= spec_u32_to_le_bytes(m.data_check));
    assert(b.subrange(20, 24) =~= spec_u32_to_le_bytes(spec_magic_for(m.command)));
}

/// Round trip of whole frames: a well-formed encoded frame at the head of an
/// incoming byte sequence is read back as exactly its sent header and its
/// payload, leaving exactly the trailing bytes.
pub proof fn lemma_frame_round_trip(m: AMessage, payload: Seq<u8>, rest: Seq<u8>)
    requires
        is_known_command(m.command),
        payload.len() <= MAX_PAYLOAD,
    ensures
        spec_read_frame(spec_frame_bytes(m, payload) + rest) == Some(
            (spec_sent_header(m, payload), payload, rest),
        ),
{
    let h = spec_sent_header(m, payload);
    let s = spec_frame_bytes(m, payload) + rest;
    lemma_auto_spec_u32_to_from_le_bytes();
    assert(s.subrange(0, 4) =~= spec_u32_to_le_bytes(h.command));
    assert(s.subrange(4, 8) =~= spec_u32_to_le_bytes(h.arg0));
    assert(s.subrange(8, 12) =~= spec_u32_to_le_bytes(h.arg1));
    assert(s.subrange(12, 16) =~= spec_u32_to_le_bytes(h.data_length));
    assert(s.subrange(16, 20) =~= spec_u32_to_le_bytes(h.data_check));
    assert(s.subrange(20, 24) =~= spec_u32_to_le_bytes(spec_magic_for(h.command)));
    assert(spec_decode_header(s) == h);
    assert(s.subrange(24, 24 + payload.len() as int) =~= payload);
    assert(s.skip(24 + payload.len() as int) =~= rest);
}

} // verus!
