//! The connection handshake: a strictly sequential state machine. The client
//! sends a connect request, the peer must ask to upgrade to an encrypted
//! stream, the client acknowledges, the encryption handshake runs over the
//! raw stream, and the peer confirms over the encrypted stream with a
//! connect frame. Any frame out of order is a fatal protocol sequence error.

use vstd::prelude::*;
use crate::adb::{A_CNXN, A_OPEN, A_STLS, A_STLS_VERSION, A_VERSION, MAX_PAYLOAD};
use crate::types::{AMessage, APacket, AdbError, lemma_header_round_trip, spec_frame_bytes,
    spec_read_frame, spec_sent_header};
use crate::transport::{ATransport, ByteStream};

verus! {

/// The states of the handshake, in the order they are passed through.
#[derive(Clone, Copy, Debug, PartialEq, Eq, Structural)]
pub enum HandshakeState {
    /// Nothing has been sent yet.
    Start,
    /// The connect request is out; the peer owes an upgrade request.
    ConnectSent,
    /// The peer asked to upgrade; the acknowledgement is owed next.
    UpgradeRequested,
    /// The acknowledgement is out; the encryption handshake runs now.
    UpgradeAckSent,
    /// The encrypted stream is live; the peer owes a connect confirmation.
    Encrypted,
    /// The channel is ready for the application layer.
    Ready,
}

/// One step of protocol work as the orchestrator sees it.
#[derive(Clone, Copy, Debug, PartialEq, Eq, Structural)]
pub enum HandshakeEvent {
    /// The connect request went out.
    SentConnect,
    /// A frame with this command arrived.
    ReceivedCommand(u32),
    /// The upgrade acknowledgement went out.
    SentUpgradeAck,
    /// The encryption handshake completed and the transport was rebuilt over
    /// the encrypted stream.
    UpgradeCompleted,
}

/// The transition table of the handshake: which event each state accepts,
/// which state it leads to, and the error any other event raises.
pub open spec fn spec_handshake_step(s: HandshakeState, e: HandshakeEvent) -> Result<
    HandshakeState,
    AdbError,
> {
    match (s, e) {
        (HandshakeState::Start, HandshakeEvent::SentConnect) => Ok(HandshakeState::ConnectSent),
        (HandshakeState::ConnectSent, HandshakeEvent::ReceivedCommand(c)) => if c == A_STLS {
            Ok(HandshakeState::UpgradeRequested)
        } else {
            Err(AdbError::UnexpectedCommand)
        },
        (HandshakeState::UpgradeRequested, HandshakeEvent::SentUpgradeAck) => Ok(
            HandshakeState::UpgradeAckSent,
        ),
        (HandshakeState::UpgradeAckSent, HandshakeEvent::UpgradeCompleted) => Ok(
            HandshakeState::Encrypted,
        ),
        (HandshakeState::Encrypted, HandshakeEvent::ReceivedCommand(c)) => if c == A_CNXN {
            Ok(HandshakeState::Ready)
        } else {
            Err(AdbError::UnexpectedCommand)
        },
        _ => Err(AdbError::OutOfOrder),
    }
}

/// Advances the handshake by one event, or reports the protocol sequence
/// error that the event raises in this state.
pub fn handshake_step(s: HandshakeState, e: HandshakeEvent) -> (r: Result<
    HandshakeState,
    AdbError,
>)
    ensures
        r == spec_handshake_step(s, e),
{
    match (s, e) {
        (HandshakeState::Start, HandshakeEvent::SentConnect) => Ok(HandshakeState::ConnectSent),
        (HandshakeState::ConnectSent, HandshakeEvent::ReceivedCommand(c)) => if c == A_STLS {
            Ok(HandshakeState::UpgradeRequested)
        } else {
            Err(AdbError::UnexpectedCommand)
        },
        (HandshakeState::UpgradeRequested, HandshakeEvent::SentUpgradeAck) => Ok(
            HandshakeState::UpgradeAckSent,
        ),
        (HandshakeState::UpgradeAckSent, HandshakeEvent::UpgradeCompleted) => Ok(
            HandshakeState::Encrypted,
        ),
        (HandshakeState::Encrypted, HandshakeEvent::ReceivedCommand(c)) => if c == A_CNXN {
            Ok(HandshakeState::Ready)
        } else {
            Err(AdbError::UnexpectedCommand)
        },
        _ => Err(AdbError::OutOfOrder),
    }
}

/// Running a whole sequence of events from a state, stopping at the first
/// error.
pub open spec fn spec_run_handshake(s: HandshakeState, events: Seq<HandshakeEvent>) -> Result<
    HandshakeState,
    AdbError,
>
    decreases events.len(),
{
    if events.len() == 0 {
        Ok(s)
    } else {
        match spec_handshake_step(s, events[0]) {
            Ok(s2) => spec_run_handshake(s2, events.skip(1)),
            Err(e) => Err(e),
        }
    }
}

/// How far through the handshake a state is.
pub open spec fn spec_rank(s: HandshakeState) -> int {
    match s {
        HandshakeState::Start => 0,
        HandshakeState::ConnectSent => 1,
        HandshakeState::UpgradeRequested => 2,
        HandshakeState::UpgradeAckSent => 3,
        HandshakeState::Encrypted => 4,
        HandshakeState::Ready => 5,
    }
}

/// The acknowledgement that precedes the encryption handshake can only be
/// sent from the state in which the peer has asked to upgrade.
pub proof fn lemma_upgrade_ack_only_after_request(s: HandshakeState, e: HandshakeEvent)
    ensures
        spec_handshake_step(s, e) == Ok::<HandshakeState, AdbError>(HandshakeState::UpgradeAckSent)
            <==> (s == HandshakeState::UpgradeRequested && e == HandshakeEvent::SentUpgradeAck),
{
}

/// The upgrade-requested state is reached only by receiving the upgrade
/// command as the reply to the connect request.
pub proof fn lemma_upgrade_request_needs_stls(s: HandshakeState, e: HandshakeEvent)
    ensures
        spec_handshake_step(s, e) == Ok::<HandshakeState, AdbError>(
            HandshakeState::UpgradeRequested,
        ) <==> (s == HandshakeState::ConnectSent && e == HandshakeEvent::ReceivedCommand(A_STLS)),
{
}

/// The ready state is reached only by the connect confirmation arriving over
/// the encrypted stream.
pub proof fn lemma_ready_needs_encrypted_connect(s: HandshakeState, e: HandshakeEvent)
    ensures
        spec_handshake_step(s, e) == Ok::<HandshakeState, AdbError>(HandshakeState::Ready) <==> (
        s == HandshakeState::Encrypted && e == HandshakeEvent::ReceivedCommand(A_CNXN)),
{
}

/// Handshake ordering: a run that starts before the upgrade request and ends
/// at or beyond the upgrade acknowledgement must have received the upgrade
/// command on the way. In particular, no encryption handshake is ever
/// attempted unless the peer asked to upgrade.
pub proof fn lemma_no_upgrade_without_request(
    s: HandshakeState,
    events: Seq<HandshakeEvent>,
    t: HandshakeState,
)
    requires
        spec_rank(s) < spec_rank(HandshakeState::UpgradeRequested),
        spec_run_handshake(s, events) == Ok::<HandshakeState, AdbError>(t),
        spec_rank(t) >= spec_rank(HandshakeState::UpgradeAckSent),
    ensures
        exists|i: int|
            0 <= i < events.len() && events[i] == HandshakeEvent::ReceivedCommand(A_STLS),
    decreases events.len(),
{
    let s2 = match spec_handshake_step(s, events[0]) {
        Ok(s2) => s2,
        Err(_) => s,
    };
    if s2 == HandshakeState::UpgradeRequested {
        lemma_upgrade_request_needs_stls(s, events[0]);
        assert(0 <= 0 < events.len() && events[0] == HandshakeEvent::ReceivedCommand(A_STLS));
    } else {
        lemma_no_upgrade_without_request(s2, events.skip(1), t);
        let j = choose|j: int|
            0 <= j < events.skip(1).len() && events.skip(1)[j] == HandshakeEvent::ReceivedCommand(
                A_STLS,
            );
        assert(events[j + 1] == events.skip(1)[j]);
    }
}

/// The header of the connect request: protocol version, maximum payload size,
/// empty payload.
pub open spec fn spec_connect_header() -> AMessage {
    AMessage {
        command: A_CNXN,
        arg0: A_VERSION,
        arg1: MAX_PAYLOAD,
        data_length: 0,
        data_check: 0,
        magic: 0,
    }
}

/// The wire bytes of the connect request.
pub open spec fn spec_connect_frame() -> Seq<u8> {
    spec_frame_bytes(spec_connect_header(), Seq::<u8>::empty())
}

/// The header of the upgrade acknowledgement: the upgrade-protocol version,
/// empty payload.
pub open spec fn spec_stls_header() -> AMessage {
    AMessage {
        command: A_STLS,
        arg0: A_STLS_VERSION,
        arg1: 0,
        data_length: 0,
        data_check: 0,
        magic: 0,
    }
}

/// The wire bytes of the upgrade acknowledgement.
pub open spec fn spec_stls_frame() -> Seq<u8> {
    spec_frame_bytes(spec_stls_header(), Seq::<u8>::empty())
}

/// The header of an open-stream request carrying `local_id`.
pub open spec fn spec_open_header(local_id: u32) -> AMessage {
    AMessage {
        command: A_OPEN,
        arg0: local_id,
        arg1: 0,
        data_length: 0,
        data_check: 0,
        magic: 0,
    }
}

/// Sends the connect request: the protocol version as `arg0`, the maximum
/// payload size as `arg1`, and an empty payload.
pub fn send_acnxn<S: ByteStream>(transport: &mut ATransport<S>) -> (r: Result<usize, AdbError>)
    ensures
        final(transport).inbuf() == old(transport).inbuf(),
        final(transport).reliable() == old(transport).reliable(),
        old(transport).reliable() ==> r is Ok,
        match r {
            Ok(n) => n == 24 && final(transport).outbuf() == old(transport).outbuf()
                + spec_connect_frame(),
            Err(e) => e == AdbError::Io
                && old(transport).outbuf().len() <= final(transport).outbuf().len()
                && final(transport).outbuf().len() <= old(transport).outbuf().len() + 24
                && final(transport).outbuf() == old(transport).outbuf()
                + spec_connect_frame().take(
                    final(transport).outbuf().len() - old(transport).outbuf().len(),
                ),
        },
{
    let mut packet = APacket::new(A_CNXN);
    packet.msg.arg0 = A_VERSION;
    packet.msg.arg1 = MAX_PAYLOAD;
    proof {
        assert(packet.msg == spec_connect_header());
    }
    transport.send_apacket(packet)
}

/// Sends the upgrade acknowledgement: the upgrade-protocol version as `arg0`
/// and an empty payload. After this the encryption handshake must run over
/// the raw stream before any further frame is exchanged.
pub fn send_stls<S: ByteStream>(transport: &mut ATransport<S>) -> (r: Result<usize, AdbError>)
    ensures
        final(transport).inbuf() == old(transport).inbuf(),
        final(transport).reliable() == old(transport).reliable(),
        old(transport).reliable() ==> r is Ok,
        match r {
            Ok(n) => n == 24 && final(transport).outbuf() == old(transport).outbuf()
                + spec_stls_frame(),
            Err(e) => e == AdbError::Io
                && old(transport).outbuf().len() <= final(transport).outbuf().len()
                && final(transport).outbuf().len() <= old(transport).outbuf().len() + 24
                && final(transport).outbuf() == old(transport).outbuf()
                + spec_stls_frame().take(
                    final(transport).outbuf().len() - old(transport).outbuf().len(),
                ),
        },
{
    let mut packet = APacket::new(A_STLS);
    packet.msg.arg0 = A_STLS_VERSION;
    proof {
        assert(packet.msg == spec_stls_header());
    }
    transport.send_apacket(packet)
}

/// Sends an open-stream request for `local_id` carrying `payload` (the
/// destination description of the logical stream).
pub fn send_aopen<S: ByteStream>(
    transport: &mut ATransport<S>,
    local_id: u32,
    payload: Vec<u8>,
) -> (r: Result<usize, AdbError>)
    requires
        payload@.len() <= u32::MAX,
        payload@.len() + 24 <= usize::MAX,
    ensures
        final(transport).inbuf() == old(transport).inbuf(),
        final(transport).reliable() == old(transport).reliable(),
        old(transport).reliable() ==> r is Ok,
        match r {
            Ok(n) => n == 24 + payload@.len() && final(transport).outbuf() == old(
                transport,
            ).outbuf() + spec_frame_bytes(spec_open_header(local_id), payload@),
            Err(e) => e == AdbError::Io
                && old(transport).outbuf().len() <= final(transport).outbuf().len()
                && final(transport).outbuf().len() <= old(transport).outbuf().len() + 24
                + payload@.len()
                && final(transport).outbuf() == old(transport).outbuf()
                + spec_frame_bytes(spec_open_header(local_id), payload@).take(
                    final(transport).outbuf().len() - old(transport).outbuf().len(),
                ),
        },
{
    let mut packet = APacket::new(A_OPEN);
    packet.msg.arg0 = local_id;
    packet.payload = payload;
    proof {
        assert(packet.msg == spec_open_header(local_id));
    }
    transport.send_apacket(packet)
}

/// Reads one frame and checks that its command is the one the protocol
/// sequence expects; a mismatch is a fatal sequence error (the mismatched
/// frame is consumed).
pub fn expect_apacket<S: ByteStream>(transport: &mut ATransport<S>, expected: u32) -> (r: Result<
    APacket,
    AdbError,
>)
    ensures
        final(transport).outbuf() == old(transport).outbuf(),
        final(transport).reliable() == old(transport).reliable(),
        old(transport).reliable() && (spec_read_frame(old(transport).inbuf()) matches Some(
            (m, pl, rest),
        ) && m.command == expected) ==> r is Ok,
        match r {
            Ok(p) => p.msg.command == expected && spec_read_frame(old(transport).inbuf()) == Some(
                (p.msg, p.payload@, final(transport).inbuf()),
            ),
            Err(e) => match spec_read_frame(old(transport).inbuf()) {
                Some((m, pl, rest)) => e == AdbError::Io || (m.command != expected && e
                    == AdbError::UnexpectedCommand && final(transport).inbuf() == rest),
                None => e == AdbError::Io || e == AdbError::UnknownCommand || e
                    == AdbError::PayloadTooLarge,
            },
        },
{
    let p = transport.read_apacket()?;
    if p.msg.command != expected {
        return Err(AdbError::UnexpectedCommand);
    }
    Ok(p)
}

/// Drives the plaintext half of the handshake over one transport: sends the
/// connect request, requires the reply to be the upgrade request, and sends
/// the upgrade acknowledgement. On success the caller must run the
/// encryption handshake over the raw stream and continue over the encrypted
/// transport. If the peer replies with anything but the upgrade request, the
/// handshake fails before any byte of the acknowledgement goes out, so no
/// encryption attempt follows.
pub fn run_plain_handshake<S: ByteStream>(t: &mut ATransport<S>) -> (r: Result<
    HandshakeState,
    AdbError,
>)
    ensures
        final(t).reliable() == old(t).reliable(),
        old(t).reliable() && (spec_read_frame(old(t).inbuf()) matches Some((m, pl, rest))
            && m.command == A_STLS) ==> r is Ok,
        match r {
            Ok(s) => s == HandshakeState::UpgradeAckSent && final(t).outbuf() == old(t).outbuf()
                + spec_connect_frame() + spec_stls_frame() && (spec_read_frame(old(t).inbuf())
                matches Some((m, pl, rest)) && m.command == A_STLS && final(t).inbuf() == rest),
            Err(e) => (e == AdbError::Io || e == AdbError::UnknownCommand || e
                == AdbError::PayloadTooLarge || e == AdbError::UnexpectedCommand)
                && old(t).outbuf().len() <= final(t).outbuf().len()
                && final(t).outbuf().len() <= old(t).outbuf().len() + spec_connect_frame().len()
                + spec_stls_frame().len()
                && final(t).outbuf() == (old(t).outbuf() + spec_connect_frame()
                + spec_stls_frame()).take(final(t).outbuf().len() as int),
        },
        r matches Err(e) && e == AdbError::UnexpectedCommand ==> (spec_read_frame(old(t).inbuf())
            matches Some((m, pl, rest)) && m.command != A_STLS && final(t).inbuf() == rest)
            && final(t).outbuf() == old(t).outbuf() + spec_connect_frame(),
        r matches Err(e) && (e == AdbError::UnknownCommand || e == AdbError::PayloadTooLarge)
            ==> spec_read_frame(old(t).inbuf()) is None && final(t).outbuf() == old(t).outbuf()
            + spec_connect_frame(),
{
    proof {
        lemma_header_round_trip(spec_sent_header(spec_connect_header(), Seq::<u8>::empty()));
        lemma_header_round_trip(spec_sent_header(spec_stls_header(), Seq::<u8>::empty()));
        assert(spec_connect_frame().len() == 24);
        assert(spec_stls_frame().len() == 24);
    }
    let mut state = HandshakeState::Start;
    if let Err(e) = send_acnxn(t) {
        proof {
            assert((old(t).outbuf() + spec_connect_frame() + spec_stls_frame()).take(
                t.outbuf().len() as int,
            ) =~= t.outbuf());
        }
        return Err(e);
    }
    state = match handshake_step(state, HandshakeEvent::SentConnect) {
        Ok(s) => s,
        Err(e) => return Err(e),
    };
    let p = match expect_apacket(t, A_STLS) {
        Ok(p) => p,
        Err(e) => {
            proof {
                assert((old(t).outbuf() + spec_connect_frame() + spec_stls_frame()).take(
                    t.outbuf().len() as int,
                ) =~= t.outbuf());
            }
            return Err(e);
        },
    };
    state = match handshake_step(state, HandshakeEvent::ReceivedCommand(p.msg.command)) {
        Ok(s) => s,
        Err(e) => return Err(e),
    };
    if let Err(e) = send_stls(t) {
        proof {
            assert((old(t).outbuf() + spec_connect_frame() + spec_stls_frame()).take(
                t.outbuf().len() as int,
            ) =~= t.outbuf());
        }
        return Err(e);
    }
    state = match handshake_step(state, HandshakeEvent::SentUpgradeAck) {
        Ok(s) => s,
        Err(e) => return Err(e),
    };
    Ok(state)
}

} // verus!
