//! The task that owns one connection, as a state and its reactions.
//!
//! One task owns the two codecs of a connection. It waits on four sources: a
//! channel of cipher changes, the bytes that arrive from the peer, the queue
//! of frames that the handler wants sent, and a close signal. [`Connection`]
//! is what that task keeps between two events, and each of its methods is the
//! task's reaction to one event: what becomes of the codecs, and what the
//! program that runs the task must do next.

use bytes::BytesMut;
use vstd::prelude::*;

use crate::buffer::{buf_as_slice, buf_len, buffer_bytes};
use crate::frame::crypto::{
    cwc_envelope, cwc_open_request, rsa_open_bytes, rsa_seal_bytes, CipherMode, OpenRequest,
    SealRequest, CWC_OVERHEAD,
};
use crate::frame::decoder::{Decoded, FrameDecoder, FrameDecoderError};
use crate::frame::encoder::{Encoded, FrameEncoder, FrameEncoderError};
use crate::frame::header::{
    frame_bytes, frame_step, max_body_len, max_data_len, FrameDecoderState, Framed,
};
use crate::frame::{Frame, FrameView, MAX_FRAME_SIZE};

verus! {

/// Frames that the inbound queue holds before reads from the peer stall.
pub const INBOUND_QUEUE_DEPTH: usize = 10;

/// Frames that the outbound queue holds before the handler stalls.
pub const OUTBOUND_QUEUE_DEPTH: usize = 10;

/// Cipher changes that may wait for the task.
pub const CIPHER_QUEUE_DEPTH: usize = 1;

/// Close signals that may wait for the task.
pub const CLOSE_QUEUE_DEPTH: usize = 1;

/// Why the task ended.
#[derive(Clone, Copy, Debug, PartialEq, Eq, Structural)]
pub enum Reason {
    /// The close signal came.
    CloseSignal,
    /// The channel of cipher changes was closed.
    CipherChannelClosed,
    /// The handler dropped its end of the outbound queue.
    OutboundQueueClosed,
    /// The peer closed the stream between two frames.
    EndOfStream,
    /// The peer closed the stream in the middle of a frame.
    TruncatedStream,
    /// A header was refused.
    InvalidSize,
    /// A body did not open, or could not be sealed.
    InvalidCiphertext,
    /// The transport failed.
    Io,
}

/// What the program that runs the task must do after an event.
#[allow(inconsistent_fields)]
pub enum Action {
    /// Wait for the next event.
    Wait,
    /// Put the frame on the inbound queue, then look for another.
    Deliver(Frame),
    /// Open the request with the CWC primitive and come back with
    /// [`Connection::opened`].
    Open { global_counter: u16, counter: u32, request: OpenRequest },
    /// Seal the request with the CWC primitive and come back with
    /// [`Connection::sealed`].
    Seal { global_counter: u16, counter: u32, request: SealRequest },
    /// Write to the peer what was added to the outbound buffer.
    Flush,
    /// The frame was too long to send and has been dropped.
    Refused,
    /// Drop the stream and the queues: the task has ended.
    Terminate(Reason),
}

/// What the task of one connection keeps between two events.
pub struct Connection {
    decoder: FrameDecoder,
    encoder: FrameEncoder,
    ended: Option<Reason>,
}

/// Whether `action` is what the task owes once the decoder has found a body
/// under `mode`.
pub open spec fn body_action(
    mode: CipherMode,
    global_counter: u16,
    counter: u32,
    body: Seq<u8>,
    action: Action,
) -> bool {
    match mode {
        CipherMode::Rsa(key, padding) => match rsa_open_bytes(key, padding, body) {
            Some(plain) => action matches Action::Deliver(frame) && frame@ == (FrameView {
                global_counter,
                counter,
                data: plain,
            }),
            None => action matches Action::Terminate(Reason::InvalidCiphertext),
        },
        CipherMode::Cwc(key) => if body.len() < CWC_OVERHEAD {
            action matches Action::Terminate(Reason::InvalidCiphertext)
        } else {
            action matches Action::Open { global_counter: g, counter: c, request } && g
                == global_counter && c == counter && request@ == cwc_open_request(key@, body)
        },
    }
}

/// Whether `action` and the bytes `after` are what the task owes for a frame
/// from the outbound queue, under `mode` and on an outbound buffer that held
/// `before`.
pub open spec fn outbound_action(
    mode: CipherMode,
    has_128b_trailer: bool,
    frame: FrameView,
    before: Seq<u8>,
    after: Seq<u8>,
    action: Action,
) -> bool {
    if frame.data.len() > max_data_len(has_128b_trailer) {
        action matches Action::Refused && after == before
    } else {
        match mode {
            CipherMode::Rsa(key, padding) => match rsa_seal_bytes(key, padding, frame.data) {
                Some(sealed) => if sealed.len() <= max_body_len(has_128b_trailer) {
                    action matches Action::Flush && after == before + frame_bytes(
                        frame.global_counter,
                        frame.counter,
                        sealed,
                        has_128b_trailer,
                    )
                } else {
                    action matches Action::Refused && after == before
                },
                None => action matches Action::Terminate(Reason::InvalidCiphertext) && after
                    == before,
            },
            CipherMode::Cwc(key) => action matches Action::Seal {
                global_counter: g,
                counter: c,
                request,
            } && g == frame.global_counter && c == frame.counter && request.key@ == key@
                && request.plaintext@ == frame.data && after == before,
        }
    }
}

impl Connection {
    /// The cipher that inbound bodies are opened under.
    pub closed spec fn inbound_cipher(&self) -> CipherMode {
        self.decoder.cipher_mode()
    }

    /// The cipher that outbound bodies are sealed under.
    pub closed spec fn outbound_cipher(&self) -> CipherMode {
        self.encoder.cipher_mode()
    }

    /// Where the decoder stands.
    pub closed spec fn decoder_state(&self) -> FrameDecoderState {
        self.decoder.state()
    }

    /// Why the task ended, if it has.
    pub closed spec fn ended(&self) -> Option<Reason> {
        self.ended
    }

    /// What holds of every connection: inbound frames carry no trailer,
    /// outbound frames carry one.
    pub closed spec fn wf(&self) -> bool {
        !self.decoder.has_128b_trailer() && self.encoder.has_128b_trailer()
    }

    /// Whether `after` is `self` with nothing changed but, perhaps, where
    /// the decoder stands.
    pub open spec fn same_ciphers(&self, after: &Connection) -> bool {
        &&& after.wf()
        &&& after.inbound_cipher() == self.inbound_cipher()
        &&& after.outbound_cipher() == self.outbound_cipher()
    }

    /// The task at the start of a connection: the first cipher of the pair
    /// opens what comes in, the second seals what goes out, and the decoder
    /// waits for a header.
    pub fn start(cipher_pair: (CipherMode, CipherMode)) -> (connection: Connection)
        ensures
            connection.wf(),
            connection.inbound_cipher() == cipher_pair.0,
            connection.outbound_cipher() == cipher_pair.1,
            connection.decoder_state() == FrameDecoderState::Header,
            connection.ended() is None,
    {
        let (inbound_cipher, outbound_cipher) = cipher_pair;
        Connection {
            decoder: FrameDecoder::new(inbound_cipher, false),
            encoder: FrameEncoder::new(outbound_cipher, true),
            ended: None,
        }
    }

    /// Whether the task has ended.
    pub fn is_ended(&self) -> (b: bool)
        ensures
            b == self.ended() is Some,
    {
        self.ended.is_some()
    }

    fn terminate(&mut self, reason: Reason) -> (action: Action)
        requires
            old(self).ended() is None,
        ensures
            action == Action::Terminate(reason),
            final(self).ended() == Some(reason),
            final(self).decoder_state() == old(self).decoder_state(),
            final(self).wf() == old(self).wf(),
            final(self).inbound_cipher() == old(self).inbound_cipher(),
            final(self).outbound_cipher() == old(self).outbound_cipher(),
    {
        self.ended = Some(reason);
        Action::Terminate(reason)
    }

    /// The cipher channel gave `cipher_mode`, or was closed.
    ///
    /// A cipher replaces that of both directions at once, and the task goes
    /// on: the next body to be opened and the next frame to be sealed are
    /// handled under it. A closed channel ends the task.
    pub fn change_cipher_mode(&mut self, cipher_mode: Option<CipherMode>) -> (action: Action)
        requires
            old(self).wf(),
        ensures
            follows(*old(self), *final(self), cipher_mode),
            final(self).wf(),
            final(self).decoder_state() == old(self).decoder_state(),
            match (old(self).ended(), cipher_mode) {
                (Some(reason), _) => action == Action::Terminate(reason) && *final(self) == *old(
                    self,
                ),
                (None, Some(cipher)) => {
                    &&& action == Action::Wait
                    &&& final(self).ended() is None
                    &&& final(self).inbound_cipher() == cipher
                    &&& final(self).outbound_cipher() == cipher
                },
                (None, None) => {
                    &&& action == Action::Terminate(Reason::CipherChannelClosed)
                    &&& final(self).ended() == Some(Reason::CipherChannelClosed)
                    &&& old(self).same_ciphers(final(self))
                },
            },
    {
        if let Some(reason) = self.ended {
            return Action::Terminate(reason);
        }
        match cipher_mode {
            Some(cipher) => {
                let new_cipher = cipher;
                self.decoder.set_cipher_mode(new_cipher.clone());
                self.encoder.set_cipher_mode(new_cipher);
                Action::Wait
            },
            None => self.terminate(Reason::CipherChannelClosed),
        }
    }

    /// The close signal came: the task ends.
    pub fn close(&mut self) -> (action: Action)
        requires
            old(self).wf(),
        ensures
            follows(*old(self), *final(self), None),
            old(self).same_ciphers(final(self)),
            final(self).decoder_state() == old(self).decoder_state(),
            match old(self).ended() {
                Some(reason) => action == Action::Terminate(reason) && *final(self) == *old(self),
                None => action == Action::Terminate(Reason::CloseSignal) && final(self).ended()
                    == Some(Reason::CloseSignal),
            },
    {
        if let Some(reason) = self.ended {
            return Action::Terminate(reason);
        }
        self.terminate(Reason::CloseSignal)
    }

    /// A read from or a write to the peer failed: the task ends.
    pub fn transport_failed(&mut self) -> (action: Action)
        requires
            old(self).wf(),
        ensures
            follows(*old(self), *final(self), None),
            old(self).same_ciphers(final(self)),
            final(self).decoder_state() == old(self).decoder_state(),
            match old(self).ended() {
                Some(reason) => action == Action::Terminate(reason) && *final(self) == *old(self),
                None => action == Action::Terminate(Reason::Io) && final(self).ended() == Some(
                    Reason::Io,
                ),
            },
    {
        if let Some(reason) = self.ended {
            return Action::Terminate(reason);
        }
        self.terminate(Reason::Io)
    }

    /// Looks for the next frame in the inbound buffer `src`.
    ///
    /// The framing is that of [`frame_step`] on a codec without trailer.
    /// Short of a whole frame the task waits; a refused header ends it with
    /// `InvalidSize`. A body that was found is handled under the inbound
    /// cipher as [`body_action`] says: delivered as a frame, handed out to
    /// be opened, or the end of the task with `InvalidCiphertext`.
    pub fn read_frame(&mut self, src: &mut BytesMut) -> (action: Action)
        requires
            old(self).wf(),
        ensures
            follows(*old(self), *final(self), None),
            old(self).same_ciphers(final(self)),
            match old(self).ended() {
                Some(reason) => {
                    &&& action == Action::Terminate(reason)
                    &&& *final(self) == *old(self)
                    &&& buffer_bytes(*final(src)) == buffer_bytes(*old(src))
                },
                None => {
                    let step = frame_step(old(self).decoder_state(), false, buffer_bytes(*old(src)));
                    &&& final(self).decoder_state() == step.state
                    &&& buffer_bytes(*final(src)) == step.rest
                    &&& match step.found {
                        Framed::NeedMore => action matches Action::Wait,
                        Framed::InvalidSize => action matches Action::Terminate(
                            Reason::InvalidSize,
                        ),
                        Framed::Body { global_counter, counter, body } => body_action(
                            old(self).inbound_cipher(),
                            global_counter,
                            counter,
                            body,
                            action,
                        ),
                    }
                    &&& final(self).ended() == (match action {
                        Action::Terminate(reason) => Some(reason),
                        _ => None,
                    })
                },
            },
    {
        if let Some(reason) = self.ended {
            return Action::Terminate(reason);
        }
        match self.decoder.decode(src) {
            Ok(Some(Decoded::Frame(frame))) => Action::Deliver(frame),
            Ok(Some(Decoded::Open { global_counter, counter, request })) => Action::Open {
                global_counter,
                counter,
                request,
            },
            Ok(None) => Action::Wait,
            Err(FrameDecoderError::InvalidSize) => self.terminate(Reason::InvalidSize),
            Err(FrameDecoderError::InvalidCiphertext) => self.terminate(Reason::InvalidCiphertext),
            Err(FrameDecoderError::Io { source: _ }) => self.terminate(Reason::Io),
        }
    }

    /// The peer closed the stream, and the inbound buffer `src` has been
    /// searched for frames: the task ends, with `EndOfStream` between two
    /// frames and with `TruncatedStream` in the middle of one.
    pub fn end_of_stream(&mut self, src: &BytesMut) -> (action: Action)
        requires
            old(self).wf(),
        ensures
            follows(*old(self), *final(self), None),
            old(self).same_ciphers(final(self)),
            final(self).decoder_state() == old(self).decoder_state(),
            match old(self).ended() {
                Some(reason) => action == Action::Terminate(reason) && *final(self) == *old(self),
                None => {
                    let reason = if old(self).decoder_state() == FrameDecoderState::Header
                        && buffer_bytes(*src).len() == 0 {
                        Reason::EndOfStream
                    } else {
                        Reason::TruncatedStream
                    };
                    action == Action::Terminate(reason) && final(self).ended() == Some(reason)
                },
            },
    {
        if let Some(reason) = self.ended {
            return Action::Terminate(reason);
        }
        if self.decoder.at_frame_boundary() && buf_len(src) == 0 {
            self.terminate(Reason::EndOfStream)
        } else {
            self.terminate(Reason::TruncatedStream)
        }
    }

    /// The CWC primitive is done with a request to open that
    /// [`Connection::read_frame`] handed out: the plaintext is delivered as
    /// a frame under the counters of the request, and a refused tag ends the
    /// task with `InvalidCiphertext`.
    pub fn opened(&mut self, global_counter: u16, counter: u32, outcome: Option<Vec<u8>>) -> (action:
        Action)
        requires
            old(self).wf(),
        ensures
            follows(*old(self), *final(self), None),
            old(self).same_ciphers(final(self)),
            final(self).decoder_state() == old(self).decoder_state(),
            match (old(self).ended(), outcome) {
                (Some(reason), _) => action == Action::Terminate(reason) && *final(self) == *old(
                    self,
                ),
                (None, Some(plain)) => {
                    &&& action matches Action::Deliver(frame) && frame@ == (FrameView {
                        global_counter,
                        counter,
                        data: plain@,
                    })
                    &&& final(self).ended() is None
                },
                (None, None) => {
                    &&& action == Action::Terminate(Reason::InvalidCiphertext)
                    &&& final(self).ended() == Some(Reason::InvalidCiphertext)
                },
            },
    {
        if let Some(reason) = self.ended {
            return Action::Terminate(reason);
        }
        match FrameDecoder::opened(global_counter, counter, outcome) {
            Ok(frame) => Action::Deliver(frame),
            Err(_) => self.terminate(Reason::InvalidCiphertext),
        }
    }

    /// The outbound queue gave `frame`, or was closed.
    ///
    /// A closed queue ends the task. A frame is handled under the outbound
    /// cipher as [`outbound_action`] says: written onto the end of `dst` to
    /// be flushed, handed out to be sealed, dropped as too long while the
    /// task goes on, or the end of the task with `InvalidCiphertext`.
    pub fn write_frame(&mut self, frame: Option<Frame>, dst: &mut BytesMut) -> (action: Action)
        requires
            old(self).wf(),
            buffer_bytes(*old(dst)).len() + MAX_FRAME_SIZE <= isize::MAX,
        ensures
            follows(*old(self), *final(self), None),
            old(self).same_ciphers(final(self)),
            final(self).decoder_state() == old(self).decoder_state(),
            match (old(self).ended(), frame) {
                (Some(reason), _) => {
                    &&& action == Action::Terminate(reason)
                    &&& *final(self) == *old(self)
                    &&& buffer_bytes(*final(dst)) == buffer_bytes(*old(dst))
                },
                (None, None) => {
                    &&& action == Action::Terminate(Reason::OutboundQueueClosed)
                    &&& final(self).ended() == Some(Reason::OutboundQueueClosed)
                    &&& buffer_bytes(*final(dst)) == buffer_bytes(*old(dst))
                },
                (None, Some(frame)) => {
                    &&& outbound_action(
                        old(self).outbound_cipher(),
                        true,
                        frame@,
                        buffer_bytes(*old(dst)),
                        buffer_bytes(*final(dst)),
                        action,
                    )
                    &&& final(self).ended() == (match action {
                        Action::Terminate(reason) => Some(reason),
                        _ => None,
                    })
                },
            },
    {
        if let Some(reason) = self.ended {
            return Action::Terminate(reason);
        }
        match frame {
            Some(frame) => match self.encoder.encode(frame, dst) {
                Ok(Encoded::Written) => Action::Flush,
                Ok(Encoded::Seal { global_counter, counter, request }) => Action::Seal {
                    global_counter,
                    counter,
                    request,
                },
                Err(FrameEncoderError::InvalidSize) => Action::Refused,
                Err(FrameEncoderError::InvalidCiphertext) => self.terminate(
                    Reason::InvalidCiphertext,
                ),
                Err(FrameEncoderError::Io { source: _ }) => self.terminate(Reason::Io),
            },
            None => self.terminate(Reason::OutboundQueueClosed),
        }
    }

    /// The CWC primitive is done with `request`, which
    /// [`Connection::write_frame`] handed out.
    ///
    /// Where it gave a tag and a sealed body, the envelope of the request's
    /// nonce, the tag and the body is written as a frame onto the end of
    /// `dst` to be flushed, or dropped as too long while the task goes on.
    /// Where it failed, the task ends with `InvalidCiphertext`.
    pub fn sealed(
        &mut self,
        global_counter: u16,
        counter: u32,
        request: &SealRequest,
        outcome: Option<(&[u8; 16], &[u8])>,
        dst: &mut BytesMut,
    ) -> (action: Action)
        requires
            old(self).wf(),
            buffer_bytes(*old(dst)).len() + MAX_FRAME_SIZE <= isize::MAX,
        ensures
            follows(*old(self), *final(self), None),
            old(self).same_ciphers(final(self)),
            final(self).decoder_state() == old(self).decoder_state(),
            match (old(self).ended(), outcome) {
                (Some(reason), _) => {
                    &&& action == Action::Terminate(reason)
                    &&& *final(self) == *old(self)
                    &&& buffer_bytes(*final(dst)) == buffer_bytes(*old(dst))
                },
                (None, None) => {
                    &&& action == Action::Terminate(Reason::InvalidCiphertext)
                    &&& final(self).ended() == Some(Reason::InvalidCiphertext)
                    &&& buffer_bytes(*final(dst)) == buffer_bytes(*old(dst))
                },
                (None, Some((tag, body))) => {
                    &&& final(self).ended() is None
                    &&& if CWC_OVERHEAD + body@.len() <= max_body_len(true) {
                        &&& action matches Action::Flush
                        &&& buffer_bytes(*final(dst)) == buffer_bytes(*old(dst)) + frame_bytes(
                            global_counter,
                            counter,
                            cwc_envelope(request.nonce@, tag@, body@),
                            true,
                        )
                    } else {
                        &&& action matches Action::Refused
                        &&& buffer_bytes(*final(dst)) == buffer_bytes(*old(dst))
                    }
                },
            },
    {
        if let Some(reason) = self.ended {
            return Action::Terminate(reason);
        }
        match outcome {
            Some((tag, body)) => {
                if body.len() > MAX_FRAME_SIZE {
                    return Action::Refused;
                }
                let envelope = request.envelope(tag, body);
                match self.encoder.encode_sealed(
                    global_counter,
                    counter,
                    buf_as_slice(&envelope),
                    dst,
                ) {
                    Ok(()) => Action::Flush,
                    Err(_) => Action::Refused,
                }
            },
            None => self.terminate(Reason::InvalidCiphertext),
        }
    }
}

/// Whether the task may be left as `after` when it was `before` and has
/// reacted to one event. `rekey` is the cipher that the event brought, where
/// it was a cipher change that brought one.
///
/// A cipher that reaches a task which has not ended becomes the cipher of
/// both directions. Nothing else changes the cipher of either.
pub open spec fn follows(before: Connection, after: Connection, rekey: Option<CipherMode>) -> bool {
    if before.ended() is None && rekey is Some {
        &&& after.wf()
        &&& after.inbound_cipher() == rekey->0
        &&& after.outbound_cipher() == rekey->0
    } else {
        before.same_ciphers(&after)
    }
}

/// Whether `states` is what a task went through while it reacted to a run
/// of events, one after the other, of which `rekeys` tells the cipher that
/// each brought, if any.
pub open spec fn is_run(states: Seq<Connection>, rekeys: Seq<Option<CipherMode>>) -> bool {
    &&& states.len() == rekeys.len() + 1
    &&& forall|i: int|
        0 <= i < rekeys.len() ==> follows(#[trigger] states[i], states[i + 1], rekeys[i])
}

/// A cipher change is atomic. In any run of events, once a cipher has
/// reached a task that has not ended, both directions are under that cipher
/// after the event and after every later event, up to the next event that
/// brings a cipher: so the next frame out is sealed under it, the next body
/// in is opened under it, and at no point between do the two directions
/// differ.
pub proof fn lemma_cipher_change_is_atomic(
    states: Seq<Connection>,
    rekeys: Seq<Option<CipherMode>>,
    at: int,
    cipher: CipherMode,
    later: int,
)
    requires
        is_run(states, rekeys),
        0 <= at < later <= rekeys.len(),
        states[at].ended() is None,
        rekeys[at] == Some(cipher),
        forall|k: int| at < k < later ==> rekeys[k] is None,
    ensures
        states[later].inbound_cipher() == cipher,
        states[later].outbound_cipher() == cipher,
    decreases later - at,
{
    if later == at + 1 {
        assert(follows(states[at], states[at + 1], rekeys[at]));
    } else {
        lemma_cipher_change_is_atomic(states, rekeys, at, cipher, later - 1);
        assert(follows(states[later - 1], states[later], rekeys[later - 1]));
    }
}

/// Without a cipher change the ciphers stay: in any run of events none of
/// which brings a cipher, each direction ends under the cipher it began
/// under.
pub proof fn lemma_ciphers_stay_without_change(
    states: Seq<Connection>,
    rekeys: Seq<Option<CipherMode>>,
    later: int,
)
    requires
        is_run(states, rekeys),
        0 <= later <= rekeys.len(),
        forall|k: int| 0 <= k < later ==> rekeys[k] is None,
    ensures
        states[later].inbound_cipher() == states[0].inbound_cipher(),
        states[later].outbound_cipher() == states[0].outbound_cipher(),
    decreases later,
{
    if later > 0 {
        lemma_ciphers_stay_without_change(states, rekeys, later - 1);
        assert(follows(states[later - 1], states[later], rekeys[later - 1]));
    }
}

/// One session of the datagram service: the peer it belongs to.
#[derive(Clone, Copy, Debug, PartialEq, Eq, Structural)]
pub struct UdpConnection {
    /// The peer's IPv4 address, as one number.
    pub addr: u32,
    /// The peer's port.
    pub port: u16,
}

impl UdpConnection {
    /// The key that datagrams of this peer are told apart by: the address
    /// in the bits above the sixteen of the port.
    pub open spec fn session_key(&self) -> u64 {
        (self.addr as int * 0x1_0000 + self.port as int) as u64
    }

    /// The session of the peer at `addr` and `port`.
    pub fn new(addr: u32, port: u16) -> (conn: UdpConnection)
        ensures
            conn == (UdpConnection { addr, port }),
    {
        UdpConnection { addr, port }
    }

    /// The key that datagrams of this peer are told apart by.
    pub fn key(&self) -> (key: u64)
        ensures
            key == self.session_key(),
    {
        self.addr as u64 * 0x1_0000 + self.port as u64
    }
}

/// Peers with different addresses or ports have different keys.
pub proof fn lemma_session_key_injective(a: UdpConnection, b: UdpConnection)
    requires
        a.session_key() == b.session_key(),
    ensures
        a == b,
{
}

} // verus!
