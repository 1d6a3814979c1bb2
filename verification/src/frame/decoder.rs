//! The decoding half of the codec: header, then body, then the cipher.

use bytes::BytesMut;
use vstd::prelude::*;

use crate::buffer::{
    buf_advance, buf_as_slice, buf_get_u16, buf_get_u32, buf_get_u32_le, buf_len, buf_reserve,
    buf_split_to, buffer_bytes,
};
use crate::frame::crypto::{
    cwc_open_request, decrypt, opened, rsa_open_bytes, CipherMode, Decrypted, OpenRequest,
    CWC_OVERHEAD,
};
use crate::frame::header::{
    frame_step, header_accepted, header_fields, header_size, Framed,
};
use crate::frame::{Frame, FrameView, LOGIN_HEADER_SIZE, TRAILER_SIZE};

pub use crate::frame::header::FrameDecoderState;

verus! {

/// Why a decoder gave up on a connection.
#[derive(Debug)]
pub enum FrameDecoderError {
    /// The body did not open under the cipher.
    InvalidCiphertext,
    /// The header's length fields disagree, or name a size too small to hold
    /// the header.
    InvalidSize,
    /// The transport failed.
    Io { source: std::io::Error },
}

impl From<std::io::Error> for FrameDecoderError {
    fn from(source: std::io::Error) -> (e: Self) {
        FrameDecoderError::Io { source }
    }
}

impl vstd::std_specs::convert::FromSpecImpl<std::io::Error> for FrameDecoderError {
    open spec fn obeys_from_spec() -> bool {
        true
    }

    open spec fn from_spec(source: std::io::Error) -> Self {
        FrameDecoderError::Io { source }
    }
}

/// What a decoder hands on once a whole body has arrived.
pub enum Decoded {
    /// A frame whose body was opened here.
    Frame(Frame),
    /// The parts of a CWC envelope, to be opened by the embedding program;
    /// [`FrameDecoder::opened`] then makes the frame.
    Open { global_counter: u16, counter: u32, request: OpenRequest },
}

/// Whether `r` is what a decoder under `mode` owes for a body that arrived
/// under the two counters.
pub open spec fn decoded_result(
    mode: CipherMode,
    global_counter: u16,
    counter: u32,
    body: Seq<u8>,
    r: Result<Option<Decoded>, FrameDecoderError>,
) -> bool {
    match mode {
        CipherMode::Rsa(key, padding) => match rsa_open_bytes(key, padding, body) {
            Some(plain) => r matches Ok(Some(Decoded::Frame(frame))) && frame@ == (FrameView {
                global_counter,
                counter,
                data: plain,
            }),
            None => r matches Err(FrameDecoderError::InvalidCiphertext),
        },
        CipherMode::Cwc(key) => if body.len() < CWC_OVERHEAD {
            r matches Err(FrameDecoderError::InvalidCiphertext)
        } else {
            r matches Ok(Some(Decoded::Open { global_counter: g, counter: c, request })) && g
                == global_counter && c == counter && request@ == cwc_open_request(key@, body)
        },
    }
}

/// Whether `r` is what [`FrameDecoder::opened`] owes for the outcome of the
/// CWC primitive on a body that arrived under the two counters: the frame
/// that carries the plaintext, or `InvalidCiphertext` where the primitive
/// refused the tag.
pub open spec fn opened_result(
    global_counter: u16,
    counter: u32,
    outcome: Option<Seq<u8>>,
    r: Result<Frame, FrameDecoderError>,
) -> bool {
    match outcome {
        Some(plain) => r matches Ok(frame) && frame@ == (FrameView {
            global_counter,
            counter,
            data: plain,
        }),
        None => r matches Err(FrameDecoderError::InvalidCiphertext),
    }
}

/// A stateful decoder of frames from a buffer that fills as bytes arrive.
pub struct FrameDecoder {
    cipher_mode: CipherMode,
    // Whether 128 bits of trailer follow each header.
    has_128b_trailer: bool,
    state: FrameDecoderState,
}

impl FrameDecoder {
    /// The cipher that bodies are opened under.
    pub closed spec fn cipher_mode(&self) -> CipherMode {
        self.cipher_mode
    }

    /// Whether a trailer follows each header.
    pub closed spec fn has_128b_trailer(&self) -> bool {
        self.has_128b_trailer
    }

    /// Where the decoder stands.
    pub closed spec fn state(&self) -> FrameDecoderState {
        self.state
    }

    /// A decoder at the start of a stream.
    pub fn new(cipher_mode: CipherMode, has_128b_trailer: bool) -> (decoder: Self)
        ensures
            decoder.cipher_mode() == cipher_mode,
            decoder.has_128b_trailer() == has_128b_trailer,
            decoder.state() == FrameDecoderState::Header,
    {
        Self { cipher_mode, has_128b_trailer, state: FrameDecoderState::Header }
    }

    /// Whether the decoder waits for a header, as it does between frames.
    pub fn at_frame_boundary(&self) -> (b: bool)
        ensures
            b == (self.state() == FrameDecoderState::Header),
    {
        match self.state {
            FrameDecoderState::Header => true,
            FrameDecoderState::Data { .. } => false,
        }
    }

    fn decode_header(&self, src: &mut BytesMut) -> (r: Result<
        Option<(usize, u16, u32)>,
        FrameDecoderError,
    >)
        ensures
            ({
                let bytes = buffer_bytes(*old(src));
                let size = header_size(self.has_128b_trailer);
                let fields = header_fields(bytes);
                if bytes.len() < size {
                    r matches Ok(None) && buffer_bytes(*final(src)) == bytes
                } else if header_accepted(fields, self.has_128b_trailer) {
                    r matches Ok(Some(found)) && found == ((fields.size_minus_2 + 2
                        - size) as usize, fields.global_counter, fields.counter) && buffer_bytes(
                        *final(src),
                    ) == bytes.skip(size as int)
                } else {
                    r matches Err(FrameDecoderError::InvalidSize) && buffer_bytes(*final(src))
                        == bytes.skip(14)
                }
            }),
    {
        let header_size = if self.has_128b_trailer {
            LOGIN_HEADER_SIZE + TRAILER_SIZE
        } else {
            LOGIN_HEADER_SIZE
        };
        let ghost bytes = buffer_bytes(*src);

        if buf_len(src) < header_size {
            buf_reserve(src, header_size);
            return Ok(None);
        }
        let packet_length = buf_get_u16(src);
        let global_counter = buf_get_u16(src);
        let _unk1 = buf_get_u16(src);

        let packet_length_u32_a = buf_get_u32(src);
        let packet_length_u32_b = buf_get_u32(src);
        assert(buffer_bytes(*src) =~= bytes.skip(14));

        let total: u64 = packet_length as u64 + 2;
        if total != packet_length_u32_a as u64 + 14 || total != packet_length_u32_b as u64 + 14
            || total < header_size as u64 {
            return Err(FrameDecoderError::InvalidSize);
        }
        let _unk2 = buf_get_u32(src);
        let _unk3 = buf_get_u32(src);
        let counter = buf_get_u32_le(src);
        assert(buffer_bytes(*src) =~= bytes.skip(26));

        if self.has_128b_trailer {
            buf_advance(src, TRAILER_SIZE);
            assert(buffer_bytes(*src) =~= bytes.skip(42));
        }
        Ok(Some((packet_length as usize + 2 - header_size, global_counter, counter)))
    }

    /// Opens bodies under `cipher_mode` from the next frame on.
    pub fn set_cipher_mode(&mut self, cipher_mode: CipherMode)
        ensures
            final(self).cipher_mode() == cipher_mode,
            final(self).has_128b_trailer() == old(self).has_128b_trailer(),
            final(self).state() == old(self).state(),
    {
        self.cipher_mode = cipher_mode;
    }

    /// Takes the next frame from `src`, if it holds one.
    ///
    /// The framing is that of [`frame_step`]: the state the decoder is left
    /// in, the bytes left in `src` and whether a body was found are exactly
    /// what it says. A body that was found is opened under the cipher: under
    /// RSA here, giving the frame or `InvalidCiphertext`; under CWC it is
    /// split into the request to open, or refused as `InvalidCiphertext`
    /// where it is shorter than nonce and tag.
    pub fn decode(&mut self, src: &mut BytesMut) -> (r: Result<Option<Decoded>, FrameDecoderError>)
        ensures
            final(self).cipher_mode() == old(self).cipher_mode(),
            final(self).has_128b_trailer() == old(self).has_128b_trailer(),
            ({
                let step = frame_step(
                    old(self).state(),
                    old(self).has_128b_trailer(),
                    buffer_bytes(*old(src)),
                );
                &&& final(self).state() == step.state
                &&& buffer_bytes(*final(src)) == step.rest
                &&& match step.found {
                    Framed::NeedMore => r matches Ok(None),
                    Framed::InvalidSize => r matches Err(FrameDecoderError::InvalidSize),
                    Framed::Body { global_counter, counter, body } => decoded_result(
                        old(self).cipher_mode(),
                        global_counter,
                        counter,
                        body,
                        r,
                    ),
                }
            }),
    {
        let (length, global_counter, counter) = match self.state {
            FrameDecoderState::Header => match self.decode_header(src) {
                Ok(Some((length, global_counter, counter))) => {
                    self.state = FrameDecoderState::Data { length, global_counter, counter };
                    (length, global_counter, counter)
                },
                Ok(None) => return Ok(None),
                Err(e) => return Err(e),
            },
            FrameDecoderState::Data { length, global_counter, counter } => (
                length,
                global_counter,
                counter,
            ),
        };

        if buf_len(src) < length {
            return Ok(None);
        }
        self.state = FrameDecoderState::Header;

        let data = buf_split_to(src, length);
        match decrypt(&self.cipher_mode, buf_as_slice(&data)) {
            Ok(Decrypted::Plain(decrypted_data)) => Ok(
                Some(Decoded::Frame(Frame { counter, global_counter, data: decrypted_data })),
            ),
            Ok(Decrypted::Open(request)) => Ok(
                Some(Decoded::Open { global_counter, counter, request }),
            ),
            Err(_) => Err(FrameDecoderError::InvalidCiphertext),
        }
    }

    /// The frame for a body that the embedding program's CWC primitive
    /// opened, or `InvalidCiphertext` where it refused the tag.
    pub fn opened(global_counter: u16, counter: u32, outcome: Option<Vec<u8>>) -> (r: Result<
        Frame,
        FrameDecoderError,
    >)
        ensures
            opened_result(
                global_counter,
                counter,
                match outcome {
                    Some(plain) => Some(plain@),
                    None => None,
                },
                r,
            ),
    {
        match opened(outcome) {
            Ok(data) => Ok(Frame { global_counter, counter, data }),
            Err(_) => Err(FrameDecoderError::InvalidCiphertext),
        }
    }
}

} // verus!
