//! The encoding half of the codec: the cipher first, then header and body.

use bytes::BytesMut;
use vstd::prelude::*;

use crate::buffer::{
    buf_as_slice, buf_len, buf_put_slice, buf_put_u128, buf_put_u16, buf_put_u32,
    buf_put_u32_le, buffer_bytes,
};
use crate::frame::crypto::{encrypt, rsa_seal_bytes, CipherMode, Encrypted, SealRequest};
use crate::frame::header::{frame_bytes, header_bytes, header_size, max_body_len, max_data_len};
use crate::frame::{
    Frame, LOGIN_HEADER_SIZE, MAX_FRAME_SIZE, MAX_PLAIN_FRAME_SIZE, TRAILER_SIZE,
};
use crate::wire::lemma_be128_zero;

verus! {

/// Why an encoder refused a frame.
#[derive(Debug)]
pub enum FrameEncoderError {
    /// The plaintext is longer than an encoder takes, or the sealed body is
    /// longer than a frame can carry.
    InvalidSize,
    /// The body could not be sealed under the cipher.
    InvalidCiphertext,
    /// The transport failed.
    Io { source: std::io::Error },
}

impl From<std::io::Error> for FrameEncoderError {
    fn from(source: std::io::Error) -> (e: Self) {
        FrameEncoderError::Io { source }
    }
}

impl vstd::std_specs::convert::FromSpecImpl<std::io::Error> for FrameEncoderError {
    open spec fn obeys_from_spec() -> bool {
        true
    }

    open spec fn from_spec(source: std::io::Error) -> Self {
        FrameEncoderError::Io { source }
    }
}

/// What an encoder did with a frame that it accepted.
pub enum Encoded {
    /// The frame was sealed here and written out.
    Written,
    /// The body is to be sealed by the embedding program;
    /// [`FrameEncoder::encode_sealed`] then writes the frame.
    Seal { global_counter: u16, counter: u32, request: SealRequest },
}

/// An encoder of frames onto the end of a buffer.
pub struct FrameEncoder {
    cipher_mode: CipherMode,
    has_128b_trailer: bool,
}

impl FrameEncoder {
    /// The cipher that bodies are sealed under.
    pub closed spec fn cipher_mode(&self) -> CipherMode {
        self.cipher_mode
    }

    /// Whether a trailer follows each header.
    pub closed spec fn has_128b_trailer(&self) -> bool {
        self.has_128b_trailer
    }

    pub fn new(cipher_mode: CipherMode, has_128b_trailer: bool) -> (encoder: Self)
        ensures
            encoder.cipher_mode() == cipher_mode,
            encoder.has_128b_trailer() == has_128b_trailer,
    {
        FrameEncoder { cipher_mode, has_128b_trailer }
    }

    /// Seals bodies under `cipher_mode` from the next frame on.
    pub fn set_cipher_mode(&mut self, cipher_mode: CipherMode)
        ensures
            final(self).cipher_mode() == cipher_mode,
            final(self).has_128b_trailer() == old(self).has_128b_trailer(),
    {
        self.cipher_mode = cipher_mode;
    }

    /// Writes the frame that carries the sealed body `sealed` onto the end
    /// of `dst`. A frame fits while its size on the wire, less 2, fits the
    /// sixteen bits of the first length field, which is up to 65537 bytes;
    /// a longer one is refused and `dst` left alone.
    pub fn encode_sealed(
        &self,
        global_counter: u16,
        counter: u32,
        sealed: &[u8],
        dst: &mut BytesMut,
    ) -> (r: Result<(), FrameEncoderError>)
        requires
            buffer_bytes(*old(dst)).len() + MAX_FRAME_SIZE <= isize::MAX,
        ensures
            if sealed@.len() <= max_body_len(self.has_128b_trailer()) {
                r is Ok && buffer_bytes(*final(dst)) == buffer_bytes(*old(dst)) + frame_bytes(
                    global_counter,
                    counter,
                    sealed@,
                    self.has_128b_trailer(),
                )
            } else {
                r matches Err(FrameEncoderError::InvalidSize) && buffer_bytes(*final(dst))
                    == buffer_bytes(*old(dst))
            },
    {
        let header_size = if self.has_128b_trailer {
            LOGIN_HEADER_SIZE + TRAILER_SIZE
        } else {
            LOGIN_HEADER_SIZE
        };
        if sealed.len() > MAX_FRAME_SIZE - header_size {
            return Err(FrameEncoderError::InvalidSize);
        }
        let total_len: usize = sealed.len() + header_size;

        buf_put_u16(dst, (total_len - 2) as u16);
        buf_put_u16(dst, global_counter);
        buf_put_u16(dst, 0);  // unk1

        buf_put_u32(dst, (total_len - 14) as u32);
        buf_put_u32(dst, (total_len - 14) as u32);
        buf_put_u32(dst, 0);  // unk2
        buf_put_u32(dst, 0);  // unk3
        buf_put_u32_le(dst, counter);

        if self.has_128b_trailer {
            buf_put_u128(dst, 0);
            proof {
                lemma_be128_zero();
            }
        }
        assert(buffer_bytes(*dst) =~= buffer_bytes(*old(dst)) + header_bytes(
            global_counter,
            counter,
            sealed@.len(),
            self.has_128b_trailer,
        ));
        buf_put_slice(dst, sealed);
        assert(buffer_bytes(*dst) =~= buffer_bytes(*old(dst)) + frame_bytes(
            global_counter,
            counter,
            sealed@,
            self.has_128b_trailer,
        ));
        Ok(())
    }

    /// Seals `item` and writes it onto the end of `dst`.
    ///
    /// A plaintext longer than 65533 bytes less the header is `InvalidSize`,
    /// before any cipher is tried. Under RSA the body is sealed here: where
    /// OpenSSL reports an error the result is `InvalidCiphertext`, where the
    /// sealed body is longer than a frame can carry it is `InvalidSize`, and
    /// else the frame is written.
    /// Under CWC nothing is written yet: the result is the request to seal.
    /// Whenever the result is not `Written`, `dst` is left alone.
    pub fn encode(&mut self, item: Frame, dst: &mut BytesMut) -> (r: Result<
        Encoded,
        FrameEncoderError,
    >)
        requires
            buffer_bytes(*old(dst)).len() + MAX_FRAME_SIZE <= isize::MAX,
        ensures
            *final(self) == *old(self),
            encoded_result(
                old(self).cipher_mode(),
                old(self).has_128b_trailer(),
                item@.global_counter,
                item@.counter,
                item@.data,
                buffer_bytes(*old(dst)),
                buffer_bytes(*final(dst)),
                r,
            ),
    {
        let header_size = if self.has_128b_trailer {
            LOGIN_HEADER_SIZE + TRAILER_SIZE
        } else {
            LOGIN_HEADER_SIZE
        };
        if buf_len(&item.data) > MAX_PLAIN_FRAME_SIZE - header_size {
            return Err(FrameEncoderError::InvalidSize);
        }
        match encrypt(&self.cipher_mode, buf_as_slice(&item.data)) {
            Ok(Encrypted::Sealed(encrypted_data)) => {
                match self.encode_sealed(
                    item.global_counter,
                    item.counter,
                    buf_as_slice(&encrypted_data),
                    dst,
                ) {
                    Ok(()) => Ok(Encoded::Written),
                    Err(e) => Err(e),
                }
            },
            Ok(Encrypted::Seal(request)) => Ok(
                Encoded::Seal {
                    global_counter: item.global_counter,
                    counter: item.counter,
                    request,
                },
            ),
            Err(_) => Err(FrameEncoderError::InvalidCiphertext),
        }
    }
}

/// Whether `r` and the bytes `after` are what an encoder under `mode` owes
/// for a frame, on a buffer that held `before`.
pub open spec fn encoded_result(
    mode: CipherMode,
    has_128b_trailer: bool,
    global_counter: u16,
    counter: u32,
    data: Seq<u8>,
    before: Seq<u8>,
    after: Seq<u8>,
    r: Result<Encoded, FrameEncoderError>,
) -> bool {
    if data.len() > max_data_len(has_128b_trailer) {
        r matches Err(FrameEncoderError::InvalidSize) && after == before
    } else {
        match mode {
            CipherMode::Rsa(key, padding) => match rsa_seal_bytes(key, padding, data) {
                Some(sealed) => if sealed.len() <= max_body_len(has_128b_trailer) {
                    r matches Ok(Encoded::Written) && after == before + frame_bytes(
                        global_counter,
                        counter,
                        sealed,
                        has_128b_trailer,
                    )
                } else {
                    r matches Err(FrameEncoderError::InvalidSize) && after == before
                },
                None => r matches Err(FrameEncoderError::InvalidCiphertext) && after == before,
            },
            CipherMode::Cwc(key) => r matches Ok(
                Encoded::Seal { global_counter: g, counter: c, request },
            ) && g == global_counter && c == counter && request.key@ == key@ && request.plaintext@
                == data && after == before,
        }
    }
}

} // verus!
