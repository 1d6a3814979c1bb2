//! Frames: the unit that crosses between the wire and a protocol handler.

use bytes::BytesMut;
use vstd::prelude::*;

use crate::buffer::buffer_bytes;

pub use crypto::CipherMode;
pub use decoder::{FrameDecoder, FrameDecoderError};
pub use encoder::{FrameEncoder, FrameEncoderError};

pub mod crypto;
pub mod decoder;
pub mod encoder;
pub mod header;
pub mod laws;

verus! {

/// `std::io::Error`, what a transport reports; it is never read.
#[verifier::external_type_specification]
#[verifier::external_body]
pub struct ExIoError(std::io::Error);

/// Bytes of the header proper.
pub const LOGIN_HEADER_SIZE: usize = 26;

/// Bytes of the trailer that follows the header on a codec made with one.
pub const TRAILER_SIZE: usize = 16;

/// The greatest size of a frame on the wire, header included: the first
/// length field holds the size minus 2 in sixteen bits.
pub const MAX_FRAME_SIZE: usize = 65537;

/// The greatest size of a header together with the plaintext that an
/// encoder is given to seal.
pub const MAX_PLAIN_FRAME_SIZE: usize = 65533;

/// A header and a body. On the way in `data` is the plaintext that the body
/// opened to; on the way out it is the plaintext to seal.
pub struct Frame {
    /// The peer's 16-bit sequence number, echoed on replies.
    pub global_counter: u16,
    /// The session's packet counter.
    pub counter: u32,
    /// The body.
    pub data: BytesMut,
}

/// A [`Frame`] with its body as a plain sequence.
pub struct FrameView {
    pub global_counter: u16,
    pub counter: u32,
    pub data: Seq<u8>,
}

impl View for Frame {
    type V = FrameView;

    open spec fn view(&self) -> FrameView {
        FrameView {
            global_counter: self.global_counter,
            counter: self.counter,
            data: buffer_bytes(self.data),
        }
    }
}

impl Frame {
    pub fn new(global_counter: u16, counter: u32, data: BytesMut) -> (frame: Self)
        ensures
            frame.global_counter == global_counter,
            frame.counter == counter,
            frame.data == data,
    {
        Self { global_counter, counter, data }
    }
}

} // verus!
