//! Payloads into frames and back, with the two counters carried along.
//!
//! Protocol-buffer messages are encoded and decoded by the embedding program;
//! what crosses here is the encoded payload.

use bytes::BytesMut;
use vstd::prelude::*;

use crate::buffer::{buf_from_slice, buffer_bytes};
use crate::frame::{Frame, FrameView};

verus! {

/// The frame that carries the raw bytes `data` under the two counters.
pub fn write_data(data: &[u8], global_counter: u16, counter: u32) -> (frame: Frame)
    ensures
        frame@ == (FrameView { global_counter, counter, data: data@ }),
{
    let data_buffer = buf_from_slice(data);
    Frame::new(global_counter, counter, data_buffer)
}

/// The frame that carries the encoded message `message_data` under the two
/// counters.
pub fn write_message(message_data: BytesMut, global_counter: u16, counter: u32) -> (frame: Frame)
    ensures
        frame@ == (FrameView { global_counter, counter, data: buffer_bytes(message_data) }),
        frame.data == message_data,
{
    Frame::new(global_counter, counter, message_data)
}

/// The encoded message that `frame` carries, with the counters it came
/// under.
pub fn read_message(frame: Frame) -> (read: (BytesMut, u16, u32))
    ensures
        read.0 == frame.data,
        read.1 == frame.global_counter,
        read.2 == frame.counter,
{
    (frame.data, frame.global_counter, frame.counter)
}

/// The raw bytes that `frame` carries, with the counters it came under.
pub fn read_data(frame: Frame) -> (read: (BytesMut, u16, u32))
    ensures
        read.0 == frame.data,
        read.1 == frame.global_counter,
        read.2 == frame.counter,
{
    (frame.data, frame.global_counter, frame.counter)
}

} // verus!
