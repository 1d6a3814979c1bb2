//! The layout of a frame on the wire, and what a decoder makes of a run of
//! bytes.
//!
//! | Offset | Size | Field |
//! |---|---|---|
//! | 0 | 2 | size on the wire minus 2 |
//! | 2 | 2 | global counter |
//! | 4 | 2 | zero |
//! | 6 | 4 | size on the wire minus 14 |
//! | 10 | 4 | size on the wire minus 14, again |
//! | 14 | 4 | zero |
//! | 18 | 4 | zero |
//! | 22 | 4 | counter, least significant byte first |
//! | 26 | 16 | trailer of zeros, on a codec made with one |
//!
//! All fields but the counter are written most significant byte first.

use vstd::prelude::*;

use crate::wire::{be16, be16_at, be32, be32_at, le32, le32_at, zeros16};

verus! {

/// Where a decoder stands between two calls.
#[derive(Debug)]
pub enum FrameDecoderState {
    /// Waiting for a whole header.
    Header,
    /// A header has been taken; waiting for `length` bytes of body.
    Data { length: usize, counter: u32, global_counter: u16 },
}

/// Bytes that precede the body: the header, and the trailer where there is
/// one.
pub open spec fn header_size(has_128b_trailer: bool) -> nat {
    if has_128b_trailer {
        42
    } else {
        26
    }
}

/// The longest body that a frame can carry on the wire: the size of the
/// frame, less 2, has to fit the sixteen bits of the first length field.
pub open spec fn max_body_len(has_128b_trailer: bool) -> nat {
    (65537 - header_size(has_128b_trailer)) as nat
}

/// The longest plaintext that an encoder takes to seal.
pub open spec fn max_data_len(has_128b_trailer: bool) -> nat {
    (65533 - header_size(has_128b_trailer)) as nat
}

/// The header, and trailer if any, of a frame whose body has `body_len`
/// bytes.
pub open spec fn header_bytes(
    global_counter: u16,
    counter: u32,
    body_len: nat,
    has_128b_trailer: bool,
) -> Seq<u8>
    recommends
        body_len <= max_body_len(has_128b_trailer),
{
    let total = body_len + header_size(has_128b_trailer);
    let head = be16((total - 2) as u16) + be16(global_counter) + be16(0) + be32(
        (total - 14) as u32,
    ) + be32((total - 14) as u32) + be32(0) + be32(0) + le32(counter);
    if has_128b_trailer {
        head + zeros16()
    } else {
        head
    }
}

/// A whole frame on the wire: header, trailer if any, body.
pub open spec fn frame_bytes(
    global_counter: u16,
    counter: u32,
    body: Seq<u8>,
    has_128b_trailer: bool,
) -> Seq<u8>
    recommends
        body.len() <= max_body_len(has_128b_trailer),
{
    header_bytes(global_counter, counter, body.len(), has_128b_trailer) + body
}

/// The fields that a decoder reads from the front of `bytes`.
pub struct HeaderFields {
    /// Size on the wire minus 2.
    pub size_minus_2: u16,
    pub global_counter: u16,
    /// Size on the wire minus 14, first copy.
    pub size_minus_14_a: u32,
    /// Size on the wire minus 14, second copy.
    pub size_minus_14_b: u32,
    pub counter: u32,
}

/// The fields at the front of `bytes`.
pub open spec fn header_fields(bytes: Seq<u8>) -> HeaderFields
    recommends
        bytes.len() >= 26,
{
    HeaderFields {
        size_minus_2: be16_at(bytes, 0),
        global_counter: be16_at(bytes, 2),
        size_minus_14_a: be32_at(bytes, 6),
        size_minus_14_b: be32_at(bytes, 10),
        counter: le32_at(bytes, 22),
    }
}

/// Whether the three length fields name one size.
pub open spec fn lengths_agree(fields: HeaderFields) -> bool {
    &&& fields.size_minus_2 + 2 == fields.size_minus_14_a + 14
    &&& fields.size_minus_2 + 2 == fields.size_minus_14_b + 14
}

/// Whether a decoder goes on to the body: the length fields agree, and the
/// size they name leaves room for the header itself.
pub open spec fn header_accepted(fields: HeaderFields, has_128b_trailer: bool) -> bool {
    lengths_agree(fields) && fields.size_minus_2 + 2 >= header_size(has_128b_trailer)
}

/// What one call of a decoder finds, before any cipher is applied.
pub enum Framed {
    /// Not enough bytes yet.
    NeedMore,
    /// The header was refused.
    InvalidSize,
    /// A whole body, still sealed.
    Body { global_counter: u16, counter: u32, body: Seq<u8> },
}

/// One call of a decoder: the state it is left in, the bytes it leaves in
/// the buffer, and what it found.
pub struct FrameStep {
    pub state: FrameDecoderState,
    pub rest: Seq<u8>,
    pub found: Framed,
}

/// A decoder that waits for `length` bytes of body, on a buffer that holds
/// `bytes`: short of `length` it takes nothing; else it takes exactly
/// `length` bytes and goes back to waiting for a header.
pub open spec fn body_step(length: usize, counter: u32, global_counter: u16, bytes: Seq<u8>) -> FrameStep {
    if bytes.len() < length {
        FrameStep {
            state: FrameDecoderState::Data { length, counter, global_counter },
            rest: bytes,
            found: Framed::NeedMore,
        }
    } else {
        FrameStep {
            state: FrameDecoderState::Header,
            rest: bytes.skip(length as int),
            found: Framed::Body { global_counter, counter, body: bytes.take(length as int) },
        }
    }
}

/// One call of a decoder in `state` on a buffer that holds `bytes`.
///
/// Waiting for a header, it takes nothing from a buffer that holds less than
/// one. A header whose length fields disagree, or name a size that the header
/// itself does not fit in, is refused after its first fourteen bytes have
/// been taken. Any other header is taken whole, and the decoder goes on to
/// the body within the same call.
pub open spec fn frame_step(
    state: FrameDecoderState,
    has_128b_trailer: bool,
    bytes: Seq<u8>,
) -> FrameStep {
    match state {
        FrameDecoderState::Header => {
            if bytes.len() < header_size(has_128b_trailer) {
                FrameStep { state: FrameDecoderState::Header, rest: bytes, found: Framed::NeedMore }
            } else {
                let fields = header_fields(bytes);
                if header_accepted(fields, has_128b_trailer) {
                    body_step(
                        (fields.size_minus_2 + 2 - header_size(has_128b_trailer)) as usize,
                        fields.counter,
                        fields.global_counter,
                        bytes.skip(header_size(has_128b_trailer) as int),
                    )
                } else {
                    FrameStep {
                        state: FrameDecoderState::Header,
                        rest: bytes.skip(14),
                        found: Framed::InvalidSize,
                    }
                }
            }
        },
        FrameDecoderState::Data { length, counter, global_counter } => body_step(
            length,
            counter,
            global_counter,
            bytes,
        ),
    }
}

/// The header of a frame is as long as [`header_size`] says, and a decoder
/// reads from it the fields it was written with, whatever follows it.
pub proof fn lemma_header_fields(
    global_counter: u16,
    counter: u32,
    body_len: nat,
    has_128b_trailer: bool,
    tail: Seq<u8>,
)
    requires
        body_len <= max_body_len(has_128b_trailer),
    ensures
        header_bytes(global_counter, counter, body_len, has_128b_trailer).len() == header_size(
            has_128b_trailer,
        ),
        header_fields(header_bytes(global_counter, counter, body_len, has_128b_trailer) + tail)
            == (HeaderFields {
            size_minus_2: (body_len + header_size(has_128b_trailer) - 2) as u16,
            global_counter,
            size_minus_14_a: (body_len + header_size(has_128b_trailer) - 14) as u32,
            size_minus_14_b: (body_len + header_size(has_128b_trailer) - 14) as u32,
            counter,
        }),
        header_accepted(
            header_fields(header_bytes(global_counter, counter, body_len, has_128b_trailer) + tail),
            has_128b_trailer,
        ),
{
    let total = body_len + header_size(has_128b_trailer);
    let head = be16((total - 2) as u16) + be16(global_counter) + be16(0) + be32(
        (total - 14) as u32,
    ) + be32((total - 14) as u32) + be32(0) + be32(0) + le32(counter);
    let h = header_bytes(global_counter, counter, body_len, has_128b_trailer);
    assert(head.len() == 26);
    assert(forall|i: int| 0 <= i < 26 ==> (h + tail)[i] == head[i]);
    assert(be16_at(head, 0) == (total - 2) as u16);
    assert(be16_at(head, 2) == global_counter);
    assert(be32_at(head, 6) == (total - 14) as u32);
    assert(be32_at(head, 10) == (total - 14) as u32);
    assert(le32_at(head, 22) == counter);
}

/// A decoder that waits for a header, given a whole frame and whatever
/// follows it, finds the body under the counters it was written with, takes
/// exactly the frame, and waits for a header again.
pub proof fn lemma_frame_round_trip(
    global_counter: u16,
    counter: u32,
    body: Seq<u8>,
    has_128b_trailer: bool,
    tail: Seq<u8>,
)
    requires
        body.len() <= max_body_len(has_128b_trailer),
    ensures
        frame_step(
            FrameDecoderState::Header,
            has_128b_trailer,
            frame_bytes(global_counter, counter, body, has_128b_trailer) + tail,
        ) == (FrameStep {
            state: FrameDecoderState::Header,
            rest: tail,
            found: Framed::Body { global_counter, counter, body },
        }),
{
    let h = header_bytes(global_counter, counter, body.len(), has_128b_trailer);
    let size = header_size(has_128b_trailer) as int;
    let bytes = frame_bytes(global_counter, counter, body, has_128b_trailer) + tail;
    lemma_header_fields(global_counter, counter, body.len(), has_128b_trailer, body + tail);
    assert(bytes =~= h + (body + tail));
    assert(bytes.skip(size) =~= body + tail);
    assert((body + tail).take(body.len() as int) =~= body);
    assert((body + tail).skip(body.len() as int) =~= tail);
}

/// A header whose three length fields do not name one size is refused.
pub proof fn lemma_length_disagreement_rejected(bytes: Seq<u8>, has_128b_trailer: bool)
    requires
        bytes.len() >= header_size(has_128b_trailer),
        !lengths_agree(header_fields(bytes)),
    ensures
        frame_step(FrameDecoderState::Header, has_128b_trailer, bytes).found
            == Framed::InvalidSize,
        frame_step(FrameDecoderState::Header, has_128b_trailer, bytes).state
            == FrameDecoderState::Header,
{
}

/// Whether `changed` is `bytes` with the bytes from `lo` up to `hi`
/// overwritten by something else, and all other bytes kept.
pub open spec fn range_changed(bytes: Seq<u8>, changed: Seq<u8>, lo: int, hi: int) -> bool {
    &&& changed.len() == bytes.len()
    &&& forall|i: int| 0 <= i < bytes.len() && !(lo <= i < hi) ==> changed[i] == bytes[i]
    &&& exists|i: int| lo <= i < hi && #[trigger] changed[i] != bytes[i]
}

/// Whether `changed` is `bytes` with one of its three length fields
/// overwritten by something else, and all other bytes kept.
pub open spec fn one_length_field_changed(bytes: Seq<u8>, changed: Seq<u8>) -> bool {
    ||| range_changed(bytes, changed, 0, 2)
    ||| range_changed(bytes, changed, 6, 10)
    ||| range_changed(bytes, changed, 10, 14)
}

/// Overwriting any one of the three length fields of a frame makes a header
/// that is refused.
pub proof fn lemma_changed_length_rejected(
    global_counter: u16,
    counter: u32,
    body: Seq<u8>,
    has_128b_trailer: bool,
    changed: Seq<u8>,
)
    requires
        body.len() <= max_body_len(has_128b_trailer),
        one_length_field_changed(
            frame_bytes(global_counter, counter, body, has_128b_trailer),
            changed,
        ),
    ensures
        frame_step(FrameDecoderState::Header, has_128b_trailer, changed).found
            == Framed::InvalidSize,
{
    let bytes = frame_bytes(global_counter, counter, body, has_128b_trailer);
    lemma_header_fields(global_counter, counter, body.len(), has_128b_trailer, body);
    let f = header_fields(bytes);
    let g = header_fields(changed);
    if range_changed(bytes, changed, 0, 2) {
        let at = choose|i: int| 0 <= i < 2 && #[trigger] changed[i] != bytes[i];
        assert(g.size_minus_14_a == f.size_minus_14_a);
        assert(g.size_minus_2 != f.size_minus_2);
    } else if range_changed(bytes, changed, 6, 10) {
        let at = choose|i: int| 6 <= i < 10 && #[trigger] changed[i] != bytes[i];
        assert(g.size_minus_2 == f.size_minus_2);
        assert(g.size_minus_14_a != f.size_minus_14_a);
    } else {
        let at = choose|i: int| 10 <= i < 14 && #[trigger] changed[i] != bytes[i];
        assert(g.size_minus_2 == f.size_minus_2);
        assert(g.size_minus_14_b != f.size_minus_14_b);
    }
    assert(!lengths_agree(g));
}

/// What a decoder has handed on after bytes were fed to it one at a time.
pub struct Fed {
    /// The state the decoder was left in.
    pub state: FrameDecoderState,
    /// The bytes left in the buffer.
    pub rest: Seq<u8>,
    /// The bodies found, in order, each under its two counters.
    pub bodies: Seq<(u16, u32, Seq<u8>)>,
    /// Whether a header was refused, which ends the feeding.
    pub refused: bool,
}

/// Feeds `incoming` to a decoder one byte at a time, with one call of the
/// decoder after each byte.
pub open spec fn feed_bytewise(
    state: FrameDecoderState,
    has_128b_trailer: bool,
    buffered: Seq<u8>,
    incoming: Seq<u8>,
) -> Fed
    decreases incoming.len(),
{
    if incoming.len() == 0 {
        Fed { state, rest: buffered, bodies: Seq::empty(), refused: false }
    } else {
        let step = frame_step(state, has_128b_trailer, buffered.push(incoming[0]));
        match step.found {
            Framed::InvalidSize => Fed {
                state: step.state,
                rest: step.rest,
                bodies: Seq::empty(),
                refused: true,
            },
            Framed::NeedMore => feed_bytewise(
                step.state,
                has_128b_trailer,
                step.rest,
                incoming.skip(1),
            ),
            Framed::Body { global_counter, counter, body } => {
                let later = feed_bytewise(step.state, has_128b_trailer, step.rest, incoming.skip(1));
                Fed {
                    state: later.state,
                    rest: later.rest,
                    bodies: seq![(global_counter, counter, body)] + later.bodies,
                    refused: later.refused,
                }
            },
        }
    }
}

proof fn lemma_feed_body(
    length: usize,
    counter: u32,
    global_counter: u16,
    has_128b_trailer: bool,
    buffered: Seq<u8>,
    incoming: Seq<u8>,
)
    requires
        incoming.len() >= 1,
        buffered.len() + incoming.len() == length,
    ensures
        feed_bytewise(
            FrameDecoderState::Data { length, counter, global_counter },
            has_128b_trailer,
            buffered,
            incoming,
        ) == (Fed {
            state: FrameDecoderState::Header,
            rest: Seq::empty(),
            bodies: seq![(global_counter, counter, buffered + incoming)],
            refused: false,
        }),
    decreases incoming.len(),
{
    reveal_with_fuel(feed_bytewise, 2);
    let now = buffered.push(incoming[0]);
    let later = incoming.skip(1);
    assert(now + later =~= buffered + incoming);
    if later.len() == 0 {
        assert(now =~= buffered + incoming);
        assert(now.take(length as int) =~= now);
        assert(now.skip(length as int) =~= Seq::<u8>::empty());
        assert(seq![(global_counter, counter, now)] + Seq::<(u16, u32, Seq<u8>)>::empty()
            =~= seq![(global_counter, counter, now)]);
    } else {
        lemma_feed_body(length, counter, global_counter, has_128b_trailer, now, later);
    }
}

proof fn lemma_feed_header(
    header: Seq<u8>,
    body: Seq<u8>,
    has_128b_trailer: bool,
    fed: int,
)
    requires
        header.len() == header_size(has_128b_trailer),
        header_accepted(header_fields(header), has_128b_trailer),
        header_fields(header).size_minus_2 + 2 - header_size(has_128b_trailer) == body.len(),
        0 <= fed < header.len(),
    ensures
        feed_bytewise(
            FrameDecoderState::Header,
            has_128b_trailer,
            header.take(fed),
            header.skip(fed) + body,
        ) == (Fed {
            state: FrameDecoderState::Header,
            rest: Seq::empty(),
            bodies: seq![
                (header_fields(header).global_counter, header_fields(header).counter, body),
            ],
            refused: false,
        }),
    decreases header.len() - fed,
{
    reveal_with_fuel(feed_bytewise, 2);
    let fields = header_fields(header);
    let incoming = header.skip(fed) + body;
    let now = header.take(fed).push(incoming[0]);
    assert(now =~= header.take(fed + 1));
    if fed + 1 < header.len() {
        assert(incoming.skip(1) =~= header.skip(fed + 1) + body);
        lemma_feed_header(header, body, has_128b_trailer, fed + 1);
    } else {
        assert(now =~= header);
        assert(incoming.skip(1) =~= body);
        assert(now.skip(header.len() as int) =~= Seq::<u8>::empty());
        if body.len() == 0 {
            assert(Seq::<u8>::empty().take(0) =~= body);
            assert(Seq::<u8>::empty().skip(0) =~= Seq::<u8>::empty());
            assert(seq![(fields.global_counter, fields.counter, body)] + Seq::<
                (u16, u32, Seq<u8>),
            >::empty() =~= seq![(fields.global_counter, fields.counter, body)]);
        } else {
            lemma_feed_body(
                body.len() as usize,
                fields.counter,
                fields.global_counter,
                has_128b_trailer,
                Seq::empty(),
                body,
            );
            assert(Seq::<u8>::empty() + body =~= body);
        }
    }
}

/// Feeding a frame to a fresh decoder one byte at a time gives exactly one
/// body, the one the frame was written with, refuses nothing, and leaves the
/// decoder waiting for a header on an empty buffer.
pub proof fn lemma_bytewise_feed_yields_one_frame(
    global_counter: u16,
    counter: u32,
    body: Seq<u8>,
    has_128b_trailer: bool,
)
    requires
        body.len() <= max_body_len(has_128b_trailer),
    ensures
        feed_bytewise(
            FrameDecoderState::Header,
            has_128b_trailer,
            Seq::empty(),
            frame_bytes(global_counter, counter, body, has_128b_trailer),
        ) == (Fed {
            state: FrameDecoderState::Header,
            rest: Seq::empty(),
            bodies: seq![(global_counter, counter, body)],
            refused: false,
        }),
{
    let header = header_bytes(global_counter, counter, body.len(), has_128b_trailer);
    lemma_header_fields(global_counter, counter, body.len(), has_128b_trailer, Seq::empty());
    assert(header + Seq::<u8>::empty() =~= header);
    lemma_feed_header(header, body, has_128b_trailer, 0);
    assert(header.take(0) =~= Seq::<u8>::empty());
    assert(header.skip(0) =~= header);
}

/// A decoder that is short of bytes takes none: called again on the same
/// buffer it finds the same, and stays where it is.
pub proof fn lemma_short_read_is_idempotent(
    state: FrameDecoderState,
    has_128b_trailer: bool,
    bytes: Seq<u8>,
)
    requires
        frame_step(state, has_128b_trailer, bytes).found == Framed::NeedMore,
    ensures
        ({
            let once = frame_step(state, has_128b_trailer, bytes);
            frame_step(once.state, has_128b_trailer, once.rest) == once
        }),
{
}

} // verus!
