//! What holds of an encoder and a decoder taken together.

use openssl::pkey::Private;
use openssl::rsa::Rsa;
use vstd::prelude::*;

use crate::frame::crypto::{
    cwc_envelope, cwc_open_request, lemma_changed_envelope_changes_request,
    lemma_cwc_envelope_opens, rsa_open_bytes, rsa_seal_bytes, CipherMode, OpenRequestView,
    RsaPadding, SealRequestView, CWC_NONCE_LEN, CWC_OVERHEAD, CWC_TAG_LEN,
};
use crate::frame::decoder::{decoded_result, opened_result, Decoded, FrameDecoderError};
use crate::frame::encoder::{encoded_result, Encoded, FrameEncoderError};
use crate::frame::header::{
    frame_bytes, frame_step, lemma_frame_round_trip, max_body_len, max_data_len,
    FrameDecoderState, FrameStep, Framed,
};
use crate::frame::{Frame, FrameView};

verus! {

/// Under RSA, with a decoder whose key and padding open what the encoder's
/// seal: whatever an encoder writes for a frame, a decoder with the same
/// trailer setting reads back as an equal frame, and takes no byte more.
///
/// `written` is what the encoder added to its buffer and `tail` whatever
/// follows it in the decoder's.
pub proof fn lemma_rsa_codec_round_trip(
    seal_key: Rsa<Private>,
    seal_padding: RsaPadding,
    open_key: Rsa<Private>,
    open_padding: RsaPadding,
    has_128b_trailer: bool,
    frame: FrameView,
    written: Seq<u8>,
    encoded: Result<Encoded, FrameEncoderError>,
    tail: Seq<u8>,
    decoded: Result<Option<Decoded>, FrameDecoderError>,
)
    requires
        encoded_result(
            CipherMode::Rsa(seal_key, seal_padding),
            has_128b_trailer,
            frame.global_counter,
            frame.counter,
            frame.data,
            Seq::empty(),
            written,
            encoded,
        ),
        encoded is Ok,
        rsa_seal_bytes(seal_key, seal_padding, frame.data) matches Some(sealed) && rsa_open_bytes(
            open_key,
            open_padding,
            sealed,
        ) == Some(frame.data),
        ({
            let step = frame_step(FrameDecoderState::Header, has_128b_trailer, written + tail);
            step.found matches Framed::Body { global_counter, counter, body } && decoded_result(
                CipherMode::Rsa(open_key, open_padding),
                global_counter,
                counter,
                body,
                decoded,
            )
        }),
    ensures
        frame_step(FrameDecoderState::Header, has_128b_trailer, written + tail).state
            == FrameDecoderState::Header,
        frame_step(FrameDecoderState::Header, has_128b_trailer, written + tail).rest == tail,
        decoded matches Ok(Some(Decoded::Frame(read))) && read@ == frame,
{
    let sealed = rsa_seal_bytes(seal_key, seal_padding, frame.data)->0;
    assert(written =~= frame_bytes(frame.global_counter, frame.counter, sealed, has_128b_trailer));
    lemma_frame_round_trip(frame.global_counter, frame.counter, sealed, has_128b_trailer, tail);
}

/// Under CWC: the frame that carries an envelope laid out from a nonce, a
/// tag and a sealed body is read back, by a decoder with the same trailer
/// setting and key, as the request to open exactly that nonce, tag and body
/// under the counters it was written with; and the decoder takes no byte
/// more.
pub proof fn lemma_cwc_codec_round_trip(
    key: [u8; 16],
    has_128b_trailer: bool,
    global_counter: u16,
    counter: u32,
    nonce: Seq<u8>,
    tag: Seq<u8>,
    body: Seq<u8>,
    tail: Seq<u8>,
    decoded: Result<Option<Decoded>, FrameDecoderError>,
)
    requires
        nonce.len() == CWC_NONCE_LEN,
        tag.len() == CWC_TAG_LEN,
        CWC_OVERHEAD + body.len() <= max_body_len(has_128b_trailer),
        ({
            let written = frame_bytes(
                global_counter,
                counter,
                cwc_envelope(nonce, tag, body),
                has_128b_trailer,
            );
            let step = frame_step(FrameDecoderState::Header, has_128b_trailer, written + tail);
            step.found matches Framed::Body { global_counter: g, counter: c, body: b }
                && decoded_result(CipherMode::Cwc(key), g, c, b, decoded)
        }),
    ensures
        frame_step(
            FrameDecoderState::Header,
            has_128b_trailer,
            frame_bytes(global_counter, counter, cwc_envelope(nonce, tag, body), has_128b_trailer)
                + tail,
        ) == (FrameStep {
            state: FrameDecoderState::Header,
            rest: tail,
            found: Framed::Body { global_counter, counter, body: cwc_envelope(nonce, tag, body) },
        }),
        decoded matches Ok(Some(Decoded::Open { global_counter: g, counter: c, request })) && g
            == global_counter && c == counter && request@ == (OpenRequestView {
            key: key@,
            nonce,
            tag,
            body,
        }),
{
    let envelope = cwc_envelope(nonce, tag, body);
    lemma_cwc_envelope_opens(key@, nonce, tag, body);
    lemma_frame_round_trip(global_counter, counter, envelope, has_128b_trailer, tail);
}

/// Under CWC, from the frame given to an encoder to the frame that a
/// decoder hands on, with the primitive in between.
///
/// An encoder under `key` is given `frame` and asks for its plaintext to be
/// sealed under a nonce. The primitive gives `tag` and `body`, and the
/// envelope of nonce, tag and body is written as a frame. A decoder with the
/// same key and trailer setting, given that frame and whatever follows it,
/// asks the primitive to open exactly that nonce, tag and body under the
/// same key, and takes no byte more. Where the primitive then opens what it
/// sealed, the frame handed on is equal to the one given.
pub proof fn lemma_cwc_round_trip_with_primitive(
    key: [u8; 16],
    has_128b_trailer: bool,
    frame: FrameView,
    before: Seq<u8>,
    after: Seq<u8>,
    encoded: Result<Encoded, FrameEncoderError>,
    nonce: Seq<u8>,
    tag: Seq<u8>,
    body: Seq<u8>,
    tail: Seq<u8>,
    decoded: Result<Option<Decoded>, FrameDecoderError>,
    read: Result<Frame, FrameDecoderError>,
)
    requires
        frame.data.len() <= max_data_len(has_128b_trailer),
        encoded_result(
            CipherMode::Cwc(key),
            has_128b_trailer,
            frame.global_counter,
            frame.counter,
            frame.data,
            before,
            after,
            encoded,
        ),
        encoded matches Ok(Encoded::Seal { request, .. }) ==> request.nonce@ == nonce,
        tag.len() == CWC_TAG_LEN,
        CWC_OVERHEAD + body.len() <= max_body_len(has_128b_trailer),
        ({
            let written = frame_bytes(
                frame.global_counter,
                frame.counter,
                cwc_envelope(nonce, tag, body),
                has_128b_trailer,
            );
            let step = frame_step(FrameDecoderState::Header, has_128b_trailer, written + tail);
            step.found matches Framed::Body { global_counter, counter, body: sealed }
                ==> decoded_result(CipherMode::Cwc(key), global_counter, counter, sealed, decoded)
        }),
        decoded matches Ok(Some(Decoded::Open { global_counter, counter, .. })) ==> opened_result(
            global_counter,
            counter,
            Some(frame.data),
            read,
        ),
    ensures
        after == before,
        encoded matches Ok(Encoded::Seal { global_counter, counter, request }) && global_counter
            == frame.global_counter && counter == frame.counter && request@ == (SealRequestView {
            key: key@,
            nonce,
            plaintext: frame.data,
        }),
        frame_step(
            FrameDecoderState::Header,
            has_128b_trailer,
            frame_bytes(
                frame.global_counter,
                frame.counter,
                cwc_envelope(nonce, tag, body),
                has_128b_trailer,
            ) + tail,
        ).rest == tail,
        decoded matches Ok(Some(Decoded::Open { request, .. })) && request@ == (OpenRequestView {
            key: key@,
            nonce,
            tag,
            body,
        }),
        read matches Ok(handed_on) && handed_on@ == frame,
{
    let written = frame_bytes(
        frame.global_counter,
        frame.counter,
        cwc_envelope(nonce, tag, body),
        has_128b_trailer,
    );
    let step = frame_step(FrameDecoderState::Header, has_128b_trailer, written + tail);
    assert(encoded matches Ok(Encoded::Seal { request, .. }) && request.nonce@ == nonce
        && request.nonce@.len() == CWC_NONCE_LEN);
    assert(nonce.len() == CWC_NONCE_LEN);
    lemma_frame_round_trip(
        frame.global_counter,
        frame.counter,
        cwc_envelope(nonce, tag, body),
        has_128b_trailer,
        tail,
    );
    assert(step.found == Framed::Body {
        global_counter: frame.global_counter,
        counter: frame.counter,
        body: cwc_envelope(nonce, tag, body),
    });
    assert(decoded_result(
        CipherMode::Cwc(key),
        frame.global_counter,
        frame.counter,
        cwc_envelope(nonce, tag, body),
        decoded,
    ));
    lemma_cwc_codec_round_trip(
        key,
        has_128b_trailer,
        frame.global_counter,
        frame.counter,
        nonce,
        tag,
        body,
        tail,
        decoded,
    );
    assert(decoded matches Ok(Some(Decoded::Open { global_counter, counter, .. }))
        && global_counter == frame.global_counter && counter == frame.counter);
}

/// Under CWC, a frame whose envelope was changed in its tag or in its body
/// on the way.
///
/// A decoder under `key`, given the frame that carries `changed` in place
/// of the envelope of `nonce`, `tag` and `body`, asks the primitive to open
/// a request that has another tag or another body than what was sealed.
/// Where the primitive then refuses it, the decoder hands on no frame: the
/// result is `InvalidCiphertext`.
pub proof fn lemma_changed_frame_is_refused_with_primitive(
    key: [u8; 16],
    has_128b_trailer: bool,
    global_counter: u16,
    counter: u32,
    nonce: Seq<u8>,
    tag: Seq<u8>,
    body: Seq<u8>,
    changed: Seq<u8>,
    at: int,
    tail: Seq<u8>,
    decoded: Result<Option<Decoded>, FrameDecoderError>,
    read: Result<Frame, FrameDecoderError>,
)
    requires
        nonce.len() == CWC_NONCE_LEN,
        tag.len() == CWC_TAG_LEN,
        CWC_OVERHEAD + body.len() <= max_body_len(has_128b_trailer),
        changed.len() == cwc_envelope(nonce, tag, body).len(),
        CWC_NONCE_LEN <= at < changed.len(),
        changed[at] != cwc_envelope(nonce, tag, body)[at],
        ({
            let written = frame_bytes(global_counter, counter, changed, has_128b_trailer);
            let step = frame_step(FrameDecoderState::Header, has_128b_trailer, written + tail);
            step.found matches Framed::Body { global_counter: g, counter: c, body: sealed }
                ==> decoded_result(CipherMode::Cwc(key), g, c, sealed, decoded)
        }),
        decoded matches Ok(Some(Decoded::Open { global_counter: g, counter: c, .. }))
            ==> opened_result(g, c, None, read),
    ensures
        decoded matches Ok(Some(Decoded::Open { global_counter: g, counter: c, request })) && g
            == global_counter && c == counter && request@.key == key@ && (request@.tag != tag
            || request@.body != body),
        read matches Err(FrameDecoderError::InvalidCiphertext),
{
    let envelope = cwc_envelope(nonce, tag, body);
    lemma_cwc_envelope_opens(key@, nonce, tag, body);
    lemma_changed_envelope_changes_request(key@, envelope, changed, at);
    lemma_frame_round_trip(global_counter, counter, changed, has_128b_trailer, tail);
}

} // verus!
