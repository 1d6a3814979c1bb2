use bytes::BytesMut;
use dks3::frame::crypto::CipherMode;
use dks3::frame::encoder::FrameEncoder;
use dks3::frame::Frame;
use dks3::net::connection::{Action, Connection, Reason, UdpConnection};
use dks3::net::message::{read_data, read_message, write_data, write_message};
use openssl::rsa::{Padding, Rsa};

fn key_pair() -> (Rsa<openssl::pkey::Private>, Vec<u8>) {
    let key = Rsa::generate(2048).unwrap();
    let pem = key.private_key_to_pem().unwrap();
    (key, pem)
}

fn rsa_connection(pem: &[u8]) -> Connection {
    Connection::start((
        CipherMode::rsa_pkcs1_oeap(pem).unwrap(),
        CipherMode::rsa_x931(pem).unwrap(),
    ))
}

fn cwc_connection() -> Connection {
    Connection::start((
        CipherMode::aes128_cwc(&[0xa1u8; 16]),
        CipherMode::aes128_cwc(&[0xb2u8; 16]),
    ))
}

fn client_frame(global_counter: u16, counter: u32, sealed: &[u8]) -> BytesMut {
    // what a client puts on the wire: no trailer in this direction
    let mut wire = BytesMut::new();
    FrameEncoder::new(CipherMode::aes128_cwc(&[0u8; 16]), false)
        .encode_sealed(global_counter, counter, sealed, &mut wire)
        .unwrap();
    wire
}

fn frame(data: &[u8]) -> Frame {
    Frame::new(3, 4, BytesMut::from(data))
}

#[test]
fn a_fresh_connection_waits_on_an_empty_buffer() {
    let mut conn = cwc_connection();
    assert!(!conn.is_ended());
    let mut src = BytesMut::new();
    assert!(matches!(conn.read_frame(&mut src), Action::Wait));
    assert!(!conn.is_ended());
}

#[test]
fn inbound_frames_carry_no_trailer_and_outbound_frames_carry_one() {
    let mut conn = cwc_connection();
    let mut src = client_frame(1, 2, &[7u8; 30]);
    assert_eq!(src.len(), 26 + 30);
    match conn.read_frame(&mut src) {
        Action::Open {
            global_counter,
            counter,
            request,
        } => {
            assert_eq!((global_counter, counter), (1, 2));
            assert_eq!(request.key, [0xa1u8; 16]);
            assert_eq!(request.body.len(), 3);
        }
        _ => panic!("a whole frame was there"),
    }
    let mut dst = BytesMut::new();
    let request = match conn.write_frame(Some(frame(b"abc")), &mut dst) {
        Action::Seal {
            global_counter,
            counter,
            request,
        } => {
            assert_eq!((global_counter, counter), (3, 4));
            assert_eq!(request.key, [0xb2u8; 16]);
            assert_eq!(request.plaintext, b"abc");
            request
        }
        _ => panic!("CWC is sealed outside"),
    };
    assert!(dst.is_empty());
    assert!(matches!(
        conn.sealed(3, 4, &request, Some((&[0xcdu8; 16], b"xyz")), &mut dst),
        Action::Flush
    ));
    assert_eq!(dst.len(), 42 + 27 + 3);
    assert_eq!(&dst[26..42], &[0u8; 16]);
    assert_eq!(&dst[42..53], &request.nonce[..]);
    assert_eq!(&dst[53..69], &[0xcdu8; 16]);
    assert_eq!(&dst[69..], b"xyz");
}

#[test]
fn opened_body_is_delivered_and_a_refused_tag_ends_the_task() {
    let mut conn = cwc_connection();
    match conn.opened(5, 6, Some(b"plain".to_vec())) {
        Action::Deliver(frame) => {
            assert_eq!((frame.global_counter, frame.counter), (5, 6));
            assert_eq!(&frame.data[..], b"plain");
        }
        _ => panic!("an opened body is a frame"),
    }
    assert!(!conn.is_ended());
    assert!(matches!(
        conn.opened(5, 7, None),
        Action::Terminate(Reason::InvalidCiphertext)
    ));
    assert!(conn.is_ended());
}

#[test]
fn cipher_switch_atomicity() {
    let (key, pem) = key_pair();
    let mut conn = rsa_connection(&pem);
    let mut dst = BytesMut::new();
    // before the switch both directions run under RSA
    assert!(matches!(
        conn.write_frame(Some(frame(b"before")), &mut dst),
        Action::Flush
    ));
    let mut sealed = vec![0u8; 256];
    key.public_encrypt(b"in", &mut sealed, Padding::PKCS1_OAEP)
        .unwrap();
    let mut src = client_frame(1, 1, &sealed);
    assert!(matches!(conn.read_frame(&mut src), Action::Deliver(_)));
    // a header has arrived and its body has not when the cipher changes
    let wire = client_frame(9, 9, &[0x44u8; 40]);
    let mut src = BytesMut::from(&wire[..30]);
    assert!(matches!(conn.read_frame(&mut src), Action::Wait));
    assert!(matches!(
        conn.change_cipher_mode(Some(CipherMode::aes128_cwc(&[0x11u8; 16]))),
        Action::Wait
    ));
    // the very next frame out is sealed under the new cipher
    dst.clear();
    match conn.write_frame(Some(frame(b"after")), &mut dst) {
        Action::Seal { request, .. } => assert_eq!(request.key, [0x11u8; 16]),
        _ => panic!("the outbound cipher has changed"),
    }
    // and the very next body in is opened under it
    src.extend_from_slice(&wire[30..]);
    match conn.read_frame(&mut src) {
        Action::Open {
            global_counter,
            request,
            ..
        } => {
            assert_eq!(global_counter, 9);
            assert_eq!(request.key, [0x11u8; 16]);
        }
        _ => panic!("the inbound cipher has changed"),
    }
    assert!(!conn.is_ended());
}

#[test]
fn a_closed_cipher_channel_ends_the_task() {
    let mut conn = cwc_connection();
    assert!(matches!(
        conn.change_cipher_mode(None),
        Action::Terminate(Reason::CipherChannelClosed)
    ));
    assert!(conn.is_ended());
}

#[test]
fn a_closed_outbound_queue_ends_the_task() {
    let mut conn = cwc_connection();
    let mut dst = BytesMut::new();
    assert!(matches!(
        conn.write_frame(None, &mut dst),
        Action::Terminate(Reason::OutboundQueueClosed)
    ));
    assert!(conn.is_ended());
}

#[test]
fn the_close_signal_ends_the_task() {
    let mut conn = cwc_connection();
    assert!(matches!(
        conn.close(),
        Action::Terminate(Reason::CloseSignal)
    ));
    assert!(conn.is_ended());
}

#[test]
fn a_transport_failure_ends_the_task() {
    let mut conn = cwc_connection();
    assert!(matches!(
        conn.transport_failed(),
        Action::Terminate(Reason::Io)
    ));
    assert!(conn.is_ended());
}

#[test]
fn once_ended_every_event_gives_the_first_reason() {
    let mut conn = cwc_connection();
    assert!(matches!(
        conn.close(),
        Action::Terminate(Reason::CloseSignal)
    ));
    let mut src = client_frame(1, 2, &[7u8; 30]);
    let len = src.len();
    let mut dst = BytesMut::new();
    assert!(matches!(
        conn.read_frame(&mut src),
        Action::Terminate(Reason::CloseSignal)
    ));
    assert_eq!(src.len(), len);
    assert!(matches!(
        conn.write_frame(Some(frame(b"x")), &mut dst),
        Action::Terminate(Reason::CloseSignal)
    ));
    assert!(dst.is_empty());
    assert!(matches!(
        conn.change_cipher_mode(Some(CipherMode::aes128_cwc(&[0u8; 16]))),
        Action::Terminate(Reason::CloseSignal)
    ));
    assert!(matches!(
        conn.opened(0, 0, Some(Vec::new())),
        Action::Terminate(Reason::CloseSignal)
    ));
    assert!(matches!(
        conn.transport_failed(),
        Action::Terminate(Reason::CloseSignal)
    ));
    assert!(matches!(
        conn.end_of_stream(&src),
        Action::Terminate(Reason::CloseSignal)
    ));
    assert!(matches!(
        conn.change_cipher_mode(None),
        Action::Terminate(Reason::CloseSignal)
    ));
}

#[test]
fn a_refused_header_ends_the_task() {
    let mut conn = cwc_connection();
    let mut src = client_frame(1, 2, &[7u8; 30]);
    src[9] ^= 0x40;
    assert!(matches!(
        conn.read_frame(&mut src),
        Action::Terminate(Reason::InvalidSize)
    ));
    assert!(conn.is_ended());
}

#[test]
fn a_body_that_does_not_open_under_rsa_ends_the_task() {
    let (_, pem) = key_pair();
    let mut conn = rsa_connection(&pem);
    let mut src = client_frame(1, 2, &[7u8; 256]);
    assert!(matches!(
        conn.read_frame(&mut src),
        Action::Terminate(Reason::InvalidCiphertext)
    ));
    assert!(conn.is_ended());
}

#[test]
fn end_of_stream_between_frames_and_within_one() {
    let mut conn = cwc_connection();
    let src = BytesMut::new();
    assert!(matches!(
        conn.end_of_stream(&src),
        Action::Terminate(Reason::EndOfStream)
    ));

    let mut conn = cwc_connection();
    let src = BytesMut::from(&[0u8; 10][..]);
    assert!(matches!(
        conn.end_of_stream(&src),
        Action::Terminate(Reason::TruncatedStream)
    ));

    let mut conn = cwc_connection();
    let wire = client_frame(1, 2, &[7u8; 30]);
    let mut src = BytesMut::from(&wire[..26]);
    assert!(matches!(conn.read_frame(&mut src), Action::Wait));
    assert!(src.is_empty());
    assert!(matches!(
        conn.end_of_stream(&src),
        Action::Terminate(Reason::TruncatedStream)
    ));
}

#[test]
fn connection_stays_usable_after_an_oversize_frame() {
    let mut conn = cwc_connection();
    let mut dst = BytesMut::new();
    let big = Frame::new(1, 1, BytesMut::from(&vec![0u8; 70_000][..]));
    assert!(matches!(
        conn.write_frame(Some(big), &mut dst),
        Action::Refused
    ));
    assert!(dst.is_empty());
    assert!(!conn.is_ended());
    assert!(matches!(
        conn.write_frame(Some(frame(b"fine")), &mut dst),
        Action::Seal { .. }
    ));
    let mut src = client_frame(1, 2, &[7u8; 30]);
    assert!(matches!(conn.read_frame(&mut src), Action::Open { .. }));
}

#[test]
fn a_sealed_body_too_long_for_a_frame_is_dropped() {
    let mut conn = cwc_connection();
    let mut dst = BytesMut::new();
    let request = match conn.write_frame(Some(frame(b"x")), &mut dst) {
        Action::Seal { request, .. } => request,
        _ => panic!("CWC is sealed outside"),
    };
    let max = 65537 - 42 - 27;
    assert!(matches!(
        conn.sealed(1, 1, &request, Some((&[0u8; 16], &vec![0u8; max + 1])), &mut dst),
        Action::Refused
    ));
    assert!(dst.is_empty());
    assert!(matches!(
        conn.sealed(1, 1, &request, Some((&[0u8; 16], &vec![0u8; max])), &mut dst),
        Action::Flush
    ));
    assert_eq!(dst.len(), 65537);
    assert!(!conn.is_ended());
}

#[test]
fn a_seal_that_failed_ends_the_task() {
    let mut conn = cwc_connection();
    let mut dst = BytesMut::new();
    let request = match conn.write_frame(Some(frame(b"x")), &mut dst) {
        Action::Seal { request, .. } => request,
        _ => panic!("CWC is sealed outside"),
    };
    assert!(matches!(
        conn.sealed(3, 4, &request, None, &mut dst),
        Action::Terminate(Reason::InvalidCiphertext)
    ));
    assert!(dst.is_empty());
    assert!(conn.is_ended());
}

#[test]
fn a_frame_that_does_not_seal_under_rsa_ends_the_task() {
    let (_, pem) = key_pair();
    let mut conn = rsa_connection(&pem);
    let mut dst = BytesMut::new();
    assert!(matches!(
        conn.write_frame(Some(frame(&[1u8; 1000])), &mut dst),
        Action::Terminate(Reason::InvalidCiphertext)
    ));
    assert!(dst.is_empty());
    assert!(conn.is_ended());
}

#[test]
fn frames_keep_wire_order_and_counters() {
    let mut conn = cwc_connection();
    let mut src = client_frame(1, 100, &[7u8; 27]);
    src.extend_from_slice(&client_frame(2, 101, &[8u8; 28]));
    src.extend_from_slice(&client_frame(3, 102, &[9u8; 29]));
    let mut seen = Vec::new();
    loop {
        match conn.read_frame(&mut src) {
            Action::Open {
                global_counter,
                counter,
                request,
            } => seen.push((global_counter, counter, request.body.len())),
            Action::Wait => break,
            _ => panic!("three whole frames were there"),
        }
    }
    assert_eq!(seen, vec![(1, 100, 0), (2, 101, 1), (3, 102, 2)]);
}

#[test]
fn message_helpers_carry_the_counters() {
    let frame = write_data(b"raw", 0x1122, 0x33445566);
    assert_eq!(frame.global_counter, 0x1122);
    assert_eq!(frame.counter, 0x33445566);
    assert_eq!(&frame.data[..], b"raw");
    let (data, global_counter, counter) = read_data(frame);
    assert_eq!(&data[..], b"raw");
    assert_eq!((global_counter, counter), (0x1122, 0x33445566));

    let frame = write_message(BytesMut::from(&b"\x0a\x03abc"[..]), 7, 8);
    let (message, global_counter, counter) = read_message(frame);
    assert_eq!(&message[..], b"\x0a\x03abc");
    assert_eq!((global_counter, counter), (7, 8));
}

#[test]
fn session_keys_tell_peers_apart() {
    let a = UdpConnection::new(0x0a000001, 50010);
    assert_eq!(a.key(), 0x0a00_0001_c35a);
    assert_eq!(UdpConnection::new(0, 0).key(), 0);
    assert_eq!(
        UdpConnection::new(u32::MAX, u16::MAX).key(),
        0xffff_ffff_ffff
    );
    assert_ne!(
        UdpConnection::new(1, 0).key(),
        UdpConnection::new(0, 1).key()
    );
    assert_ne!(a.key(), UdpConnection::new(0x0a000001, 50011).key());
}

#[test]
fn sealed_frames_of_up_to_65537_bytes_are_sent() {
    // on the outbound side header and trailer take 42 bytes, the envelope 27
    for len in [65465usize, 65466, 65467, 65468] {
        let mut conn = cwc_connection();
        let mut dst = BytesMut::new();
        let plain = vec![0x5au8; len];
        let request = match conn.write_frame(Some(frame(&plain)), &mut dst) {
            Action::Seal { request, .. } => request,
            _ => panic!("a plaintext of this length is taken"),
        };
        assert!(matches!(
            conn.sealed(3, 4, &request, Some((&[1u8; 16], &plain)), &mut dst),
            Action::Flush
        ));
        assert_eq!(dst.len(), 42 + 27 + len);
        let size = (dst.len() - 2) as u16;
        assert_eq!(&dst[..2], &size.to_be_bytes());
        assert!(!conn.is_ended());
    }
    // one byte more is a legal plaintext whose sealed frame does not fit
    let mut conn = cwc_connection();
    let mut dst = BytesMut::new();
    let plain = vec![0x5au8; 65469];
    let request = match conn.write_frame(Some(frame(&plain)), &mut dst) {
        Action::Seal { request, .. } => request,
        _ => panic!("a plaintext of this length is taken"),
    };
    assert!(matches!(
        conn.sealed(3, 4, &request, Some((&[1u8; 16], &plain)), &mut dst),
        Action::Refused
    ));
    assert!(dst.is_empty());
    assert!(!conn.is_ended());
}
