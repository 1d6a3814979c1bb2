use bytes::BytesMut;
use dks3::config::Config;
use dks3::context::MatchmakingDb;
use dks3::frame::crypto::CipherMode;
use dks3::frame::Frame;
use dks3::msg::{GetServiceStatus, RequestHandshake, RequestQueryLoginServerInfo};
use dks3::net::connection::{Action, Connection};
use dks3::service::auth::{
    nonce_reply, service_status, steamid_hex, ticket_steamid, AuthAbort, AuthConnectionHandler,
    AuthEvent, AuthStage, AuthStep,
};
use dks3::service::game::GameConnectionHandler;
use dks3::service::login::{LoginConnectionHandler, LoginStep};

fn db() -> MatchmakingDb {
    MatchmakingDb::new(Config::new(
        "10.0.0.1".to_string(),
        50000,
        50050,
        50010,
        String::new(),
    ))
}

fn handshake(key: &[u8]) -> AuthEvent {
    AuthEvent::Handshake(RequestHandshake {
        aescwckey: key.to_vec(),
    })
}

fn status(steamid: &str) -> AuthEvent {
    AuthEvent::ServiceStatus(GetServiceStatus {
        steamid: steamid.to_string(),
    })
}

fn at_nonce(steamid: &str) -> AuthConnectionHandler {
    let mut handler = AuthConnectionHandler::default();
    assert!(matches!(
        handler.run(handshake(&[0x11u8; 16])),
        AuthStep::Rekey { .. }
    ));
    assert!(matches!(
        handler.run(status(steamid)),
        AuthStep::Respond(_)
    ));
    handler
}

fn ticket() -> Vec<u8> {
    let mut ticket = vec![0xeeu8; 268];
    ticket[28..36].copy_from_slice(&[0x01, 0x00, 0x00, 0x01, 0x00, 0x00, 0x00, 0x00]);
    ticket
}

#[test]
fn descriptions() {
    assert_eq!(LoginConnectionHandler::description(), "login");
    assert_eq!(AuthConnectionHandler::description(), "auth");
    assert_eq!(GameConnectionHandler::description(), "game");
    let _ = GameConnectionHandler::default();
}

#[test]
fn login_redirect() {
    let mut handler = LoginConnectionHandler::default();
    let question = RequestQueryLoginServerInfo {
        steamid: "76561198000000001".to_string(),
        versionnum: "112".to_string(),
    };
    match handler.run(&question, &db()) {
        LoginStep::Redirect {
            response,
            cooldown_ms,
        } => {
            assert_eq!(response.serverip, "10.0.0.1");
            assert_eq!(response.port, 50050);
            assert_eq!(cooldown_ms, 2000);
        }
        LoginStep::Done => panic!("the first question is answered"),
    }
    assert!(matches!(handler.run(&question, &db()), LoginStep::Done));
}

#[test]
fn login_reply_echoes_the_counters_of_the_question() {
    let mut handler = LoginConnectionHandler::default();
    let reply = handler.write_message(BytesMut::from(&b"early"[..]));
    assert_eq!((reply.global_counter, reply.counter), (0, 0));
    let body = handler.read_message(Frame::new(0x0123, 0x456789ab, BytesMut::from(&b"q"[..])));
    assert_eq!(&body[..], b"q");
    let reply = handler.write_message(BytesMut::from(&b"answer"[..]));
    assert_eq!(reply.global_counter, 0x0123);
    assert_eq!(reply.counter, 0x456789ab);
    assert_eq!(&reply.data[..], b"answer");
}

#[test]
fn auth_handshake_switch() {
    let mut handler = AuthConnectionHandler::default();
    assert_eq!(handler.expects(), AuthStage::Handshake);
    let _ = handler.read_message(Frame::new(5, 6, BytesMut::new()));
    let (cipher, sync) = match handler.run(handshake(&[0x11u8; 16])) {
        AuthStep::Rekey { cipher, sync } => (cipher, sync),
        _ => panic!("a key of sixteen bytes switches the cipher"),
    };
    assert!(matches!(cipher, CipherMode::Cwc(key) if key == [0x11u8; 16]));
    assert_eq!(&sync.data[..], &[0u8; 16]);
    assert_eq!((sync.global_counter, sync.counter), (5, 6));
    assert_eq!(handler.expects(), AuthStage::ServiceStatus);

    // carried out on a connection, the sync block is the first thing to be
    // sealed under the client's key
    let mut conn = Connection::start((
        CipherMode::aes128_cwc(&[0u8; 16]),
        CipherMode::aes128_cwc(&[1u8; 16]),
    ));
    assert!(matches!(conn.change_cipher_mode(Some(cipher)), Action::Wait));
    let mut dst = BytesMut::new();
    match conn.write_frame(Some(sync), &mut dst) {
        Action::Seal { request, .. } => {
            assert_eq!(request.key, [0x11u8; 16]);
            assert_eq!(request.plaintext, vec![0u8; 16]);
        }
        _ => panic!("CWC is sealed outside"),
    }
}

#[test]
fn auth_key_of_another_length_is_refused() {
    for len in [0usize, 15, 17, 32] {
        let mut handler = AuthConnectionHandler::default();
        assert!(matches!(
            handler.run(handshake(&vec![1u8; len])),
            AuthStep::Abort(AuthAbort::InvalidKey)
        ));
        assert_eq!(handler.expects(), AuthStage::Done);
    }
}

#[test]
fn auth_status_response() {
    let mut handler = AuthConnectionHandler::default();
    handler.run(handshake(&[0x11u8; 16]));
    match handler.run(status("76561198000000001")) {
        AuthStep::Respond(response) => {
            assert_eq!(response.id, 2);
            assert_eq!(response.steamid, "\x00");
            assert_eq!(response.unknownfield, 0);
            assert_eq!(response.versionnum, 0);
        }
        _ => panic!("the status request is answered"),
    }
    assert_eq!(handler.expects(), AuthStage::Nonce);
    let again = service_status();
    assert_eq!((again.id, again.steamid.len()), (2, 1));
}

#[test]
fn nonce_exchange() {
    let client = [0xAA, 0xBB, 0xCC, 0xDD, 0xEE, 0xFF, 0x00, 0x11];
    let mut replies = Vec::new();
    for _ in 0..2 {
        let mut handler = at_nonce("1");
        let _ = handler.read_data(Frame::new(21, 22, BytesMut::from(&client[..])));
        match handler.run(AuthEvent::Data(client.to_vec())) {
            AuthStep::Send(frame) => {
                assert_eq!(frame.data.len(), 16);
                assert_eq!(&frame.data[..8], &client[..]);
                assert_eq!((frame.global_counter, frame.counter), (21, 22));
                replies.push(frame.data[8..].to_vec());
            }
            _ => panic!("the nonce is answered"),
        }
        assert_eq!(handler.expects(), AuthStage::Ticket);
    }
    assert_ne!(replies[0], replies[1]);
}

#[test]
fn nonce_reply_is_client_then_server() {
    let server = [1u8, 2, 3, 4, 5, 6, 7, 8];
    assert_eq!(
        nonce_reply(&[0xAA, 0xBB, 0xCC, 0xDD, 0xEE, 0xFF, 0x00, 0x11], &server),
        vec![0xAA, 0xBB, 0xCC, 0xDD, 0xEE, 0xFF, 0x00, 0x11, 1, 2, 3, 4, 5, 6, 7, 8]
    );
    assert_eq!(nonce_reply(&[], &server), server.to_vec());
    assert_eq!(nonce_reply(&[9, 9, 9], &server).len(), 11);
}

#[test]
fn nonce_step_with_given_server_bytes() {
    let mut handler = at_nonce("1");
    match handler.nonce_step(&[0xAA; 8], &[0x55; 8]) {
        AuthStep::Send(frame) => {
            assert_eq!(&frame.data[..8], &[0xAA; 8]);
            assert_eq!(&frame.data[8..], &[0x55; 8]);
        }
        _ => panic!("the nonce is answered"),
    }
    assert_eq!(handler.expects(), AuthStage::Ticket);
}

#[test]
fn ticket_parse() {
    let mut handler = at_nonce("76561198000000001");
    handler.run(AuthEvent::Data(vec![0u8; 8]));
    match handler.run(AuthEvent::Data(ticket())) {
        AuthStep::Complete {
            status_steamid,
            ticket_steamid,
        } => {
            assert_eq!(status_steamid, "76561198000000001");
            assert_eq!(
                ticket_steamid,
                [0x00, 0x00, 0x00, 0x00, 0x01, 0x00, 0x00, 0x01]
            );
            assert_eq!(steamid_hex(&ticket_steamid), "0000000001000001");
        }
        _ => panic!("the ticket holds a SteamID"),
    }
    assert_eq!(handler.expects(), AuthStage::Done);
}

#[test]
fn ticket_steamid_reverses_bytes_28_to_36() {
    let mut ticket = vec![0u8; 36];
    ticket[28..36].copy_from_slice(&[1, 2, 3, 4, 5, 6, 7, 8]);
    assert_eq!(ticket_steamid(&ticket), Some([8, 7, 6, 5, 4, 3, 2, 1]));
    assert_eq!(ticket_steamid(&ticket[..35]), None);
    assert_eq!(ticket_steamid(&[]), None);
}

#[test]
fn steamid_hex_is_lowercase_two_digits_per_byte() {
    assert_eq!(
        steamid_hex(&[0x00, 0x0f, 0x10, 0xab, 0xcd, 0xef, 0x99, 0xff]),
        "000f10abcdef99ff"
    );
    assert_eq!(
        steamid_hex(&[0x01, 0x10, 0x00, 0x01, 0x04, 0x1c, 0xbf, 0x81]),
        hex::encode([0x01, 0x10, 0x00, 0x01, 0x04, 0x1c, 0xbf, 0x81])
    );
}

#[test]
fn short_ticket_is_refused() {
    let mut handler = at_nonce("1");
    handler.run(AuthEvent::Data(vec![0u8; 8]));
    assert!(matches!(
        handler.run(AuthEvent::Data(vec![0u8; 35])),
        AuthStep::Abort(AuthAbort::ShortTicket)
    ));
    assert_eq!(handler.expects(), AuthStage::Done);
}

#[test]
fn an_event_out_of_turn_is_unexpected() {
    let mut handler = AuthConnectionHandler::default();
    assert!(matches!(
        handler.run(status("1")),
        AuthStep::Abort(AuthAbort::Unexpected)
    ));
    assert_eq!(handler.expects(), AuthStage::Done);

    let mut handler = AuthConnectionHandler::default();
    handler.run(handshake(&[0x11u8; 16]));
    assert!(matches!(
        handler.run(handshake(&[0x11u8; 16])),
        AuthStep::Abort(AuthAbort::Unexpected)
    ));

    let mut handler = at_nonce("1");
    assert!(matches!(
        handler.run(AuthEvent::Closed),
        AuthStep::Abort(AuthAbort::Unexpected)
    ));
    assert!(matches!(
        handler.run(AuthEvent::Data(vec![0u8; 8])),
        AuthStep::Abort(AuthAbort::Unexpected)
    ));
}

#[test]
fn a_finished_handler_waits_for_nothing() {
    let mut handler = at_nonce("1");
    handler.run(AuthEvent::Data(vec![0u8; 8]));
    assert!(matches!(
        handler.run(AuthEvent::Data(ticket())),
        AuthStep::Complete { .. }
    ));
    assert!(matches!(
        handler.run(AuthEvent::Data(ticket())),
        AuthStep::Abort(AuthAbort::Unexpected)
    ));
}

#[test]
fn auth_replies_echo_the_counters_of_the_last_frame_read() {
    let mut handler = AuthConnectionHandler::default();
    let body = handler.read_data(Frame::new(0x0102, 0x0a0b0c0d, BytesMut::from(&b"in"[..])));
    assert_eq!(&body[..], b"in");
    let out = handler.write_data(b"out");
    assert_eq!((out.global_counter, out.counter), (0x0102, 0x0a0b0c0d));
    assert_eq!(&out.data[..], b"out");
    let out = handler.write_message(BytesMut::from(&b"msg"[..]));
    assert_eq!((out.global_counter, out.counter), (0x0102, 0x0a0b0c0d));
    let _ = handler.read_message(Frame::new(1, 2, BytesMut::new()));
    let out = handler.write_data(b"");
    assert_eq!((out.global_counter, out.counter), (1, 2));
}
