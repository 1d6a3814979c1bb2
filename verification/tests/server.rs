use dks3::config::Config;
use dks3::context::MatchmakingDb;
use dks3::frame::crypto::{CipherMode, RsaPadding};
use dks3::net::server::{AcceptStep, TcpServer, UdpServer};
use dks3::service::auth::create_auth_service;
use dks3::service::game::create_game_service;
use dks3::service::login::create_login_service;

fn ciphers() -> (CipherMode, CipherMode) {
    (
        CipherMode::aes128_cwc(&[1u8; 16]),
        CipherMode::aes128_cwc(&[2u8; 16]),
    )
}

fn server() -> TcpServer<u32> {
    TcpServer::new(("127.0.0.1".to_string(), 50050), ciphers(), 77)
}

fn settings(key: &str) -> Config {
    Config::new("10.0.0.1".to_string(), 50000, 50050, 50010, key.to_string())
}

fn pem() -> String {
    let key = openssl::rsa::Rsa::generate(2048).unwrap();
    String::from_utf8(key.private_key_to_pem().unwrap()).unwrap()
}

#[test]
fn accept_backoff() {
    let mut server = server();
    let mut slept = 0u64;
    match server.accept(false) {
        AcceptStep::RetryAfter(ms) => {
            assert_eq!(ms, 500);
            slept += ms;
        }
        _ => panic!("the first failure is slept off"),
    }
    match server.accept(false) {
        AcceptStep::RetryAfter(ms) => {
            assert_eq!(ms, 1000);
            slept += ms;
        }
        _ => panic!("the second failure is slept off"),
    }
    assert!(matches!(server.accept(true), AcceptStep::Serve(_)));
    assert_eq!(slept, 1500);
}

#[test]
fn third_failure_in_a_row_is_fatal() {
    let mut server = server();
    assert!(matches!(server.accept(false), AcceptStep::RetryAfter(500)));
    assert!(matches!(server.accept(false), AcceptStep::RetryAfter(1000)));
    assert!(matches!(server.accept(false), AcceptStep::Fatal));
    assert!(matches!(server.accept(false), AcceptStep::Fatal));
}

#[test]
fn success_starts_the_count_over() {
    let mut server = server();
    assert!(matches!(server.accept(false), AcceptStep::RetryAfter(500)));
    assert!(matches!(server.accept(true), AcceptStep::Serve(_)));
    assert!(matches!(server.accept(false), AcceptStep::RetryAfter(500)));
    assert!(matches!(server.accept(false), AcceptStep::RetryAfter(1000)));
    assert!(matches!(server.accept(true), AcceptStep::Serve(_)));
    assert!(matches!(server.accept(true), AcceptStep::Serve(_)));
    assert!(matches!(server.accept(false), AcceptStep::RetryAfter(500)));
}

#[test]
fn accepted_connection_starts_under_the_pair() {
    let mut server = server();
    match server.accept(true) {
        AcceptStep::Serve(mut connection) => {
            assert!(!connection.is_ended());
            let mut dst = bytes::BytesMut::new();
            let frame = dks3::frame::Frame::new(0, 0, bytes::BytesMut::from(&b"x"[..]));
            match connection.write_frame(Some(frame), &mut dst) {
                dks3::net::connection::Action::Seal { request, .. } => {
                    assert_eq!(request.key, [2u8; 16])
                }
                _ => panic!("the outbound cipher is the second of the pair"),
            }
        }
        _ => panic!("an accepted stream is served"),
    }
}

#[test]
fn server_keeps_address_and_context() {
    let server = server();
    assert_eq!(server.address(), &("127.0.0.1".to_string(), 50050));
    assert_eq!(server.handler_context(), 77);
    let udp = UdpServer::new(("0.0.0.0".to_string(), 50010), 5u8);
    assert_eq!(udp.address(), &("0.0.0.0".to_string(), 50010));
    assert_eq!(udp.handler_context(), 5);
}

#[test]
fn services_bind_their_own_ports() {
    let db = MatchmakingDb::new(settings(&pem()));
    let login = create_login_service(&db).unwrap();
    assert_eq!(login.address(), &("10.0.0.1".to_string(), 50000));
    let auth = create_auth_service(&db).unwrap();
    assert_eq!(auth.address(), &("10.0.0.1".to_string(), 50050));
    let game = create_game_service(&db);
    assert_eq!(game.address(), &("10.0.0.1".to_string(), 50010));
    assert_eq!(login.handler_context().config().get_auth_port(), 50050);
    assert_eq!(game.handler_context().config().get_server_ip(), "10.0.0.1");
}

#[test]
fn services_open_under_oaep_and_seal_under_x931() {
    let db = MatchmakingDb::new(settings(&pem()));
    for mut server in [
        create_login_service(&db).unwrap(),
        create_auth_service(&db).unwrap(),
    ] {
        match server.accept(true) {
            AcceptStep::Serve(mut connection) => {
                // what goes out is sealed here, as RSA is
                let mut dst = bytes::BytesMut::new();
                let frame = dks3::frame::Frame::new(0, 0, bytes::BytesMut::from(&b"x"[..]));
                assert!(matches!(
                    connection.write_frame(Some(frame), &mut dst),
                    dks3::net::connection::Action::Flush
                ));
                assert_eq!(dst.len(), 42 + 256);
            }
            _ => panic!("an accepted stream is served"),
        }
    }
    let key = pem();
    assert!(matches!(
        CipherMode::rsa_pkcs1_oeap(key.as_bytes()),
        Some(CipherMode::Rsa(_, RsaPadding::Pkcs1Oaep))
    ));
}

#[test]
fn services_need_a_key_that_parses() {
    let db = MatchmakingDb::new(settings("no key"));
    assert!(create_login_service(&db).is_none());
    assert!(create_auth_service(&db).is_none());
}

#[test]
fn tcp_service_needs_a_mode_for_each_direction() {
    let db = MatchmakingDb::new(settings("unused"));
    let mode = |b: u8| Some(CipherMode::aes128_cwc(&[b; 16]));
    assert!(dks3::service::tcp_service(&db, 1234, None, None).is_none());
    assert!(dks3::service::tcp_service(&db, 1234, mode(1), None).is_none());
    assert!(dks3::service::tcp_service(&db, 1234, None, mode(2)).is_none());
    let mut server = dks3::service::tcp_service(&db, 1234, mode(1), mode(2)).unwrap();
    assert_eq!(server.address(), &("10.0.0.1".to_string(), 1234));
    assert_eq!(server.handler_context().config().get_game_port(), 50010);
    match server.accept(true) {
        AcceptStep::Serve(mut connection) => {
            let mut dst = bytes::BytesMut::new();
            let frame = dks3::frame::Frame::new(0, 0, bytes::BytesMut::from(&b"x"[..]));
            match connection.write_frame(Some(frame), &mut dst) {
                dks3::net::connection::Action::Seal { request, .. } => {
                    assert_eq!(request.key, [2u8; 16])
                }
                _ => panic!("the second mode seals"),
            }
            let mut src = bytes::BytesMut::new();
            dks3::frame::FrameEncoder::new(CipherMode::aes128_cwc(&[0u8; 16]), false)
                .encode_sealed(1, 1, &[0u8; 27], &mut src)
                .unwrap();
            match connection.read_frame(&mut src) {
                dks3::net::connection::Action::Open { request, .. } => {
                    assert_eq!(request.key, [1u8; 16])
                }
                _ => panic!("the first mode opens"),
            }
        }
        _ => panic!("an accepted stream is served"),
    }
}

#[test]
fn accepted_connection_waits_for_a_header() {
    let mut server = server();
    match server.accept(true) {
        AcceptStep::Serve(mut connection) => {
            let mut src = bytes::BytesMut::new();
            assert!(matches!(
                connection.read_frame(&mut src),
                dks3::net::connection::Action::Wait
            ));
            // between two frames the end of the stream is a clean one
            assert!(matches!(
                connection.end_of_stream(&src),
                dks3::net::connection::Action::Terminate(
                    dks3::net::connection::Reason::EndOfStream
                )
            ));
        }
        _ => panic!("an accepted stream is served"),
    }
}
