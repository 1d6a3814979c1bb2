use dks3::config::Config;
use dks3::frame::crypto::CipherMode;
use dks3::server::login_client::{
    LoginClient, CLIENT_TO_SERVER_HEADER, SERVER_TO_CLIENT_HEADER,
};
use dks3::server::RsaManager;
use openssl::rsa::{Padding, Rsa};

fn header(total: u32, counter: u32) -> Vec<u8> {
    let mut h = Vec::new();
    h.extend_from_slice(&((total - 2) as u16).to_be_bytes());
    h.extend_from_slice(&[0x00, 0x07]);
    h.extend_from_slice(&[0x00, 0x00]);
    h.extend_from_slice(&(total - 14).to_be_bytes());
    h.extend_from_slice(&(total - 14).to_be_bytes());
    h.extend_from_slice(&12u32.to_be_bytes());
    h.extend_from_slice(&5u32.to_be_bytes());
    h.extend_from_slice(&counter.to_le_bytes());
    h
}

fn client() -> LoginClient {
    LoginClient::new("203.0.113.9:51234".to_string())
}

#[test]
fn header_sizes() {
    assert_eq!(CLIENT_TO_SERVER_HEADER, 26);
    assert_eq!(SERVER_TO_CLIENT_HEADER, 0);
}

#[test]
fn a_new_client_is_unknown() {
    let client = client();
    let info = client.client_info();
    assert_eq!(info.peer_addr, "203.0.113.9:51234");
    assert_eq!(info.steam_id_string, "");
    assert_eq!(info.client_game_version, 0);
    assert_eq!(info.packet_counter, 0);
}

#[test]
fn a_well_formed_header_is_accepted_and_its_counter_kept() {
    let mut client = client();
    assert_eq!(client.process_header(&header(26 + 256, 7), 26, 256), Ok(()));
    assert_eq!(client.client_info().packet_counter, 7);
    // the same counter again is not below the last one
    assert_eq!(client.process_header(&header(26 + 256, 7), 26, 256), Ok(()));
    assert_eq!(client.process_header(&header(26 + 10, 8), 26, 10), Ok(()));
    assert_eq!(client.client_info().packet_counter, 8);
}

#[test]
fn a_counter_that_goes_back_is_refused() {
    let mut client = client();
    assert_eq!(client.process_header(&header(30, 9), 26, 4), Ok(()));
    assert_eq!(client.process_header(&header(30, 8), 26, 4), Err(()));
    assert_eq!(client.client_info().packet_counter, 9);
}

#[test]
fn a_short_header_is_refused() {
    let mut client = client();
    let h = header(30, 1);
    assert_eq!(client.process_header(&h, 25, 5), Err(()));
    assert_eq!(client.process_header(&h[..20], 20, 10), Err(()));
    assert_eq!(client.client_info().packet_counter, 0);
}

#[test]
fn each_checked_field_is_checked() {
    let good = header(26 + 100, 1);
    // first length, zero field, second and third length, the mark
    for at in [0usize, 1, 4, 5, 6, 9, 10, 13, 14, 17] {
        let mut h = good.clone();
        h[at] ^= 0x01;
        let mut client = client();
        assert_eq!(client.process_header(&h, 26, 100), Err(()));
        assert_eq!(client.client_info().packet_counter, 0);
    }
    // neither the global counter nor the field before the session counter
    for at in [2usize, 3, 18, 21] {
        let mut h = good.clone();
        h[at] ^= 0x01;
        let mut client = client();
        assert_eq!(client.process_header(&h, 26, 100), Ok(()));
    }
}

#[test]
fn the_lengths_must_be_those_of_what_was_read() {
    let mut client = client();
    assert_eq!(client.process_header(&header(126, 1), 26, 99), Err(()));
    assert_eq!(client.process_header(&header(126, 1), 26, 101), Err(()));
    assert_eq!(client.process_header(&header(126, 1), 26, 100), Ok(()));
}

#[test]
fn the_first_length_is_compared_in_its_low_sixteen_bits() {
    // a packet of 65538 + 26 bytes: size - 2 does not fit the first field
    let total: u32 = 26 + 65538;
    let mut h = header(total, 3);
    assert_eq!(&h[0..2], &(((total - 2) % 65536) as u16).to_be_bytes());
    let mut client = client();
    assert_eq!(client.process_header(&h, 26, 65538), Ok(()));
    h[1] ^= 1;
    assert_eq!(client.process_header(&h, 26, 65538), Err(()));
}

#[test]
fn rsa_manager_seals_x931_and_opens_oaep() {
    let key = Rsa::generate(2048).unwrap();
    let pem = String::from_utf8(key.private_key_to_pem().unwrap()).unwrap();
    let config = Config::new("127.0.0.1".to_string(), 1, 2, 3, pem);
    let manager = RsaManager::new(&config).unwrap();

    let sealed = manager.rsa_encrypt(b"server info").unwrap();
    assert_eq!(sealed.len(), 256);
    let mut out = vec![0u8; 256];
    let n = key
        .public_decrypt(&sealed, &mut out, Padding::from_raw(5))
        .unwrap();
    assert_eq!(&out[..n], b"server info");

    let mut from_client = vec![0u8; 256];
    key.public_encrypt(b"query", &mut from_client, Padding::PKCS1_OAEP)
        .unwrap();
    assert_eq!(&manager.rsa_decrypt(&from_client).unwrap()[..], b"query");
    assert!(manager.rsa_decrypt(&[3u8; 256]).is_none());
    assert!(manager.rsa_encrypt(&[3u8; 500]).is_none());
}

#[test]
fn rsa_manager_needs_a_key_that_parses() {
    let config = Config::new("127.0.0.1".to_string(), 1, 2, 3, "garbage".to_string());
    assert!(RsaManager::new(&config).is_none());
}

#[test]
fn rsa_manager_from_modes_takes_x931_to_seal_and_oaep_to_open() {
    let key = Rsa::generate(2048).unwrap();
    let pem = key.private_key_to_pem().unwrap();
    let x931 = || CipherMode::rsa_x931(&pem);
    let oaep = || CipherMode::rsa_pkcs1_oeap(&pem);

    let manager = RsaManager::from_modes(x931(), oaep()).unwrap();
    let sealed = manager.rsa_encrypt(b"abc").unwrap();
    let mut out = vec![0u8; 256];
    let n = key
        .public_decrypt(&sealed, &mut out, Padding::from_raw(5))
        .unwrap();
    assert_eq!(&out[..n], b"abc");
    let mut from_client = vec![0u8; 256];
    key.public_encrypt(b"def", &mut from_client, Padding::PKCS1_OAEP)
        .unwrap();
    assert_eq!(&manager.rsa_decrypt(&from_client).unwrap()[..], b"def");

    assert!(RsaManager::from_modes(None, None).is_none());
    assert!(RsaManager::from_modes(x931(), None).is_none());
    assert!(RsaManager::from_modes(None, oaep()).is_none());
    assert!(RsaManager::from_modes(oaep(), x931()).is_none());
    assert!(RsaManager::from_modes(x931(), x931()).is_none());
    assert!(RsaManager::from_modes(oaep(), oaep()).is_none());
    assert!(
        RsaManager::from_modes(Some(CipherMode::aes128_cwc(&[0u8; 16])), oaep()).is_none()
    );
    assert!(
        RsaManager::from_modes(x931(), Some(CipherMode::aes128_cwc(&[0u8; 16]))).is_none()
    );
}
