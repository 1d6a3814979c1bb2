//! What a login server keeps of one client, and the checks it makes on each
//! header that the client sends.

use vstd::prelude::*;

use crate::wire::{be16_at, be32_at, le32_at};

verus! {

// Packet header sizes in bytes
pub const CLIENT_TO_SERVER_HEADER: u8 = 26;

pub const SERVER_TO_CLIENT_HEADER: u8 = 0;

/// The value of the fourth field of a client's header.
pub const CLIENT_HEADER_MARK: u32 = 12;

pub struct LoginClientInfo {
    /// The peer's address, as event records show it.
    pub peer_addr: String,
    pub steam_id_string: String,
    pub client_game_version: u64,
    /// The session counter of the last header that was accepted.
    pub packet_counter: u32,
}

/// One client of a login server.
pub struct LoginClient {
    client_info: LoginClientInfo,
}

/// Whether a login server accepts the header at the front of `header`, for
/// a packet of `header_length + payload_length` bytes from a client whose
/// last session counter was `last_counter`:
///
/// - the header is whole;
/// - the first field is the packet's size minus 2, in its low sixteen bits;
/// - the third field is zero;
/// - the two fields that follow are the packet's size minus 14;
/// - the field after them is 12;
/// - the session counter is not below the last one.
pub open spec fn header_checks(
    header: Seq<u8>,
    header_length: int,
    payload_length: int,
    last_counter: u32,
) -> bool {
    let total = header_length + payload_length;
    &&& header_length >= CLIENT_TO_SERVER_HEADER
    &&& be16_at(header, 0) == (total - 2) % 0x1_0000
    &&& be16_at(header, 4) == 0
    &&& be32_at(header, 6) == total - 14
    &&& be32_at(header, 10) == total - 14
    &&& be32_at(header, 14) == CLIENT_HEADER_MARK
    &&& le32_at(header, 22) >= last_counter
}

fn read_be16(data: &[u8], at: usize) -> (v: u16)
    requires
        at + 2 <= data.len(),
    ensures
        v == be16_at(data@, at as int),
{
    data[at] as u16 * 256 + data[at + 1] as u16
}

fn read_be32(data: &[u8], at: usize) -> (v: u32)
    requires
        at + 4 <= data.len(),
    ensures
        v == be32_at(data@, at as int),
{
    data[at] as u32 * 0x100_0000 + data[at + 1] as u32 * 0x1_0000 + data[at + 2] as u32 * 0x100
        + data[at + 3] as u32
}

fn read_le32(data: &[u8], at: usize) -> (v: u32)
    requires
        at + 4 <= data.len(),
    ensures
        v == le32_at(data@, at as int),
{
    data[at + 3] as u32 * 0x100_0000 + data[at + 2] as u32 * 0x1_0000 + data[at + 1] as u32 * 0x100
        + data[at] as u32
}

impl LoginClient {
    /// What is kept of the client.
    pub closed spec fn info(&self) -> LoginClientInfo {
        self.client_info
    }

    /// A client at `peer_addr` of whom nothing is known yet.
    pub fn new(peer_addr: String) -> (client: LoginClient)
        ensures
            client.info().peer_addr == peer_addr,
            client.info().steam_id_string@ == Seq::<char>::empty(),
            client.info().client_game_version == 0,
            client.info().packet_counter == 0,
    {
        let client_info = LoginClientInfo {
            peer_addr,
            steam_id_string: String::new(),
            client_game_version: 0,
            packet_counter: 0,
        };
        LoginClient { client_info }
    }

    /// What is kept of the client.
    pub fn client_info(&self) -> (info: &LoginClientInfo)
        ensures
            *info == self.info(),
    {
        &self.client_info
    }

    /// Checks the header of a packet of which `header_length` bytes of
    /// header and `payload_length` bytes of payload were read.
    ///
    /// The header is accepted exactly where [`header_checks`] holds, and
    /// its session counter is then the client's new one. A header that is
    /// refused changes nothing.
    pub fn process_header(&mut self, header_data: &[u8], header_length: usize, payload_length: usize) -> (r:
        Result<(), ()>)
        requires
            header_length <= header_data@.len(),
            header_length + payload_length <= u32::MAX,
        ensures
            r is Ok <==> header_checks(
                header_data@,
                header_length as int,
                payload_length as int,
                old(self).info().packet_counter,
            ),
            final(self).info().peer_addr == old(self).info().peer_addr,
            final(self).info().steam_id_string == old(self).info().steam_id_string,
            final(self).info().client_game_version == old(self).info().client_game_version,
            final(self).info().packet_counter == (if r is Ok {
                le32_at(header_data@, 22)
            } else {
                old(self).info().packet_counter
            }),
    {
        if header_length < CLIENT_TO_SERVER_HEADER as usize {
            return Err(());
        }
        let total_packet_length: u32 = (header_length + payload_length) as u32;
        // Total packet length - 2 in big endian
        let packet_length_1_be: u16 = read_be16(header_data, 0);
        if packet_length_1_be != ((total_packet_length - 2) % 0x1_0000) as u16 {
            return Err(());
        }
        // Always 0x00 0x00

        let unknown_1: u16 = read_be16(header_data, 4);
        if unknown_1 != 0 {
            return Err(());
        }
        // Total packet length - 14 in big endian

        let packet_length_2a_be: u32 = read_be32(header_data, 6);
        if packet_length_2a_be != total_packet_length - 14 {
            return Err(());
        }
        // Total packet length - 14 in big endian

        let packet_length_2b_be: u32 = read_be32(header_data, 10);
        if packet_length_2b_be != total_packet_length - 14 {
            return Err(());
        }
        // Always 0x0C(12 in decimal) in big endian

        let unknown_2: u32 = read_be32(header_data, 14);
        if unknown_2 != CLIENT_HEADER_MARK {
            return Err(());
        }
        // Counter of packets sent this session. Little endian. Used in replies

        let session_sent_packets_counter: u32 = read_le32(header_data, 22);
        if session_sent_packets_counter < self.client_info.packet_counter {
            return Err(());
        }
        self.client_info.packet_counter = session_sent_packets_counter;

        Ok(())
    }
}

} // verus!
