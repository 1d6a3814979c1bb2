//! The auth service: key exchange, the switch to AES-128-CWC, the status
//! exchange, the exchange of nonces, and the session ticket.

use bytes::BytesMut;
use rand::Rng;
use vstd::prelude::*;
use vstd::utf8::encode_utf8;

use crate::buffer::{buf_as_slice, buffer_bytes};
use crate::context::MatchmakingDb;
use crate::frame::crypto::{array_of, CipherMode, RsaPadding, CWC_KEY_LEN};
use crate::frame::{Frame, FrameView};
use crate::msg::{GetServiceStatus, GetServiceStatusResponse, RequestHandshake};
use crate::net::message;
use crate::net::server::TcpServer;

verus! {

/// Bytes of the block that opens the exchange under the new cipher.
pub const SYNC_BLOCK_LEN: usize = 16;

/// Bytes that the server adds to the client's nonce.
pub const SERVER_NONCE_LEN: usize = 8;

/// Where the SteamID starts in a session ticket.
pub const TICKET_STEAMID_START: usize = 28;

/// Where the SteamID ends in a session ticket.
pub const TICKET_STEAMID_END: usize = 36;

/// `Rng::gen` on the thread's generator: eight random bytes.
#[verifier::external_body]
fn random_server_nonce() -> (nonce: [u8; 8]) {
    rand::thread_rng().gen::<[u8; 8]>()
}

/// `hex::encode`: two lowercase hexadecimal digits for each byte, in order.
#[verifier::external_body]
fn hex_encode(data: &[u8]) -> (text: String)
    ensures
        text@ == hex_string(data@),
{
    hex::encode(data)
}

/// The lowercase hexadecimal digit for a number below sixteen.
pub open spec fn hex_digit(n: int) -> char {
    if n == 0 {
        '0'
    } else if n == 1 {
        '1'
    } else if n == 2 {
        '2'
    } else if n == 3 {
        '3'
    } else if n == 4 {
        '4'
    } else if n == 5 {
        '5'
    } else if n == 6 {
        '6'
    } else if n == 7 {
        '7'
    } else if n == 8 {
        '8'
    } else if n == 9 {
        '9'
    } else if n == 10 {
        'a'
    } else if n == 11 {
        'b'
    } else if n == 12 {
        'c'
    } else if n == 13 {
        'd'
    } else if n == 14 {
        'e'
    } else {
        'f'
    }
}

/// Bytes in hexadecimal: for each byte its high digit, then its low digit.
pub open spec fn hex_string(data: Seq<u8>) -> Seq<char> {
    Seq::new(
        2 * data.len(),
        |i: int|
            if i % 2 == 0 {
                hex_digit(data[i / 2] as int / 16)
            } else {
                hex_digit(data[i / 2] as int % 16)
            },
    )
}

/// What the handler waits for.
#[derive(Clone, Copy, Debug, PartialEq, Eq, Structural)]
pub enum AuthStage {
    /// The client's key, under RSA.
    Handshake,
    /// The client's status request, the first message under CWC.
    ServiceStatus,
    /// The client's nonce.
    Nonce,
    /// The client's session ticket.
    Ticket,
    /// Nothing: the exchange is over.
    Done,
}

/// What has come in for the handler.
pub enum AuthEvent {
    /// A frame whose body decoded as a handshake.
    Handshake(RequestHandshake),
    /// A frame whose body decoded as a status request.
    ServiceStatus(GetServiceStatus),
    /// A frame whose body is taken as it is.
    Data(Vec<u8>),
    /// No frame: the connection has ended, or a body did not decode.
    Closed,
}

/// Why the handler gave up.
#[derive(Clone, Copy, Debug, PartialEq, Eq, Structural)]
pub enum AuthAbort {
    /// What came in is not what the handler waited for.
    Unexpected,
    /// The client's key is not sixteen bytes long.
    InvalidKey,
    /// The session ticket is too short to hold a SteamID.
    ShortTicket,
}

/// What the embedding program does for the auth handler.
pub enum AuthStep {
    /// Switch both directions of the connection to `cipher`, then send
    /// `sync`.
    Rekey { cipher: CipherMode, sync: Frame },
    /// Encode the response, frame it with
    /// [`AuthConnectionHandler::write_message`], and send the frame.
    Respond(GetServiceStatusResponse),
    /// Send the frame.
    Send(Frame),
    /// Record the two SteamIDs, that of the status request and that of the
    /// ticket; the exchange is over.
    Complete { status_steamid: String, ticket_steamid: [u8; 8] },
    /// Drop the connection.
    Abort(AuthAbort),
}

/// The handler of one connection to the auth service.
pub struct AuthConnectionHandler {
    global_counter: u16,
    counter: u32,
    stage: AuthStage,
    status_steamid: String,
}

impl Default for AuthConnectionHandler {
    fn default() -> (handler: Self)
        ensures
            handler.global_counter() == 0,
            handler.counter() == 0,
            handler.stage() == AuthStage::Handshake,
    {
        Self {
            global_counter: 0,
            counter: 0,
            stage: AuthStage::Handshake,
            status_steamid: String::new(),
        }
    }
}

/// The reply to a client's nonce: the client's bytes, then the server's.
pub fn nonce_reply(client: &[u8], server: &[u8; 8]) -> (reply: Vec<u8>)
    ensures
        reply@ == client@ + server@,
{
    let mut reply: Vec<u8> = Vec::with_capacity(SYNC_BLOCK_LEN);
    let mut i: usize = 0;
    while i < client.len()
        invariant
            i <= client.len(),
            reply@ == client@.take(i as int),
        decreases client.len() - i,
    {
        reply.push(client[i]);
        assert(client@.take(i as int).push(client@[i as int]) =~= client@.take(i + 1));
        i += 1;
    }
    assert(client@.take(client.len() as int) =~= client@);
    let mut j: usize = 0;
    while j < SERVER_NONCE_LEN
        invariant
            j <= SERVER_NONCE_LEN,
            reply@ == client@ + server@.take(j as int),
        decreases SERVER_NONCE_LEN - j,
    {
        reply.push(server[j]);
        assert((client@ + server@.take(j as int)).push(server@[j as int]) =~= client@
            + server@.take(j + 1));
        j += 1;
    }
    assert(server@.take(SERVER_NONCE_LEN as int) =~= server@);
    reply
}

/// The SteamID of a session ticket: its bytes 28 up to 36, last byte first.
/// A ticket of fewer than 36 bytes has none.
pub fn ticket_steamid(steam_ticket: &[u8]) -> (steamid: Option<[u8; 8]>)
    ensures
        match steamid {
            Some(id) => steam_ticket@.len() >= TICKET_STEAMID_END && id@ == steam_ticket@.subrange(
                28,
                36,
            ).reverse(),
            None => steam_ticket@.len() < TICKET_STEAMID_END,
        },
{
    if steam_ticket.len() < TICKET_STEAMID_END {
        return None;
    }
    let mut ticket_steamid: [u8; 8] = array_of::<8>(steam_ticket, TICKET_STEAMID_START);
    let ghost field = ticket_steamid@;
    let mut i: usize = 0;
    while i < 4
        invariant
            i <= 4,
            field.len() == 8,
            forall|k: int| 0 <= k < i ==> ticket_steamid@[k] == field[7 - k],
            forall|k: int| 0 <= k < i ==> ticket_steamid@[7 - k] == field[k],
            forall|k: int| i <= k < 8 - i ==> ticket_steamid@[k] == field[k],
        decreases 4 - i,
    {
        let low = ticket_steamid[i];
        let high = ticket_steamid[7 - i];
        ticket_steamid[i] = high;
        ticket_steamid[7 - i] = low;
        i += 1;
    }
    assert(ticket_steamid@ =~= field.reverse());
    Some(ticket_steamid)
}

/// A SteamID in hexadecimal, as event records show it.
pub fn steamid_hex(steamid: &[u8; 8]) -> (text: String)
    ensures
        text@ == hex_string(steamid@),
{
    hex_encode(steamid.as_slice())
}

/// The status that the auth service reports.
pub fn service_status() -> (response: GetServiceStatusResponse)
    ensures
        response.id == 2,
        response.steamid@ == seq!['\0'],
        response.unknownfield == 0,
        response.versionnum == 0,
{
    proof {
        reveal_strlit("\0");
    }
    let steamid = "\0".to_string();
    assert(steamid@ =~= seq!['\0']);
    GetServiceStatusResponse { id: 2, steamid, unknownfield: 0, versionnum: 0 }
}

impl AuthConnectionHandler {
    /// The global counter of the last frame read.
    pub closed spec fn global_counter(&self) -> u16 {
        self.global_counter
    }

    /// The counter of the last frame read.
    pub closed spec fn counter(&self) -> u32 {
        self.counter
    }

    /// What the handler waits for.
    pub closed spec fn stage(&self) -> AuthStage {
        self.stage
    }

    /// The SteamID of the status request, once it has come.
    pub closed spec fn status_steamid(&self) -> Seq<char> {
        self.status_steamid@
    }

    /// Whether `after` has the counters and the noted SteamID of `self`.
    pub open spec fn same_notes(&self, after: &AuthConnectionHandler) -> bool {
        &&& after.global_counter() == self.global_counter()
        &&& after.counter() == self.counter()
        &&& after.status_steamid() == self.status_steamid()
    }

    /// The name of the service in event records.
    pub fn description() -> (name: &'static str)
        ensures
            name@ == "auth"@,
    {
        "auth"
    }

    /// What the handler waits for.
    pub fn expects(&self) -> (stage: AuthStage)
        ensures
            stage == self.stage(),
    {
        self.stage
    }

    /// The frame that carries `data` under the counters of the last frame
    /// read.
    pub fn write_data(&self, data: &[u8]) -> (frame: Frame)
        ensures
            frame@ == (FrameView {
                global_counter: self.global_counter(),
                counter: self.counter(),
                data: data@,
            }),
    {
        message::write_data(data, self.global_counter, self.counter)
    }

    /// Takes note of the counters of `frame` and hands out the bytes that
    /// it carries.
    pub fn read_data(&mut self, frame: Frame) -> (data: BytesMut)
        ensures
            data == frame.data,
            final(self).global_counter() == frame.global_counter,
            final(self).counter() == frame.counter,
            final(self).stage() == old(self).stage(),
            final(self).status_steamid() == old(self).status_steamid(),
    {
        let (data, global_counter, counter) = message::read_data(frame);

        self.global_counter = global_counter;
        self.counter = counter;

        data
    }

    /// The frame that carries the encoded message under the counters of the
    /// last frame read.
    pub fn write_message(&self, message_data: BytesMut) -> (frame: Frame)
        ensures
            frame@ == (FrameView {
                global_counter: self.global_counter(),
                counter: self.counter(),
                data: buffer_bytes(message_data),
            }),
    {
        message::write_message(message_data, self.global_counter, self.counter)
    }

    /// Takes note of the counters of `frame` and hands out the encoded
    /// message that it carries.
    pub fn read_message(&mut self, frame: Frame) -> (message_data: BytesMut)
        ensures
            message_data == frame.data,
            final(self).global_counter() == frame.global_counter,
            final(self).counter() == frame.counter,
            final(self).stage() == old(self).stage(),
            final(self).status_steamid() == old(self).status_steamid(),
    {
        let (message_data, global_counter, counter) = message::read_message(frame);

        self.global_counter = global_counter;
        self.counter = counter;

        message_data
    }

    /// The handler's step for a nonce of the client and the eight bytes
    /// that the server adds: the two are sent back as one block, and the
    /// ticket is waited for.
    pub fn nonce_step(&mut self, client_8bytes: &[u8], server_8bytes: &[u8; 8]) -> (step: AuthStep)
        requires
            old(self).stage() == AuthStage::Nonce,
        ensures
            old(self).same_notes(final(self)),
            final(self).stage() == AuthStage::Ticket,
            step matches AuthStep::Send(frame) && frame@ == (FrameView {
                global_counter: old(self).global_counter(),
                counter: old(self).counter(),
                data: client_8bytes@ + server_8bytes@,
            }),
    {
        let unknown_16bytes = nonce_reply(client_8bytes, server_8bytes);
        self.stage = AuthStage::Ticket;
        AuthStep::Send(self.write_data(unknown_16bytes.as_slice()))
    }

    /// The handler's step for what has come in.
    ///
    /// The exchange runs in four stages, each waiting for one event:
    ///
    /// 1. The handshake. A key of sixteen bytes switches the connection to
    ///    AES-128-CWC under it, and a block of sixteen zero bytes is sent as
    ///    the first frame under the new cipher. A key of another length is
    ///    `InvalidKey`.
    /// 2. The status request. Its SteamID is noted, and the status of
    ///    [`service_status`] is the response.
    /// 3. The client's nonce. It is sent back with eight random bytes added.
    /// 4. The session ticket. Its SteamID is taken out, and the exchange is
    ///    complete; a ticket too short to hold one is `ShortTicket`.
    ///
    /// Any event but the one waited for is `Unexpected`. Once the handler
    /// has completed or given up it waits for nothing, and every event is
    /// `Unexpected`.
    pub fn run(&mut self, event: AuthEvent) -> (step: AuthStep)
        ensures
            final(self).global_counter() == old(self).global_counter(),
            final(self).counter() == old(self).counter(),
            match (old(self).stage(), event) {
                (AuthStage::Handshake, AuthEvent::Handshake(handshake)) => if handshake.aescwckey@.len()
                    == CWC_KEY_LEN {
                    &&& step matches AuthStep::Rekey { cipher, sync }
                    &&& cipher matches CipherMode::Cwc(key)
                    &&& key@ == handshake.aescwckey@
                    &&& sync@ == (FrameView {
                        global_counter: old(self).global_counter(),
                        counter: old(self).counter(),
                        data: Seq::new(SYNC_BLOCK_LEN as nat, |i: int| 0u8),
                    })
                    &&& final(self).stage() == AuthStage::ServiceStatus
                    &&& final(self).status_steamid() == old(self).status_steamid()
                } else {
                    &&& step == AuthStep::Abort(AuthAbort::InvalidKey)
                    &&& final(self).stage() == AuthStage::Done
                },
                (AuthStage::ServiceStatus, AuthEvent::ServiceStatus(status_req)) => {
                    &&& step matches AuthStep::Respond(response)
                    &&& response.id == 2
                    &&& response.steamid@ == seq!['\0']
                    &&& response.unknownfield == 0
                    &&& response.versionnum == 0
                    &&& final(self).stage() == AuthStage::Nonce
                    &&& final(self).status_steamid() == status_req.steamid@
                },
                (AuthStage::Nonce, AuthEvent::Data(client_8bytes)) => {
                    &&& step matches AuthStep::Send(frame)
                    &&& frame@.global_counter == old(self).global_counter()
                    &&& frame@.counter == old(self).counter()
                    &&& frame@.data.len() == client_8bytes@.len() + SERVER_NONCE_LEN
                    &&& frame@.data.take(client_8bytes@.len() as int) == client_8bytes@
                    &&& final(self).stage() == AuthStage::Ticket
                    &&& final(self).status_steamid() == old(self).status_steamid()
                },
                (AuthStage::Ticket, AuthEvent::Data(steam_ticket)) => if steam_ticket@.len()
                    >= TICKET_STEAMID_END {
                    &&& step matches AuthStep::Complete { status_steamid, ticket_steamid }
                    &&& status_steamid@ == old(self).status_steamid()
                    &&& ticket_steamid@ == steam_ticket@.subrange(28, 36).reverse()
                    &&& final(self).stage() == AuthStage::Done
                } else {
                    &&& step == AuthStep::Abort(AuthAbort::ShortTicket)
                    &&& final(self).stage() == AuthStage::Done
                },
                _ => {
                    &&& step == AuthStep::Abort(AuthAbort::Unexpected)
                    &&& final(self).stage() == AuthStage::Done
                },
            },
    {
        match (self.stage, event) {
            (AuthStage::Handshake, AuthEvent::Handshake(handshake)) => {
                let cwc_key = handshake.aescwckey.as_slice();
                if cwc_key.len() != CWC_KEY_LEN {
                    self.stage = AuthStage::Done;
                    return AuthStep::Abort(AuthAbort::InvalidKey);
                }
                let cipher = CipherMode::aes128_cwc(cwc_key);
                let init_block = [0u8; 16];
                let sync = self.write_data(init_block.as_slice());
                assert(sync@.data =~= Seq::new(SYNC_BLOCK_LEN as nat, |i: int| 0u8));
                self.stage = AuthStage::ServiceStatus;
                AuthStep::Rekey { cipher, sync }
            },
            (AuthStage::ServiceStatus, AuthEvent::ServiceStatus(status_req)) => {
                self.status_steamid = status_req.steamid;
                self.stage = AuthStage::Nonce;
                AuthStep::Respond(service_status())
            },
            (AuthStage::Nonce, AuthEvent::Data(client_8bytes)) => {
                // Some kind of exchange between client and server: the
                // client sends 8 bytes, the server adds another 8 and sends
                // all 16 back.
                let server_8bytes = random_server_nonce();
                let step = self.nonce_step(client_8bytes.as_slice(), &server_8bytes);
                proof {
                    let sent = client_8bytes@ + server_8bytes@;
                    assert(sent.take(client_8bytes@.len() as int) =~= client_8bytes@);
                }
                step
            },
            (AuthStage::Ticket, AuthEvent::Data(steam_ticket)) => {
                // Here the client sends its Steam session ticket. Nothing
                // of it is checked but that it is long enough to hold the
                // SteamID.
                self.stage = AuthStage::Done;
                match ticket_steamid(steam_ticket.as_slice()) {
                    Some(ticket_steamid) => {
                        let mut status_steamid = String::new();
                        std::mem::swap(&mut status_steamid, &mut self.status_steamid);
                        AuthStep::Complete { status_steamid, ticket_steamid }
                    },
                    None => AuthStep::Abort(AuthAbort::ShortTicket),
                }
            },
            _ => {
                self.stage = AuthStage::Done;
                AuthStep::Abort(AuthAbort::Unexpected)
            },
        }
    }
}

/// The auth service for the settings of `db`: bound to the server's address
/// at the auth port, opening under OAEP and sealing under X9.31 with the
/// server's private key, with a clone of `db` as its context. `None` where
/// the private key of the settings, in UTF-8, is too long for OpenSSL's
/// lengths or is not read as a key.
pub fn create_auth_service(db: &MatchmakingDb) -> (server: Option<TcpServer<MatchmakingDb>>)
    ensures
        encode_utf8(db.settings()@.rsa_private_key).len() > i32::MAX ==> server is None,
        server matches Some(server) ==> {
            &&& server.wf()
            &&& server.attempt() == 1
            &&& server.bind_address().0@ == db.settings()@.server_ip
            &&& server.bind_address().1 == db.settings()@.auth_port
            &&& server.cipher_pair().0 matches CipherMode::Rsa(_, RsaPadding::Pkcs1Oaep)
            &&& server.cipher_pair().1 matches CipherMode::Rsa(_, RsaPadding::X931)
            &&& server.context().settings()@ == db.settings()@
            &&& server.context().shared_state() == db.shared_state()
        },
{
    let config = db.config();
    let rsa_private_key = config.get_rsa_private_key().as_str().as_bytes();
    let inbound_cipher_mode = CipherMode::rsa_pkcs1_oeap(rsa_private_key);
    let outbound_cipher_mode = CipherMode::rsa_x931(rsa_private_key);
    crate::service::tcp_service(
        db,
        config.get_auth_port(),
        inbound_cipher_mode,
        outbound_cipher_mode,
    )
}

} // verus!
