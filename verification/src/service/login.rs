//! The login service: one question, one redirect.

use bytes::BytesMut;
use vstd::prelude::*;
use vstd::utf8::encode_utf8;

use crate::buffer::buffer_bytes;
use crate::context::MatchmakingDb;
use crate::frame::crypto::{CipherMode, RsaPadding};
use crate::frame::{Frame, FrameView};
use crate::msg::{RequestQueryLoginServerInfo, RequestQueryLoginServerInfoResponse};
use crate::net::message;
use crate::net::server::TcpServer;

verus! {

/// Milliseconds for which a connection is kept after the redirect was sent,
/// so that the client sees it before the stream closes.
pub const LOGIN_COOLDOWN_MS: u64 = 2000;

/// What the embedding program does for the login handler.
pub enum LoginStep {
    /// Encode the response, frame it with
    /// [`LoginConnectionHandler::write_message`], send the frame, wait for
    /// so many milliseconds, and drop the connection.
    Redirect { response: RequestQueryLoginServerInfoResponse, cooldown_ms: u64 },
    /// Drop the connection: the handler had already answered.
    Done,
}

/// The handler of one connection to the login service.
pub struct LoginConnectionHandler {
    global_counter: u16,
    counter: u32,
    answered: bool,
}

impl Default for LoginConnectionHandler {
    fn default() -> (handler: Self)
        ensures
            handler.global_counter() == 0,
            handler.counter() == 0,
            !handler.answered(),
    {
        Self { global_counter: 0, counter: 0, answered: false }
    }
}

impl LoginConnectionHandler {
    /// The global counter of the last frame read.
    pub closed spec fn global_counter(&self) -> u16 {
        self.global_counter
    }

    /// The counter of the last frame read.
    pub closed spec fn counter(&self) -> u32 {
        self.counter
    }

    /// Whether the redirect has been given.
    pub closed spec fn answered(&self) -> bool {
        self.answered
    }

    /// The name of the service in event records.
    pub fn description() -> (name: &'static str)
        ensures
            name@ == "login"@,
    {
        "login"
    }

    /// The frame that carries the encoded message under the counters of the
    /// last frame read.
    pub fn write_message(&self, message_data: BytesMut) -> (frame: Frame)
        ensures
            frame@ == (FrameView {
                global_counter: self.global_counter(),
                counter: self.counter(),
                data: buffer_bytes(message_data),
            }),
    {
        message::write_message(message_data, self.global_counter, self.counter)
    }

    /// Takes note of the counters of `frame` and hands out the encoded
    /// message that it carries.
    pub fn read_message(&mut self, frame: Frame) -> (message_data: BytesMut)
        ensures
            message_data == frame.data,
            final(self).global_counter() == frame.global_counter,
            final(self).counter() == frame.counter,
            final(self).answered() == old(self).answered(),
    {
        let (message_data, global_counter, counter) = message::read_message(frame);

        self.global_counter = global_counter;
        self.counter = counter;

        message_data
    }

    /// The handler's step once the client's question has been read: the
    /// redirect to the auth service of `context`, at the server's address
    /// and the auth port, followed by the cool-down. A handler that has
    /// answered before has nothing more to say.
    pub fn run(&mut self, server_info_req: &RequestQueryLoginServerInfo, context: &MatchmakingDb) -> (step:
        LoginStep)
        ensures
            final(self).global_counter() == old(self).global_counter(),
            final(self).counter() == old(self).counter(),
            final(self).answered(),
            if old(self).answered() {
                step matches LoginStep::Done
            } else {
                step matches LoginStep::Redirect { response, cooldown_ms } && response.serverip@
                    == context.settings()@.server_ip && response.port
                    == context.settings()@.auth_port && cooldown_ms == LOGIN_COOLDOWN_MS
            },
    {
        if self.answered {
            return LoginStep::Done;
        }
        /* Could check steam ID, versionnum, etc. here */
        let config = context.config();
        let server_info = RequestQueryLoginServerInfoResponse {
            serverip: config.get_server_ip().clone(),
            port: config.get_auth_port() as i64,
        };
        self.answered = true;
        LoginStep::Redirect { response: server_info, cooldown_ms: LOGIN_COOLDOWN_MS }
    }
}

/// The login service for the settings of `db`: bound to the server's
/// address at the login port, opening under OAEP and sealing under X9.31
/// with the server's private key, with a clone of `db` as its context.
/// `None` where the private key of the settings, in UTF-8, is too long for
/// OpenSSL's lengths or is not read as a key.
pub fn create_login_service(db: &MatchmakingDb) -> (server: Option<TcpServer<MatchmakingDb>>)
    ensures
        encode_utf8(db.settings()@.rsa_private_key).len() > i32::MAX ==> server is None,
        server matches Some(server) ==> {
            &&& server.wf()
            &&& server.attempt() == 1
            &&& server.bind_address().0@ == db.settings()@.server_ip
            &&& server.bind_address().1 == db.settings()@.login_port
            &&& server.cipher_pair().0 matches CipherMode::Rsa(_, RsaPadding::Pkcs1Oaep)
            &&& server.cipher_pair().1 matches CipherMode::Rsa(_, RsaPadding::X931)
            &&& server.context().settings()@ == db.settings()@
            &&& server.context().shared_state() == db.shared_state()
        },
{
    let config = db.config();
    let rsa_private_key = config.get_rsa_private_key().as_str().as_bytes();
    let inbound_cipher_mode = CipherMode::rsa_pkcs1_oeap(rsa_private_key);
    let outbound_cipher_mode = CipherMode::rsa_x931(rsa_private_key);
    crate::service::tcp_service(
        db,
        config.get_login_port(),
        inbound_cipher_mode,
        outbound_cipher_mode,
    )
}

} // verus!
