//! The handlers of the three services.

use vstd::prelude::*;

use crate::context::MatchmakingDb;
use crate::frame::crypto::CipherMode;
use crate::net::server::TcpServer;

pub mod auth;
pub mod game;
pub mod login;

verus! {

/// The TCP service for the settings of `db` at `port`, once the server's key
/// has been read for each direction: bound to the server's address at that
/// port, opening under `inbound` and sealing under `outbound`, with a clone
/// of `db` as its context. There is no service where the key was not read
/// for one of the two.
pub fn tcp_service(
    db: &MatchmakingDb,
    port: u16,
    inbound: Option<CipherMode>,
    outbound: Option<CipherMode>,
) -> (server: Option<TcpServer<MatchmakingDb>>)
    ensures
        match (inbound, outbound) {
            (Some(inbound), Some(outbound)) => {
                &&& server matches Some(server)
                &&& server.wf()
                &&& server.attempt() == 1
                &&& server.bind_address().0@ == db.settings()@.server_ip
                &&& server.bind_address().1 == port
                &&& server.cipher_pair() == (inbound, outbound)
                &&& server.context().settings()@ == db.settings()@
                &&& server.context().shared_state() == db.shared_state()
            },
            _ => server is None,
        },
{
    match (inbound, outbound) {
        (Some(inbound), Some(outbound)) => {
            let bind_addr = (db.config().get_server_ip().clone(), port);
            Some(TcpServer::new(bind_addr, (inbound, outbound), db.clone()))
        },
        _ => None,
    }
}

} // verus!
