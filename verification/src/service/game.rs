//! The game service: datagrams, told apart by the peer they come from.

use vstd::prelude::*;

use crate::context::MatchmakingDb;
use crate::net::server::UdpServer;

verus! {

/// The handler of one session of the game service.
pub struct GameConnectionHandler {}

impl Default for GameConnectionHandler {
    fn default() -> (handler: Self) {
        Self {  }
    }
}

impl GameConnectionHandler {
    /// The name of the service in event records.
    pub fn description() -> (name: &'static str)
        ensures
            name@ == "game"@,
    {
        "game"
    }
}

/// The game service for the settings of `db`: bound to the server's address
/// at the game port, with a clone of `db` as its context.
pub fn create_game_service(db: &MatchmakingDb) -> (server: UdpServer<MatchmakingDb>)
    ensures
        server.bind_address().0@ == db.settings()@.server_ip,
        server.bind_address().1 == db.settings()@.game_port,
        server.context().settings()@ == db.settings()@,
        server.context().shared_state() == db.shared_state(),
{
    let config = db.config();
    let bind_addr = (config.get_server_ip().clone(), config.get_game_port());

    UdpServer::new(bind_addr, db.clone())
}

} // verus!
