//! The state that every handler of a process shares.
//!
//! A context is a handle: cheap to clone, and every clone reaches the same
//! state behind a read-write lock. Readers go in together; a writer goes in
//! alone.

use std::collections::HashMap;
use std::sync::Arc;
use vstd::prelude::*;
use vstd::rwlock::{RwLock, RwLockPredicate};

use crate::config::Config;
use crate::net::connection::UdpConnection;

verus! {

broadcast use vstd::std_specs::hash::group_hash_axioms;

/// `Clone` for `Arc`: another handle on the same value.
#[verifier::external_body]
fn arc_clone<T>(handle: &Arc<T>) -> (copy: Arc<T>)
    ensures
        copy == *handle,
{
    handle.clone()
}

/// The matchmaking state. It holds nothing yet.
#[derive(Default, Debug)]
pub struct MatchmakingState {}

/// What the lock of a [`MatchmakingDbShared`] asks of the state it guards:
/// nothing.
pub struct MatchmakingInv {}

impl RwLockPredicate<MatchmakingState> for MatchmakingInv {
    open spec fn inv(self, v: MatchmakingState) -> bool {
        true
    }
}

/// The part of a [`MatchmakingDb`] that its clones share.
pub struct MatchmakingDbShared {
    state: RwLock<MatchmakingState, MatchmakingInv>,
}

/// The context of the TCP services: the settings, and a handle on the
/// shared matchmaking state.
pub struct MatchmakingDb {
    config: Config,
    shared: Arc<MatchmakingDbShared>,
}

impl Clone for MatchmakingDb {
    /// Another handle: the same settings, the same shared state.
    fn clone(&self) -> (copy: Self)
        ensures
            copy.settings()@ == self.settings()@,
            copy.shared_state() == self.shared_state(),
    {
        MatchmakingDb { config: self.config.clone(), shared: arc_clone(&self.shared) }
    }
}

impl MatchmakingDb {
    /// The settings.
    pub closed spec fn settings(&self) -> Config {
        self.config
    }

    /// The state that all clones of this handle share.
    pub closed spec fn shared_state(&self) -> Arc<MatchmakingDbShared> {
        self.shared
    }

    /// A context with its own, fresh shared state.
    pub fn new(config: Config) -> (db: Self)
        ensures
            db.settings() == config,
    {
        let state = RwLock::new(MatchmakingState {  }, Ghost(MatchmakingInv {  }));
        Self { config, shared: Arc::new(MatchmakingDbShared { state }) }
    }

    pub fn config(&self) -> (config: &Config)
        ensures
            *config == self.settings(),
    {
        &self.config
    }
}

//
// UDP HERE
//
/// The sessions of the datagram service, each under the key of its peer.
#[derive(Default)]
pub struct ConnectionState {
    hashmap: HashMap<u64, Arc<UdpConnection>>,
}

impl ConnectionState {
    /// The sessions, by key.
    pub closed spec fn sessions(&self) -> Map<u64, Arc<UdpConnection>> {
        self.hashmap@
    }
}

/// What the lock of a [`ConnectionDbShared`] asks of the state it guards:
/// every session is kept under the key of its own peer.
pub struct ConnectionInv {}

impl RwLockPredicate<ConnectionState> for ConnectionInv {
    open spec fn inv(self, v: ConnectionState) -> bool {
        forall|key: u64| #[trigger]
            v.sessions().contains_key(key) ==> v.sessions()[key].session_key() == key
    }
}

/// The part of a [`ConnectionDb`] that its clones share.
pub struct ConnectionDbShared {
    state: RwLock<ConnectionState, ConnectionInv>,
}

/// The context of the datagram service: the settings, and a handle on the
/// shared table of sessions.
pub struct ConnectionDb {
    config: Config,
    shared: Arc<ConnectionDbShared>,
}

impl ConnectionDb {
    /// The settings.
    pub closed spec fn settings(&self) -> Config {
        self.config
    }

    /// A context with its own, empty table of sessions.
    pub fn new(config: Config) -> (db: Self)
        ensures
            db.settings() == config,
    {
        let state = RwLock::new(
            ConnectionState { hashmap: HashMap::new() },
            Ghost(ConnectionInv {  }),
        );
        Self { config, shared: Arc::new(ConnectionDbShared { state }) }
    }

    pub fn config(&self) -> (config: &Config)
        ensures
            *config == self.settings(),
    {
        &self.config
    }

    /// The session kept under `key`, if there is one at the moment the
    /// table is read. A session that is found is that of the peer whose key
    /// is `key`.
    pub fn read(&self, key: &u64) -> (conn: Option<Arc<UdpConnection>>)
        ensures
            conn matches Some(found) ==> found.session_key() == *key,
    {
        let handle = self.shared.state.acquire_read();
        let test = handle.borrow();
        let conn = test.session(key);
        handle.release_read();
        conn
    }

    /// Keeps `conn` under the key of its peer, in place of any session kept
    /// under that key before, and hands back the handle under which the
    /// table now holds it.
    pub fn write(&self, conn: UdpConnection) -> (kept: Arc<UdpConnection>)
        ensures
            *kept == conn,
    {
        let (mut state, handle) = self.shared.state.acquire_write();
        let ghost before = state.sessions();
        let kept = state.keep(conn);
        assert forall|k: u64| #[trigger]
            state.sessions().contains_key(k) implies state.sessions()[k].session_key() == k by {
            if k != conn.session_key() {
                assert(before.contains_key(k));
            }
        }
        handle.release_write(state);
        kept
    }
}

impl ConnectionState {
    /// The session that this table keeps under `key`, if it keeps one.
    pub fn session(&self, key: &u64) -> (conn: Option<Arc<UdpConnection>>)
        ensures
            conn == (if self.sessions().contains_key(*key) {
                Some(self.sessions()[*key])
            } else {
                None
            }),
    {
        match self.hashmap.get(key) {
            Some(found) => Some(arc_clone(found)),
            None => None,
        }
    }

    /// Keeps `conn` in this table under the key of its peer, in place of
    /// any session kept under that key before, and hands back the handle
    /// under which the table now holds it.
    pub fn keep(&mut self, conn: UdpConnection) -> (kept: Arc<UdpConnection>)
        ensures
            *kept == conn,
            final(self).sessions() == old(self).sessions().insert(conn.session_key(), kept),
    {
        let key = conn.key();
        let kept = Arc::new(conn);
        self.hashmap.insert(key, arc_clone(&kept));
        kept
    }
}

} // verus!
