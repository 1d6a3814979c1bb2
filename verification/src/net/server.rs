//! The acceptor of a service: where it listens, what each connection starts
//! under, and how often a failed accept is tried again.

use vstd::prelude::*;

use crate::frame::crypto::CipherMode;
use crate::frame::header::FrameDecoderState;
use crate::net::connection::Connection;

verus! {

/// Milliseconds to wait after the first failed accept.
pub const ACCEPT_BACKOFF_START_MS: u64 = 500;

/// Accepts tried in a row before the server gives up.
pub const ACCEPT_ATTEMPTS: u8 = 3;

/// Bytes of the buffer that a datagram is received into.
pub const DATAGRAM_BUFFER_SIZE: usize = 2048;

/// What the acceptor does about one outcome of an accept.
pub enum AcceptStep {
    /// A stream was accepted: run a handler on this connection.
    Serve(Connection),
    /// The accept failed: sleep for so many milliseconds, then accept again.
    RetryAfter(u64),
    /// The accept failed once too often: the server ends with an error.
    Fatal,
}

/// The milliseconds slept before attempt number `attempt`, the first
/// attempt being number 1: nothing before the first, 500 before the second,
/// and twice as much before each later one.
pub open spec fn backoff_before(attempt: nat) -> nat
    decreases attempt,
{
    if attempt <= 1 {
        0
    } else if attempt == 2 {
        500
    } else {
        2 * backoff_before((attempt - 1) as nat)
    }
}

/// All the milliseconds slept before attempt number `attempt` is made.
pub open spec fn total_backoff_before(attempt: nat) -> nat
    decreases attempt,
{
    if attempt <= 1 {
        0
    } else {
        total_backoff_before((attempt - 1) as nat) + backoff_before(attempt)
    }
}

/// A TCP service: the address it binds, the ciphers each connection starts
/// under, the context each handler is given, and the count of accepts that
/// failed in a row.
pub struct TcpServer<Ctx> {
    bind_address: (String, u16),
    cipher_pair: (CipherMode, CipherMode),
    context: Ctx,
    retry_count: u8,
    backoff: u64,
}

impl<Ctx: Clone> TcpServer<Ctx> {
    /// Host and port to bind.
    pub closed spec fn bind_address(&self) -> (String, u16) {
        self.bind_address
    }

    /// The ciphers each connection starts under: inbound, then outbound.
    pub closed spec fn cipher_pair(&self) -> (CipherMode, CipherMode) {
        self.cipher_pair
    }

    /// The context that handlers are given a clone of.
    pub closed spec fn context(&self) -> Ctx {
        self.context
    }

    /// The number of the accept that is tried next, within the present run
    /// of failures: 1 after a success.
    pub closed spec fn attempt(&self) -> nat {
        self.retry_count as nat
    }

    /// What is kept between two accepts is consistent: the next attempt is
    /// one of the three, and the next sleep is the one that follows it.
    pub closed spec fn wf(&self) -> bool {
        &&& 1 <= self.retry_count <= ACCEPT_ATTEMPTS
        &&& self.backoff == backoff_before((self.retry_count + 1) as nat)
    }

    /// A service on `bind_address` that has not accepted yet.
    pub fn new(bind_address: (String, u16), cipher_pair: (CipherMode, CipherMode), context: Ctx) -> (server:
        Self)
        ensures
            server.wf(),
            server.bind_address() == bind_address,
            server.cipher_pair() == cipher_pair,
            server.context() == context,
            server.attempt() == 1,
    {
        Self {
            bind_address,
            cipher_pair,
            context,
            retry_count: 1,
            backoff: ACCEPT_BACKOFF_START_MS,
        }
    }

    /// Host and port to bind.
    pub fn address(&self) -> (address: &(String, u16))
        ensures
            *address == self.bind_address(),
    {
        &self.bind_address
    }

    /// The context for one more handler.
    pub fn handler_context(&self) -> (context: Ctx)
        ensures
            cloned(self.context(), context),
    {
        self.context.clone()
    }

    /// The acceptor's step after one accept.
    ///
    /// An accepted stream gets a connection that starts under the pair of
    /// ciphers, waiting for a header, and the count of failures starts over. The first and the
    /// second failure in a row are slept off, for 500 and for 1000
    /// milliseconds; the third is fatal.
    pub fn accept(&mut self, accepted: bool) -> (step: AcceptStep)
        requires
            old(self).wf(),
        ensures
            final(self).wf(),
            final(self).bind_address() == old(self).bind_address(),
            final(self).cipher_pair() == old(self).cipher_pair(),
            final(self).context() == old(self).context(),
            if accepted {
                &&& step matches AcceptStep::Serve(connection)
                &&& connection.wf()
                &&& connection.inbound_cipher() == old(self).cipher_pair().0
                &&& connection.outbound_cipher() == old(self).cipher_pair().1
                &&& connection.decoder_state() == FrameDecoderState::Header
                &&& connection.ended() is None
                &&& final(self).attempt() == 1
            } else if old(self).attempt() < ACCEPT_ATTEMPTS {
                &&& step == AcceptStep::RetryAfter(
                    backoff_before(old(self).attempt() + 1) as u64,
                )
                &&& final(self).attempt() == old(self).attempt() + 1
            } else {
                &&& step == AcceptStep::Fatal
                &&& final(self).attempt() == old(self).attempt()
            },
    {
        reveal_with_fuel(backoff_before, 5);
        if accepted {
            self.retry_count = 1;
            self.backoff = ACCEPT_BACKOFF_START_MS;
            let ciphers = (self.cipher_pair.0.clone(), self.cipher_pair.1.clone());
            AcceptStep::Serve(Connection::start(ciphers))
        } else if self.retry_count < ACCEPT_ATTEMPTS {
            let wait = self.backoff;
            self.retry_count += 1;
            self.backoff *= 2;
            AcceptStep::RetryAfter(wait)
        } else {
            AcceptStep::Fatal
        }
    }
}

/// An accept that fails twice and then succeeds is served after 500 and
/// then 1000 milliseconds of sleep, 1500 in all; a third failure in a row
/// would have been fatal.
pub proof fn lemma_backoff_schedule()
    ensures
        backoff_before(1) == 0,
        backoff_before(2) == 500,
        backoff_before(3) == 1000,
        total_backoff_before(3) == 1500,
{
    reveal_with_fuel(backoff_before, 4);
    reveal_with_fuel(total_backoff_before, 4);
}

/// A UDP service: the address it binds and the context each handler is
/// given.
pub struct UdpServer<Ctx> {
    bind_address: (String, u16),
    context: Ctx,
}

impl<Ctx: Clone> UdpServer<Ctx> {
    /// Host and port to bind.
    pub closed spec fn bind_address(&self) -> (String, u16) {
        self.bind_address
    }

    /// The context that handlers are given a clone of.
    pub closed spec fn context(&self) -> Ctx {
        self.context
    }

    /// A service on `bind_address`.
    pub fn new(bind_address: (String, u16), context: Ctx) -> (server: Self)
        ensures
            server.bind_address() == bind_address,
            server.context() == context,
    {
        Self { bind_address, context }
    }

    /// Host and port to bind.
    pub fn address(&self) -> (address: &(String, u16))
        ensures
            *address == self.bind_address(),
    {
        &self.bind_address
    }

    /// The context for one more handler.
    pub fn handler_context(&self) -> (context: Ctx)
        ensures
            cloned(self.context(), context),
    {
        self.context.clone()
    }
}

} // verus!
