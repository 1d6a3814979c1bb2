//! Core of a matchmaking and session server for the FRPG2-request protocol.
//!
//! - [`frame`]: the wire format of a frame, the stateful decoder and the
//!   encoder, and the two cipher envelopes around a frame body, RSA and
//!   AES-128-CWC.
//! - [`net`]: the task that owns one connection, as a state and its reaction
//!   to each event; the message helpers; the acceptor and its retry rule.
//! - [`service`]: the login, auth and game handlers, each a state and its
//!   step for what has come in.
//! - [`context`], [`config`]: the state that handlers share, and the
//!   settings.
//! - [`server`]: a login server that reads raw packets.
//! - [`buffer`], [`wire`]: the byte buffer that all of it works on, and the
//!   byte order of the header's integers.
//!
//! Nothing in this crate touches a socket, a timer or a channel. The
//! embedding program owns those: it feeds bytes and events in and carries out
//! the actions that come back. It also runs the AES-128-CWC primitive, on the
//! requests that the cipher envelope hands out.
//!
//! Every function here is verified against its contract, with these
//! exceptions, each marked where it stands: the calls into `bytes`, `openssl`,
//! `rand` and `hex`, and one of `std`, whose contracts are taken on trust.

pub mod buffer;
pub mod config;
pub mod context;
pub mod frame;
pub mod msg;
pub mod net;
pub mod server;
pub mod service;
pub mod wire;
