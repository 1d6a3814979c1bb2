//! A login server that reads raw packets: the checks on each header, and RSA
//! with the server's key outside any codec.

pub use rsa_manager::RsaManager;

pub mod login_client;
pub mod rsa_manager;
