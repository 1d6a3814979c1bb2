//! The protocol-buffer messages of the login and auth exchanges, as plain
//! values. The embedding program encodes and decodes them.

use vstd::prelude::*;

verus! {

/// A client asks the login service where to authenticate.
pub struct RequestQueryLoginServerInfo {
    pub steamid: String,
    pub versionnum: String,
}

/// The login service names the auth service.
pub struct RequestQueryLoginServerInfoResponse {
    pub serverip: String,
    pub port: i64,
}

/// A client hands the auth service the key for AES-128-CWC.
pub struct RequestHandshake {
    pub aescwckey: Vec<u8>,
}

/// A client asks the auth service for its status.
pub struct GetServiceStatus {
    pub steamid: String,
}

/// The auth service's status.
pub struct GetServiceStatusResponse {
    pub id: i64,
    pub steamid: String,
    pub unknownfield: i64,
    pub versionnum: i64,
}

} // verus!
