//! The server's RSA key, and the two operations a login server runs with
//! it.

use bytes::BytesMut;
use vstd::prelude::*;
use vstd::utf8::encode_utf8;

use crate::buffer::{buf_as_slice, buf_len, buffer_bytes};
use crate::config::Config;
use crate::frame::crypto::{decrypt, encrypt, CipherMode, Decrypted, Encrypted, RsaPadding};
use crate::frame::crypto::{rsa_open_bytes, rsa_seal_bytes};

verus! {

/// The server's private key, ready for both directions.
pub struct RsaManager {
    sealing: CipherMode,
    opening: CipherMode,
}

impl RsaManager {
    /// What holds of every manager: it seals under X9.31 and opens under
    /// OAEP.
    pub open spec fn wf(&self) -> bool {
        &&& self.sealing() matches CipherMode::Rsa(_, RsaPadding::X931)
        &&& self.opening() matches CipherMode::Rsa(_, RsaPadding::Pkcs1Oaep)
    }

    /// The mode that payloads are sealed under.
    pub closed spec fn sealing(&self) -> CipherMode {
        self.sealing
    }

    /// The mode that payloads are opened under.
    pub closed spec fn opening(&self) -> CipherMode {
        self.opening
    }

    /// A manager of the private key of the settings, or `None` where that
    /// key, in UTF-8, is too long for OpenSSL's lengths or is not read as a
    /// key.
    pub fn new(config_inst: &Config) -> (manager: Option<RsaManager>)
        ensures
            encode_utf8(config_inst@.rsa_private_key).len() > i32::MAX ==> manager is None,
            manager matches Some(m) ==> m.wf(),
    {
        let rsa_private_key_str = config_inst.get_rsa_private_key();
        let sealing = CipherMode::rsa_x931(rsa_private_key_str.as_str().as_bytes());
        let opening = CipherMode::rsa_pkcs1_oeap(rsa_private_key_str.as_str().as_bytes());
        RsaManager::from_modes(sealing, opening)
    }

    /// Seals `from` with the private key under X9.31 padding: the sealed
    /// block, or `None` where OpenSSL reports an error.
    //
    // RSA_X931_PADDING is what the server uses; OpenSSL knows it by number
    // only.
    pub fn rsa_encrypt(&self, from: &[u8]) -> (to: Option<BytesMut>)
        requires
            self.wf(),
        ensures
            self.sealing() matches CipherMode::Rsa(key, padding) && match rsa_seal_bytes(
                key,
                padding,
                from@,
            ) {
                Some(sealed) => to matches Some(buf) && buffer_bytes(buf) == sealed,
                None => to is None,
            },
    {
        match encrypt(&self.sealing, from) {
            Ok(Encrypted::Sealed(to)) => Some(to),
            _ => None,
        }
    }

    /// Opens `from` with the private key under OAEP padding: the plaintext,
    /// or `None` where OpenSSL reports an error.
    pub fn rsa_decrypt(&self, from: &[u8]) -> (to: Option<BytesMut>)
        requires
            self.wf(),
        ensures
            self.opening() matches CipherMode::Rsa(key, padding) && match rsa_open_bytes(
                key,
                padding,
                from@,
            ) {
                Some(plain) => to matches Some(buf) && buffer_bytes(buf) == plain,
                None => to is None,
            },
    {
        match decrypt(&self.opening, from) {
            Ok(Decrypted::Plain(to)) => Some(to),
            _ => None,
        }
    }

    /// The manager that seals under `sealing` and opens under `opening`,
    /// once the server's key has been read for each: one where `sealing` is
    /// RSA under X9.31 and `opening` is RSA under OAEP, and none where the
    /// key was not read for one of the two or a mode is another.
    pub fn from_modes(sealing: Option<CipherMode>, opening: Option<CipherMode>) -> (manager: Option<
        RsaManager,
    >)
        ensures
            match (sealing, opening) {
                (
                    Some(CipherMode::Rsa(seal_key, RsaPadding::X931)),
                    Some(CipherMode::Rsa(open_key, RsaPadding::Pkcs1Oaep)),
                ) => {
                    &&& manager matches Some(m)
                    &&& m.wf()
                    &&& m.sealing() == CipherMode::Rsa(seal_key, RsaPadding::X931)
                    &&& m.opening() == CipherMode::Rsa(open_key, RsaPadding::Pkcs1Oaep)
                },
                _ => manager is None,
            },
    {
        match (sealing, opening) {
            (
                Some(CipherMode::Rsa(seal_key, RsaPadding::X931)),
                Some(CipherMode::Rsa(open_key, RsaPadding::Pkcs1Oaep)),
            ) => Some(
                RsaManager {
                    sealing: CipherMode::Rsa(seal_key, RsaPadding::X931),
                    opening: CipherMode::Rsa(open_key, RsaPadding::Pkcs1Oaep),
                },
            ),
            _ => None,
        }
    }
}

} // verus!
