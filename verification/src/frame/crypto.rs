//! The cipher envelope around a frame body.
//!
//! A connection starts under RSA and moves to AES-128 in CWC mode once the
//! client has sent its key. The RSA envelope is OpenSSL's, called from here.
//! The CWC primitive is run by the embedding program: this module fixes what is
//! handed to it ([`SealRequest`], [`OpenRequest`]) and lays out or takes apart
//! the bytes around it, `nonce(11) || tag(16) || body`.

use bytes::BytesMut;
use openssl::error::ErrorStack;
use openssl::pkey::Private;
use openssl::rsa::{Padding, Rsa};
use rand::Rng;
use vstd::prelude::*;
use vstd::slice::{slice_subrange, slice_to_vec};

use crate::buffer::{
    buf_as_slice, buf_from_slice, buf_put_slice, buf_resize, buf_truncate, buf_with_capacity,
    buffer_bytes,
};

verus! {

/// `openssl::rsa::Rsa`, an RSA key that is carried through unread.
#[verifier::external_type_specification]
#[verifier::external_body]
#[verifier::reject_recursive_types(T)]
pub struct ExRsa<T>(Rsa<T>);

/// `openssl::pkey::Private`, the mark of a key with its private half.
#[verifier::external_type_specification]
#[verifier::external_body]
pub struct ExPrivate(Private);

/// `openssl::error::ErrorStack`, what OpenSSL reports; it is never read.
#[verifier::external_type_specification]
#[verifier::external_body]
pub struct ExErrorStack(ErrorStack);

/// Length of an AES-128 key.
pub const CWC_KEY_LEN: usize = 16;

/// Length of the nonce that opens a CWC envelope.
pub const CWC_NONCE_LEN: usize = 11;

/// Length of the authentication tag that follows the nonce.
pub const CWC_TAG_LEN: usize = 16;

/// Bytes that a CWC envelope adds to its body.
pub const CWC_OVERHEAD: usize = 27;

/// The one failure of either envelope: the bytes could not be sealed or
/// opened under the cipher.
#[derive(Clone, Copy, Debug, PartialEq, Eq, Structural)]
pub struct InvalidCiphertext;

/// How an RSA operation pads its block.
#[derive(Clone, Copy, Debug, PartialEq, Eq, Structural)]
pub enum RsaPadding {
    /// ANSI X9.31, a signature padding that the server seals with.
    X931,
    /// PKCS #1 OAEP, which the server opens with.
    Pkcs1Oaep,
}

impl RsaPadding {
    /// The number by which OpenSSL knows the padding.
    pub open spec fn spec_raw(self) -> i32 {
        match self {
            RsaPadding::X931 => 5,
            RsaPadding::Pkcs1Oaep => 4,
        }
    }

    /// The number by which OpenSSL knows the padding.
    #[verifier::when_used_as_spec(spec_raw)]
    pub fn raw(self) -> (code: i32)
        ensures
            code == self.spec_raw(),
    {
        match self {
            RsaPadding::X931 => 5,
            RsaPadding::Pkcs1Oaep => 4,
        }
    }
}

/// The cipher that one direction of a connection runs under.
pub enum CipherMode {
    /// An RSA private-key operation under the given padding.
    Rsa(Rsa<Private>, RsaPadding),
    /// AES-128 in CWC mode under the given key.
    Cwc([u8; 16]),
}

/// What `RsaRef::private_encrypt` writes for a key, a padding number and an
/// input, or `None` where it reports an error.
pub uninterp spec fn rsa_private_encrypt_bytes(
    key: Rsa<Private>,
    padding: i32,
    input: Seq<u8>,
) -> Option<Seq<u8>>;

/// What `RsaRef::private_decrypt` writes for a key, a padding number and an
/// input, or `None` where it reports an error.
pub uninterp spec fn rsa_private_decrypt_bytes(
    key: Rsa<Private>,
    padding: i32,
    input: Seq<u8>,
) -> Option<Seq<u8>>;

/// The length in bytes of a key's modulus, as `RsaRef::size` gives it.
pub uninterp spec fn rsa_modulus_len(key: Rsa<Private>) -> u32;

/// `Rsa::private_key_from_pem`: reads a PEM-encoded private key from bytes
/// that fit OpenSSL's lengths. Nothing is claimed of the outcome.
#[verifier::external_body]
fn rsa_private_key_from_pem(pem: &[u8]) -> (parsed: Result<Rsa<Private>, ErrorStack>)
    requires
        pem@.len() <= i32::MAX,
{
    Rsa::private_key_from_pem(pem)
}

/// `Clone` for `Rsa`: another handle on the same key.
#[verifier::external_body]
fn rsa_clone(key: &Rsa<Private>) -> (copy: Rsa<Private>)
    ensures
        copy == *key,
{
    key.clone()
}

/// `RsaRef::size`: the length in bytes of the key's modulus.
#[verifier::external_body]
fn rsa_size(key: &Rsa<Private>) -> (n: u32)
    ensures
        n == rsa_modulus_len(*key),
{
    key.size()
}

/// `RsaRef::private_encrypt` into a buffer that holds at least as many bytes
/// as the modulus. On success the first `n` bytes of the buffer are the
/// result; the buffer keeps its length either way.
#[verifier::external_body]
fn rsa_private_encrypt(key: &Rsa<Private>, from: &[u8], to: &mut BytesMut, padding: i32) -> (r:
    Result<usize, ErrorStack>)
    requires
        from@.len() <= i32::MAX,
        buffer_bytes(*old(to)).len() >= rsa_modulus_len(*key),
    ensures
        buffer_bytes(*final(to)).len() == buffer_bytes(*old(to)).len(),
        match r {
            Ok(n) => n <= buffer_bytes(*final(to)).len() && rsa_private_encrypt_bytes(
                *key,
                padding,
                from@,
            ) == Some(buffer_bytes(*final(to)).take(n as int)),
            Err(_) => rsa_private_encrypt_bytes(*key, padding, from@) is None,
        },
{
    key.private_encrypt(from, &mut to[..], Padding::from_raw(padding))
}

/// `RsaRef::private_decrypt` into a buffer that holds at least as many bytes
/// as the modulus. On success the first `n` bytes of the buffer are the
/// result; the buffer keeps its length either way.
#[verifier::external_body]
fn rsa_private_decrypt(key: &Rsa<Private>, from: &[u8], to: &mut BytesMut, padding: i32) -> (r:
    Result<usize, ErrorStack>)
    requires
        from@.len() <= i32::MAX,
        buffer_bytes(*old(to)).len() >= rsa_modulus_len(*key),
    ensures
        buffer_bytes(*final(to)).len() == buffer_bytes(*old(to)).len(),
        match r {
            Ok(n) => n <= buffer_bytes(*final(to)).len() && rsa_private_decrypt_bytes(
                *key,
                padding,
                from@,
            ) == Some(buffer_bytes(*final(to)).take(n as int)),
            Err(_) => rsa_private_decrypt_bytes(*key, padding, from@) is None,
        },
{
    key.private_decrypt(from, &mut to[..], Padding::from_raw(padding))
}

/// `Rng::gen` on the thread's generator: eleven random bytes.
#[verifier::external_body]
fn random_nonce() -> (nonce: [u8; 11]) {
    rand::thread_rng().gen::<[u8; 11]>()
}

impl Clone for CipherMode {
    fn clone(&self) -> (copy: Self)
        ensures
            copy == *self,
    {
        match self {
            CipherMode::Rsa(key, padding) => CipherMode::Rsa(rsa_clone(key), *padding),
            CipherMode::Cwc(key) => CipherMode::Cwc(*key),
        }
    }
}

impl CipherMode {
    /// The mode that a parsed key gives under `padding`: none where the key
    /// did not parse.
    pub fn from_parsed(parsed: Result<Rsa<Private>, ErrorStack>, padding: RsaPadding) -> (mode:
        Option<CipherMode>)
        ensures
            match parsed {
                Ok(key) => mode == Some(CipherMode::Rsa(key, padding)),
                Err(_) => mode is None,
            },
    {
        match parsed {
            Ok(key) => Some(CipherMode::Rsa(key, padding)),
            Err(_) => None,
        }
    }

    /// RSA under X9.31 padding with the PEM-encoded private key `key`, or
    /// `None` where `key` is too long for OpenSSL's lengths or OpenSSL does
    /// not read a key from it.
    pub fn rsa_x931(key: &[u8]) -> (mode: Option<CipherMode>)
        ensures
            key@.len() > i32::MAX ==> mode is None,
            mode matches Some(m) ==> m matches CipherMode::Rsa(_, p) && p == RsaPadding::X931,
    {
        if key.len() > i32::MAX as usize {
            return None;
        }
        CipherMode::from_parsed(rsa_private_key_from_pem(key), RsaPadding::X931)
    }

    /// RSA under PKCS #1 OAEP padding with the PEM-encoded private key `key`,
    /// or `None` where `key` is too long for OpenSSL's lengths or OpenSSL
    /// does not read a key from it.
    pub fn rsa_pkcs1_oeap(key: &[u8]) -> (mode: Option<CipherMode>)
        ensures
            key@.len() > i32::MAX ==> mode is None,
            mode matches Some(m) ==> m matches CipherMode::Rsa(_, p) && p == RsaPadding::Pkcs1Oaep,
    {
        if key.len() > i32::MAX as usize {
            return None;
        }
        CipherMode::from_parsed(rsa_private_key_from_pem(key), RsaPadding::Pkcs1Oaep)
    }

    /// AES-128-CWC under the sixteen bytes of `key`.
    pub fn aes128_cwc(key: &[u8]) -> (mode: CipherMode)
        requires
            key@.len() == CWC_KEY_LEN,
        ensures
            mode matches CipherMode::Cwc(k) && k@ == key@,
    {
        CipherMode::Cwc(array_of::<16>(key, 0))
    }

    /// A short name for the mode, for event records.
    pub fn name(&self) -> (s: &'static str)
        ensures
            s@ == (match self {
                CipherMode::Rsa(_, _) => "Rsa"@,
                CipherMode::Cwc(_) => "Cwc"@,
            }),
    {
        match self {
            CipherMode::Rsa(_, _) => "Rsa",
            CipherMode::Cwc(_) => "Cwc",
        }
    }
}

/// The `N` bytes of `src` that start at `start`.
pub fn array_of<const N: usize>(src: &[u8], start: usize) -> (out: [u8; N])
    requires
        start + N <= src.len(),
    ensures
        out@ == src@.subrange(start as int, start + N),
{
    let mut out: [u8; N] = [0u8; N];
    let mut i: usize = 0;
    while i < N
        invariant
            i <= N,
            start + N <= src.len(),
            forall|j: int| 0 <= j < i ==> out@[j] == src@[start + j],
        decreases N - i,
    {
        out[i] = src[start + i];
        i += 1;
    }
    assert(out@ =~= src@.subrange(start as int, start + N));
    out
}

/// What the embedding program is asked to seal under AES-128-CWC.
pub struct SealRequest {
    /// The key to seal under.
    pub key: [u8; 16],
    /// The nonce to seal with, drawn afresh for this request.
    pub nonce: [u8; 11],
    /// The bytes to seal.
    pub plaintext: Vec<u8>,
}

/// A [`SealRequest`] as plain sequences.
pub struct SealRequestView {
    pub key: Seq<u8>,
    pub nonce: Seq<u8>,
    pub plaintext: Seq<u8>,
}

impl View for SealRequest {
    type V = SealRequestView;

    open spec fn view(&self) -> SealRequestView {
        SealRequestView { key: self.key@, nonce: self.nonce@, plaintext: self.plaintext@ }
    }
}

/// What the embedding program is asked to open under AES-128-CWC.
pub struct OpenRequest {
    /// The key to open under.
    pub key: [u8; 16],
    /// The nonce that the envelope began with.
    pub nonce: [u8; 11],
    /// The authentication tag that followed it.
    pub tag: [u8; 16],
    /// The sealed body.
    pub body: Vec<u8>,
}

/// An [`OpenRequest`] as plain sequences.
pub struct OpenRequestView {
    pub key: Seq<u8>,
    pub nonce: Seq<u8>,
    pub tag: Seq<u8>,
    pub body: Seq<u8>,
}

impl View for OpenRequest {
    type V = OpenRequestView;

    open spec fn view(&self) -> OpenRequestView {
        OpenRequestView { key: self.key@, nonce: self.nonce@, tag: self.tag@, body: self.body@ }
    }
}

impl SealRequest {
    /// The additional authenticated data to seal with: the nonce itself.
    pub fn aad(&self) -> (aad: &[u8])
        ensures
            aad@ == self.nonce@,
    {
        self.nonce.as_slice()
    }

    /// The envelope for what the primitive returned: the nonce of this
    /// request, then the tag, then the sealed body.
    pub fn envelope(&self, tag: &[u8; 16], body: &[u8]) -> (out: BytesMut)
        requires
            body@.len() <= isize::MAX - CWC_OVERHEAD,
        ensures
            buffer_bytes(out) == cwc_envelope(self.nonce@, tag@, body@),
    {
        let mut out = buf_with_capacity(CWC_OVERHEAD + body.len());
        buf_put_slice(&mut out, self.nonce.as_slice());
        buf_put_slice(&mut out, tag.as_slice());
        buf_put_slice(&mut out, body);
        out
    }
}

impl OpenRequest {
    /// The additional authenticated data to open with: the nonce itself.
    pub fn aad(&self) -> (aad: &[u8])
        ensures
            aad@ == self.nonce@,
    {
        self.nonce.as_slice()
    }
}

/// The bytes of a CWC envelope: nonce, tag, body.
pub open spec fn cwc_envelope(nonce: Seq<u8>, tag: Seq<u8>, body: Seq<u8>) -> Seq<u8> {
    nonce + tag + body
}

/// The request that a CWC envelope asks for under `key`: the first eleven
/// bytes are the nonce, the next sixteen the tag, the rest the body.
pub open spec fn cwc_open_request(key: Seq<u8>, input: Seq<u8>) -> OpenRequestView
    recommends
        input.len() >= CWC_OVERHEAD,
{
    OpenRequestView {
        key,
        nonce: input.subrange(0, 11),
        tag: input.subrange(11, 27),
        body: input.skip(27),
    }
}

/// Taking apart an envelope gives back the parts it was laid out from.
pub proof fn lemma_cwc_envelope_opens(key: Seq<u8>, nonce: Seq<u8>, tag: Seq<u8>, body: Seq<u8>)
    requires
        nonce.len() == CWC_NONCE_LEN,
        tag.len() == CWC_TAG_LEN,
    ensures
        cwc_envelope(nonce, tag, body).len() == CWC_OVERHEAD + body.len(),
        cwc_open_request(key, cwc_envelope(nonce, tag, body)) == (OpenRequestView {
            key,
            nonce,
            tag,
            body,
        }),
{
    let e = cwc_envelope(nonce, tag, body);
    assert(e.subrange(0, 11) =~= nonce);
    assert(e.subrange(11, 27) =~= tag);
    assert(e.skip(27) =~= body);
}

/// A change to the tag or to the body of an envelope reaches the primitive:
/// the request that the changed envelope asks for has another tag or
/// another body. Whether the tag still fits is for the primitive to say.
pub proof fn lemma_changed_envelope_changes_request(
    key: Seq<u8>,
    envelope: Seq<u8>,
    changed: Seq<u8>,
    at: int,
)
    requires
        envelope.len() >= CWC_OVERHEAD,
        changed.len() == envelope.len(),
        CWC_NONCE_LEN <= at < envelope.len(),
        changed[at] != envelope[at],
    ensures
        cwc_open_request(key, changed).nonce.len() == CWC_NONCE_LEN,
        cwc_open_request(key, changed).tag.len() == CWC_TAG_LEN,
        at < CWC_OVERHEAD ==> cwc_open_request(key, changed).tag != cwc_open_request(
            key,
            envelope,
        ).tag,
        at >= CWC_OVERHEAD ==> cwc_open_request(key, changed).body != cwc_open_request(
            key,
            envelope,
        ).body,
{
    if at < CWC_OVERHEAD {
        assert(changed.subrange(11, 27)[at - 11] != envelope.subrange(11, 27)[at - 11]);
    } else {
        assert(changed.skip(27)[at - 27] != envelope.skip(27)[at - 27]);
    }
}

/// What an RSA private-key decryption of `input` gives: nothing for an input
/// or a modulus too long for OpenSSL's lengths, else what OpenSSL writes.
pub open spec fn rsa_open_bytes(key: Rsa<Private>, padding: RsaPadding, input: Seq<u8>) -> Option<
    Seq<u8>,
> {
    if input.len() > i32::MAX || rsa_modulus_len(key) > i32::MAX {
        None
    } else {
        rsa_private_decrypt_bytes(key, padding.raw(), input)
    }
}

/// What an RSA private-key encryption of `input` gives: nothing for an input
/// or a modulus too long for OpenSSL's lengths, else what OpenSSL writes.
pub open spec fn rsa_seal_bytes(key: Rsa<Private>, padding: RsaPadding, input: Seq<u8>) -> Option<
    Seq<u8>,
> {
    if input.len() > i32::MAX || rsa_modulus_len(key) > i32::MAX {
        None
    } else {
        rsa_private_encrypt_bytes(key, padding.raw(), input)
    }
}

/// What [`decrypt`] hands back on success.
pub enum Decrypted {
    /// The plaintext, opened here.
    Plain(BytesMut),
    /// The parts of a CWC envelope, to be opened by the embedding program and
    /// finished with [`opened`].
    Open(OpenRequest),
}

/// What [`encrypt`] hands back on success.
pub enum Encrypted {
    /// The ciphertext, sealed here.
    Sealed(BytesMut),
    /// A plaintext and a fresh nonce, to be sealed by the embedding program
    /// and finished with [`SealRequest::envelope`].
    Seal(SealRequest),
}

/// Whether `r` is what [`decrypt`] owes for `input` under `mode`.
pub open spec fn decrypt_result(
    mode: CipherMode,
    input: Seq<u8>,
    r: Result<Decrypted, InvalidCiphertext>,
) -> bool {
    match mode {
        CipherMode::Rsa(key, padding) => match rsa_open_bytes(key, padding, input) {
            Some(plain) => r matches Ok(Decrypted::Plain(buf)) && buffer_bytes(buf) == plain,
            None => r is Err,
        },
        CipherMode::Cwc(key) => if input.len() < CWC_OVERHEAD {
            r is Err
        } else {
            r matches Ok(Decrypted::Open(request)) && request@ == cwc_open_request(key@, input)
        },
    }
}

/// Whether `r` is what [`encrypt`] owes for `input` under `mode`. Under CWC
/// the nonce of the request is whatever was drawn.
pub open spec fn encrypt_result(
    mode: CipherMode,
    input: Seq<u8>,
    r: Result<Encrypted, InvalidCiphertext>,
) -> bool {
    match mode {
        CipherMode::Rsa(key, padding) => match rsa_seal_bytes(key, padding, input) {
            Some(sealed) => r matches Ok(Encrypted::Sealed(buf)) && buffer_bytes(buf) == sealed,
            None => r is Err,
        },
        CipherMode::Cwc(key) => r matches Ok(Encrypted::Seal(request)) && request.key@ == key@
            && request.plaintext@ == input,
    }
}

/// Opens `input` under `mode`.
///
/// Under RSA the result is the plaintext that OpenSSL recovers, cut to the
/// length it reports, or [`InvalidCiphertext`] where it reports an error.
/// Under CWC an input shorter than nonce and tag is [`InvalidCiphertext`];
/// any other is split at the fixed offsets into the request to open.
pub fn decrypt(mode: &CipherMode, input: &[u8]) -> (r: Result<Decrypted, InvalidCiphertext>)
    ensures
        decrypt_result(*mode, input@, r),
{
    match mode {
        CipherMode::Rsa(key, padding) => {
            let size = rsa_size(key);
            if input.len() > i32::MAX as usize || size > i32::MAX as u32 {
                return Err(InvalidCiphertext);
            }
            let mut decrypted_data = buf_with_capacity(size as usize);
            buf_resize(&mut decrypted_data, size as usize, 0);
            match rsa_private_decrypt(key, input, &mut decrypted_data, padding.raw()) {
                Ok(decrypted_len) => {
                    buf_truncate(&mut decrypted_data, decrypted_len);
                    Ok(Decrypted::Plain(decrypted_data))
                },
                Err(_) => Err(InvalidCiphertext),
            }
        },
        CipherMode::Cwc(key) => {
            if input.len() < CWC_OVERHEAD {
                return Err(InvalidCiphertext);
            }
            let nonce = array_of::<11>(input, 0);
            let tag = array_of::<16>(input, CWC_NONCE_LEN);
            let body = slice_to_vec(slice_subrange(input, CWC_OVERHEAD, input.len()));
            Ok(Decrypted::Open(OpenRequest { key: *key, nonce, tag, body }))
        },
    }
}

/// The plaintext that the embedding program's CWC primitive opened, or
/// [`InvalidCiphertext`] where it refused the tag.
pub fn opened(outcome: Option<Vec<u8>>) -> (r: Result<BytesMut, InvalidCiphertext>)
    ensures
        match outcome {
            Some(plain) => r matches Ok(buf) && buffer_bytes(buf) == plain@,
            None => r is Err,
        },
{
    match outcome {
        Some(plain) => Ok(buf_from_slice(plain.as_slice())),
        None => Err(InvalidCiphertext),
    }
}

/// Seals `input` under `mode`.
///
/// Under RSA the result is the block that OpenSSL writes, cut to the length
/// it reports, or [`InvalidCiphertext`] where it reports an error. Under CWC
/// it is the request to seal, with a nonce drawn for it.
pub fn encrypt(mode: &CipherMode, input: &[u8]) -> (r: Result<Encrypted, InvalidCiphertext>)
    ensures
        encrypt_result(*mode, input@, r),
{
    match mode {
        CipherMode::Rsa(key, padding) => {
            let size = rsa_size(key);
            if input.len() > i32::MAX as usize || size > i32::MAX as u32 {
                return Err(InvalidCiphertext);
            }
            let mut encrypted_data = buf_with_capacity(size as usize);
            buf_resize(&mut encrypted_data, size as usize, 0);
            match rsa_private_encrypt(key, input, &mut encrypted_data, padding.raw()) {
                Ok(encrypted_len) => {
                    buf_truncate(&mut encrypted_data, encrypted_len);
                    Ok(Encrypted::Sealed(encrypted_data))
                },
                Err(_) => Err(InvalidCiphertext),
            }
        },
        CipherMode::Cwc(key) => {
            let nonce = random_nonce();
            Ok(Encrypted::Seal(SealRequest { key: *key, nonce, plaintext: slice_to_vec(input) }))
        },
    }
}

} // verus!
