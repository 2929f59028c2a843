//! AEAD cipher used to seal and unseal the access token.
//!
//! A `CryptoBox` is built from exactly 32 key bytes and offers
//! encrypt/decrypt of strings. Encryption draws a fresh 12-byte nonce for
//! every call; decryption authenticates the pair and fails on any
//! tampering. The cipher itself is an outside implementation; what it
//! computes is named by [`unseal_of`] and every contract here is stated
//! over that name and vstd's UTF-8 model.

use vstd::prelude::*;

use chacha20poly1305::aead::{Aead, KeyInit, OsRng};
use chacha20poly1305::{AeadCore, ChaCha20Poly1305, Key, Nonce};
use vstd::string::StrSliceExecFns;
use vstd::utf8::{decode_utf8, encode_utf8, valid_utf8};

verus! {

#[derive(Debug, Clone, Copy, PartialEq, Eq, Structural)]
pub enum CryptoError {
    InvalidKey,
    InvalidNonceLen(usize),
    Encrypt,
    Decrypt,
}

pub trait Crypto {
    fn encrypt_string(&self, plaintext: &str) -> Result<(Vec<u8>, Vec<u8>), CryptoError>;

    fn decrypt_string(&self, ciphertext: &[u8], nonce_bytes: &[u8]) -> Result<
        String,
        CryptoError,
    >;
}

/// What the AEAD cipher returns when opening `ciphertext` under `key` and
/// `nonce`: the sealed plaintext bytes, or nothing when authentication
/// fails. Opening is deterministic in its three arguments, so the result
/// can be given a name even though no short formula states it.
pub uninterp spec fn unseal_of(key: Seq<u8>, nonce: Seq<u8>, ciphertext: Seq<u8>) -> Option<
    Seq<u8>,
>;

/// A sealed pair is one that opens, under `key`, to the UTF-8 bytes of
/// the plaintext it was made from.
pub open spec fn seals(key: Seq<u8>, plaintext: Seq<char>, ciphertext: Seq<u8>, nonce: Seq<u8>) -> bool {
    &&& nonce.len() == 12
    &&& unseal_of(key, nonce, ciphertext) == Some(encode_utf8(plaintext))
}

/// What decrypting `ciphertext` with `nonce` under `key` yields: the exact
/// success and failure taxonomy of [`CryptoBox::decrypt_string`].
pub open spec fn unseal_string_spec(key: Seq<u8>, nonce: Seq<u8>, ciphertext: Seq<u8>) -> Result<
    Seq<char>,
    CryptoError,
> {
    if nonce.len() != 12 {
        Err(CryptoError::InvalidNonceLen(nonce.len() as usize))
    } else {
        match unseal_of(key, nonce, ciphertext) {
            Some(plaintext) => if valid_utf8(plaintext) {
                Ok(decode_utf8(plaintext))
            } else {
                Err(CryptoError::Decrypt)
            },
            None => Err(CryptoError::Decrypt),
        }
    }
}

/// Relies on chacha20poly1305 (ChaCha20Poly1305::encrypt with a nonce from
/// AeadCore::generate_nonce): the nonce is 12 bytes drawn fresh from the OS
/// RNG, and decrypting the ciphertext under the same key and nonce returns
/// the plaintext.
#[verifier::external_body]
fn aead_seal(key: &Vec<u8>, plaintext: &Vec<u8>) -> (r: Result<(Vec<u8>, Vec<u8>), CryptoError>)
    requires
        key@.len() == 32,
    ensures
        r matches Ok(pair) ==> pair.1@.len() == 12 && unseal_of(key@, pair.1@, pair.0@) == Some(
            plaintext@,
        ),
        r matches Err(e) ==> e == CryptoError::Encrypt,
{
    let cipher = ChaCha20Poly1305::new(Key::from_slice(key.as_slice()));
    let nonce = ChaCha20Poly1305::generate_nonce(&mut OsRng);
    match cipher.encrypt(&nonce, plaintext.as_slice()) {
        Ok(ciphertext) => Ok((ciphertext, nonce.to_vec())),
        Err(_) => Err(CryptoError::Encrypt),
    }
}

/// Relies on chacha20poly1305 (ChaCha20Poly1305::decrypt): deterministic in
/// key, nonce and ciphertext; fails exactly when the pair does not
/// authenticate under the key.
#[verifier::external_body]
fn aead_open(key: &Vec<u8>, nonce: &[u8], ciphertext: &[u8]) -> (r: Result<Vec<u8>, CryptoError>)
    requires
        key@.len() == 32,
        nonce@.len() == 12,
    ensures
        r matches Ok(plaintext) ==> unseal_of(key@, nonce@, ciphertext@) == Some(plaintext@),
        r matches Err(e) ==> unseal_of(key@, nonce@, ciphertext@) is None && e
            == CryptoError::Decrypt,
{
    let cipher = ChaCha20Poly1305::new(Key::from_slice(key.as_slice()));
    match cipher.decrypt(Nonce::from_slice(nonce), ciphertext) {
        Ok(plaintext) => Ok(plaintext),
        Err(_) => Err(CryptoError::Decrypt),
    }
}

/// Relies on String::from_utf8: succeeds exactly on valid UTF-8 input and
/// returns the decoded characters.
#[verifier::external_body]
fn string_from_utf8(bytes: Vec<u8>) -> (r: Option<String>)
    ensures
        match r {
            Some(s) => valid_utf8(bytes@) && s@ == decode_utf8(bytes@),
            None => !valid_utf8(bytes@),
        },
{
    match String::from_utf8(bytes) {
        Ok(s) => Some(s),
        Err(_) => None,
    }
}

/// Stateless AEAD primitive over a fixed 32-byte key.
pub struct CryptoBox {
    key: Vec<u8>,
}

impl CryptoBox {
    /// The key bytes this cipher was built from.
    pub closed spec fn key_bytes(&self) -> Seq<u8> {
        self.key@
    }

    #[verifier::type_invariant]
    spec fn wf(self) -> bool {
        self.key@.len() == 32
    }

    /// Accepts exactly 32 key bytes.
    pub fn new(key_bytes: &[u8]) -> (r: Result<Self, CryptoError>)
        ensures
            key_bytes@.len() == 32 ==> (r matches Ok(c) && c.key_bytes() == key_bytes@),
            key_bytes@.len() != 32 ==> r == Err::<CryptoBox, CryptoError>(CryptoError::InvalidKey),
    {
        if key_bytes.len() != 32 {
            return Err(CryptoError::InvalidKey);
        }
        let key = vstd::slice::slice_to_vec(key_bytes);
        Ok(CryptoBox { key })
    }

    /// Seals the UTF-8 bytes of `plaintext` under a fresh random nonce and
    /// returns the `(ciphertext, nonce)` pair.
    pub fn encrypt_string(&self, plaintext: &str) -> (r: Result<(Vec<u8>, Vec<u8>), CryptoError>)
        ensures
            r matches Ok(pair) ==> seals(self.key_bytes(), plaintext@, pair.0@, pair.1@),
            r matches Err(e) ==> e == CryptoError::Encrypt,
    {
        proof {
            use_type_invariant(self);
        }
        let plaintext_bytes = plaintext.as_bytes_vec();
        aead_seal(&self.key, &plaintext_bytes)
    }

    /// Opens a `(ciphertext, nonce)` pair: rejects a nonce that is not 12
    /// bytes, then fails exactly when the pair does not authenticate or the
    /// sealed bytes are not valid UTF-8.
    pub fn decrypt_string(&self, ciphertext: &[u8], nonce_bytes: &[u8]) -> (r: Result<
        String,
        CryptoError,
    >)
        ensures
            match unseal_string_spec(self.key_bytes(), nonce_bytes@, ciphertext@) {
                Ok(t) => r matches Ok(s) && s@ == t,
                Err(e) => r == Err::<String, CryptoError>(e),
            },
    {
        proof {
            use_type_invariant(self);
        }
        if nonce_bytes.len() != 12 {
            return Err(CryptoError::InvalidNonceLen(nonce_bytes.len()));
        }
        let plaintext_bytes = match aead_open(&self.key, nonce_bytes, ciphertext) {
            Ok(b) => b,
            Err(e) => {
                return Err(e);
            },
        };
        match string_from_utf8(plaintext_bytes) {
            Some(s) => Ok(s),
            None => Err(CryptoError::Decrypt),
        }
    }
}

impl Crypto for CryptoBox {
    fn encrypt_string(&self, plaintext: &str) -> Result<(Vec<u8>, Vec<u8>), CryptoError> {
        CryptoBox::encrypt_string(self, plaintext)
    }

    fn decrypt_string(&self, ciphertext: &[u8], nonce_bytes: &[u8]) -> Result<
        String,
        CryptoError,
    > {
        CryptoBox::decrypt_string(self, ciphertext, nonce_bytes)
    }
}

/// Round trip: decrypting what `encrypt_string` sealed gives the plaintext
/// back, for every string and every 32-byte key. The only failure the pair
/// of calls can show is the cipher refusing to seal.
pub fn encrypt_then_decrypt(cipher: &CryptoBox, plaintext: &str) -> (r: Result<String, CryptoError>)
    ensures
        r matches Ok(s) ==> s@ == plaintext@,
        r matches Err(e) ==> e == CryptoError::Encrypt,
{
    let (ciphertext, nonce) = match cipher.encrypt_string(plaintext) {
        Ok(pair) => pair,
        Err(e) => {
            return Err(e);
        },
    };
    proof {
        vstd::utf8::encode_utf8_valid_utf8(plaintext@);
        vstd::utf8::encode_utf8_decode_utf8(plaintext@);
    }
    cipher.decrypt_string(ciphertext.as_slice(), nonce.as_slice())
}

} // verus!
