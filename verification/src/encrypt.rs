use vstd::prelude::*;
use crate::cipher::{
    cbc_ciphertext, cbc_encrypt_padded, cbc_encryptor, gcm_cipher, gcm_encrypt, gcm_key, gcm_nonce,
    gcm_sealed, nonce_bytes, GcmCipher, GcmNonce,
};
use crate::error::BenchError;
use crate::sizes::{padded_len, sealable, sealed_fits, sealed_len, NONCE_SIZE};

verus! {

/// What keeps a message of `len` bytes from being encrypted in CBC mode into
/// a buffer of `capacity` bytes, if anything does. The key and the
/// initialisation vector are looked at first, the buffer after them.
pub open spec fn cbc_fault(len: nat, key_len: nat, iv_len: nat, capacity: nat) -> Option<BenchError> {
    if key_len != 16 || iv_len != 16 {
        Some(BenchError::InvalidLength)
    } else if padded_len(len) > capacity {
        Some(BenchError::BufferTooSmall)
    } else {
        None
    }
}

/// What keeps a message of `len` bytes from being sealed in GCM mode, if
/// anything does. The nonce and the key are looked at first, the message
/// after them.
pub open spec fn gcm_fault(len: nat, key_len: nat, nonce_len: nat) -> Option<BenchError> {
    if nonce_len != 16 || key_len != 16 {
        Some(BenchError::InvalidLength)
    } else if !sealable(len) {
        Some(BenchError::MessageTooLong)
    } else {
        None
    }
}

/// Encrypts one message in CBC mode with PKCS#7 padding, with an encryptor
/// made for it from `key` and `iv`. The ciphertext is written to the front of
/// `buf`, whose other bytes stay, and its length is returned. On a fault
/// `buf` is left as it was.
pub fn cbc_encrypt(data: &[u8], key: &[u8], iv: &[u8], buf: &mut Vec<u8>) -> (r: Result<usize, BenchError>)
    ensures
        match r {
            Ok(n) => {
                &&& cbc_fault(data@.len(), key@.len(), iv@.len(), old(buf)@.len()) is None
                &&& n == padded_len(data@.len())
                &&& final(buf)@ == cbc_ciphertext(key@, iv@, data@) + old(buf)@.skip(n as int)
                &&& final(buf)@.len() == old(buf)@.len()
            },
            Err(e) => {
                &&& cbc_fault(data@.len(), key@.len(), iv@.len(), old(buf)@.len()) == Some(e)
                &&& final(buf)@ == old(buf)@
            },
        },
{
    let encryptor = match cbc_encryptor(key, iv) {
        Ok(encryptor) => encryptor,
        Err(_) => {
            return Err(BenchError::InvalidLength);
        },
    };
    match cbc_encrypt_padded(encryptor, data, buf.as_mut_slice()) {
        Ok(ct) => Ok(ct.len()),
        Err(_) => Err(BenchError::BufferTooSmall),
    }
}

/// A GCM cipher and the nonce it seals under, made once for many messages.
///
/// To seal more than one message under one nonce and key voids what the mode
/// promises: a sealer is for measuring, and what it seals is to go nowhere.
pub struct Sealer {
    cipher: GcmCipher,
    nonce: GcmNonce,
}

impl Sealer {
    /// The key that this sealer was made from.
    pub closed spec fn key(&self) -> Seq<u8> {
        gcm_key(self.cipher)
    }

    /// The nonce that this sealer was made from.
    pub closed spec fn nonce(&self) -> Seq<u8> {
        nonce_bytes(self.nonce)
    }

    /// Makes the nonce from `iv`, then the cipher from `key`. Both must be 16
    /// bytes long.
    pub fn new(key: &[u8], iv: &[u8]) -> (r: Result<Sealer, BenchError>)
        ensures
            match r {
                Ok(sealer) => key@.len() == 16 && iv@.len() == 16 && sealer.key() == key@ && sealer.nonce() == iv@,
                Err(e) => e == BenchError::InvalidLength && (key@.len() != 16 || iv@.len() != 16),
            },
    {
        if iv.len() != NONCE_SIZE {
            return Err(BenchError::InvalidLength);
        }
        let nonce = gcm_nonce(iv);
        match gcm_cipher(key) {
            Ok(cipher) => Ok(Sealer { cipher, nonce }),
            Err(_) => Err(BenchError::InvalidLength),
        }
    }

    /// Seals one message: the ciphertext, followed by the tag.
    pub fn seal(&self, data: &[u8]) -> (r: Result<Vec<u8>, BenchError>)
        ensures
            match r {
                Ok(ct) => {
                    &&& sealable(data@.len())
                    &&& ct@ == gcm_sealed(self.key(), self.nonce(), data@)
                    &&& ct@.len() == sealed_len(data@.len())
                },
                Err(e) => e == BenchError::MessageTooLong && !sealable(data@.len()),
            },
    {
        if !sealed_fits(data.len()) {
            return Err(BenchError::MessageTooLong);
        }
        match gcm_encrypt(&self.cipher, &self.nonce, data) {
            Ok(ct) => Ok(ct),
            Err(_) => Err(BenchError::MessageTooLong),
        }
    }
}

/// Seals one message in GCM mode, with a nonce and a cipher made for it from
/// `iv` and `key`: the ciphertext, followed by the tag.
pub fn gcm_seal(data: &[u8], key: &[u8], iv: &[u8]) -> (r: Result<Vec<u8>, BenchError>)
    ensures
        match r {
            Ok(ct) => {
                &&& gcm_fault(data@.len(), key@.len(), iv@.len()) is None
                &&& ct@ == gcm_sealed(key@, iv@, data@)
                &&& ct@.len() == sealed_len(data@.len())
            },
            Err(e) => gcm_fault(data@.len(), key@.len(), iv@.len()) == Some(e),
        },
{
    match Sealer::new(key, iv) {
        Ok(sealer) => sealer.seal(data),
        Err(fault) => Err(fault),
    }
}

} // verus!
