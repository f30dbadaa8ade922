//! The ciphers that the benchmark times: AES-128 in CBC mode with PKCS#7
//! padding, and AES-128 in GCM mode with a 16-byte nonce and a 16-byte tag.
//!
//! Nothing in this file is proved. Each function hands its arguments to the
//! cipher crates, and its contract says what their sources show of the call.
use vstd::prelude::*;
use crate::sizes::{padded_len, sealed_len, MAX_SEALED_MESSAGE};
use aes::cipher::InvalidLength;
use aes::cipher::inout::PadError;

verus! {

#[verifier::external_type_specification]
#[verifier::external_body]
pub struct ExInvalidLength(InvalidLength);

#[verifier::external_type_specification]
#[verifier::external_body]
pub struct ExPadError(PadError);

#[verifier::external_type_specification]
#[verifier::external_body]
pub struct ExSealError(aes_gcm::aead::Error);

/// `cbc::Encryptor<aes::Aes128>`: an AES-128 encryptor in CBC mode, keyed and
/// set to its initialisation vector. Its generic declaration is bound by traits
/// of the cipher crates, so it is held here, out of the verifier's sight.
#[verifier::external_body]
pub struct CbcEncryptor {
    inner: cbc::Encryptor<aes::Aes128>,
}

/// `aes_gcm::AesGcm<aes::Aes128, U16>`: a keyed AES-128 cipher in GCM mode that
/// takes 16-byte nonces and makes 16-byte tags. Held as `CbcEncryptor` is.
#[verifier::external_body]
pub struct GcmCipher {
    inner: aes_gcm::AesGcm<aes::Aes128, aes_gcm::aead::consts::U16>,
}

/// `aes_gcm::Nonce<U16>`: the 16 bytes of a nonce, in the array type that the
/// GCM cipher takes them in. Held as `CbcEncryptor` is.
#[verifier::external_body]
pub struct GcmNonce {
    inner: aes_gcm::Nonce<aes_gcm::aead::consts::U16>,
}

/// The key and the initialisation vector that a CBC encryptor was made from.
pub uninterp spec fn cbc_inputs(enc: CbcEncryptor) -> (Seq<u8>, Seq<u8>);

/// The key that a GCM cipher was made from.
pub uninterp spec fn gcm_key(cipher: GcmCipher) -> Seq<u8>;

/// The bytes that a nonce holds.
pub uninterp spec fn nonce_bytes(nonce: GcmNonce) -> Seq<u8>;

/// The CBC encryption under `key` and `iv` of `msg`, padded by PKCS#7.
pub uninterp spec fn cbc_ciphertext(key: Seq<u8>, iv: Seq<u8>, msg: Seq<u8>) -> Seq<u8>;

/// The GCM encryption under `key` and `nonce` of `msg`, with no associated
/// data: the ciphertext, followed by the tag.
pub uninterp spec fn gcm_sealed(key: Seq<u8>, nonce: Seq<u8>, msg: Seq<u8>) -> Seq<u8>;

/// `KeyIvInit::new_from_slices` on `cbc::Encryptor<aes::Aes128>`. It compares
/// both lengths with the cipher's 16 and fails on a mismatch; otherwise it
/// makes the encryptor from exactly these bytes.
#[verifier::external_body]
pub(crate) fn cbc_encryptor(key: &[u8], iv: &[u8]) -> (r: Result<CbcEncryptor, InvalidLength>)
    ensures
        r.is_ok() <==> (key@.len() == 16 && iv@.len() == 16),
        r matches Ok(enc) ==> cbc_inputs(enc) == (key@, iv@),
{
    match aes::cipher::KeyIvInit::new_from_slices(key, iv) {
        Ok(inner) => Ok(CbcEncryptor { inner }),
        Err(e) => Err(e),
    }
}

/// `BlockEncryptMut::encrypt_padded_b2b_mut` with `Pkcs7` padding. It fails,
/// before it writes anything, where `out` is shorter than the whole blocks of
/// `msg` and one more; otherwise it writes the ciphertext to the front of `out`,
/// leaves the bytes behind it alone, and returns that front.
#[verifier::external_body]
pub(crate) fn cbc_encrypt_padded<'a>(enc: CbcEncryptor, msg: &[u8], out: &'a mut [u8]) -> (r: Result<&'a [u8], PadError>)
    ensures
        r.is_ok() <==> padded_len(msg@.len()) <= old(out)@.len(),
        r matches Ok(ct) ==> ct@ == cbc_ciphertext(cbc_inputs(enc).0, cbc_inputs(enc).1, msg@),
        r matches Ok(ct) ==> ct@.len() == padded_len(msg@.len()),
        r matches Ok(ct) ==> final(out)@ == ct@ + old(out)@.skip(ct@.len() as int),
        r is Err ==> final(out)@ == old(out)@,
{
    aes::cipher::BlockEncryptMut::encrypt_padded_b2b_mut::<aes::cipher::block_padding::Pkcs7>(enc.inner, msg, out)
}

/// `GenericArray::clone_from_slice` at length 16. It copies the bytes, and
/// panics on a slice of another length, which `requires` leaves out.
#[verifier::external_body]
pub(crate) fn gcm_nonce(iv: &[u8]) -> (nonce: GcmNonce)
    requires
        iv@.len() == 16,
    ensures
        nonce_bytes(nonce) == iv@,
{
    GcmNonce { inner: aes_gcm::Nonce::<aes_gcm::aead::consts::U16>::clone_from_slice(iv) }
}

/// `KeyInit::new_from_slice` on `AesGcm<Aes128, U16>`. It compares the length
/// with the cipher's 16 and fails on a mismatch; otherwise it makes the cipher
/// from exactly these bytes.
#[verifier::external_body]
pub(crate) fn gcm_cipher(key: &[u8]) -> (r: Result<GcmCipher, InvalidLength>)
    ensures
        r.is_ok() <==> key@.len() == 16,
        r matches Ok(cipher) ==> gcm_key(cipher) == key@,
{
    match aes_gcm::KeyInit::new_from_slice(key) {
        Ok(inner) => Ok(GcmCipher { inner }),
        Err(e) => Err(e),
    }
}

/// `Aead::encrypt` with a plain message, so with no associated data. It
/// allocates room for the message and the tag (a panic where that is more than
/// `isize::MAX` bytes, which `requires` leaves out), fails on a message of more
/// than 2^36 bytes, and otherwise returns the ciphertext with the tag behind it.
#[verifier::external_body]
pub(crate) fn gcm_encrypt(cipher: &GcmCipher, nonce: &GcmNonce, msg: &[u8]) -> (r: Result<Vec<u8>, aes_gcm::aead::Error>)
    requires
        sealed_len(msg@.len()) <= isize::MAX,
    ensures
        r.is_ok() <==> msg@.len() <= MAX_SEALED_MESSAGE,
        r matches Ok(ct) ==> ct@ == gcm_sealed(gcm_key(*cipher), nonce_bytes(*nonce), msg@),
        r matches Ok(ct) ==> ct@.len() == sealed_len(msg@.len()),
{
    aes_gcm::aead::Aead::encrypt(&cipher.inner, &nonce.inner, msg)
}

} // verus!
