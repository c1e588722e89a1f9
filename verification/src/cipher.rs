use vstd::prelude::*;
use vstd::utf8::encode_utf8;
use crate::error::Error;
use aes_gcm_siv::aead::Aead;
use aes_gcm_siv::{Aes256GcmSiv, KeyInit, Nonce};
use argon2::{Argon2, PasswordHasher};

verus! {

/// The 32-byte symmetric key that the memory-hard password hash
/// derives from a password, under the engine's fixed salt and default
/// parameters.  Names the hash output of Argon2::hash_password_with_salt.
pub uninterp spec fn stretched_of(password: Seq<char>) -> Seq<u8>;

/// The canonical string encoding of the same password hash (a PHC
/// string), stored as the wallet's password-verification hash.
pub uninterp spec fn phc_string_of(password: Seq<char>) -> Seq<char>;

/// The ciphertext (with trailing authentication tag) that the AEAD
/// produces for a key and plaintext under the engine's fixed nonce.
/// Names the result of Aes256GcmSiv::encrypt.
pub uninterp spec fn ct_of(key: Seq<u8>, plaintext: Seq<u8>) -> Seq<u8>;

/// The plaintext that the AEAD recovers from a key and ciphertext under
/// the engine's fixed nonce, or None where authentication fails.  Names
/// the result of Aes256GcmSiv::decrypt.
pub uninterp spec fn pt_of(key: Seq<u8>, ciphertext: Seq<u8>) -> Option<Seq<u8>>;

/// Relies on argon2::Argon2::hash_password_with_salt with the fixed
/// 18-byte salt and default parameters: the hash output is 32 bytes and
/// a deterministic function of the password, as is the PHC string form.
/// A PHC string is ASCII ('$'-separated identifiers, decimal numbers
/// and base64 text) and its bounded pieces keep it under 512 characters.
/// The call rejects only passwords over u32::MAX bytes; like the rest
/// of the verified code, the success clause takes the allocation of the
/// hash's working memory to succeed.
#[verifier::external_body]
fn stretch_password_raw(password: &str) -> (r: Option<(Vec<u8>, String)>)
    ensures
        r matches Some(p) ==> p.0@ == stretched_of(password@) && p.0@.len() == 32 && p.1@
            == phc_string_of(password@) && vstd::utf8::is_ascii_chars(p.1@) && p.1@.len() <= 512,
        encode_utf8(password@).len() <= 0xffff_ffff ==> r is Some,
{
    let argon = Argon2::default();
    let ph = match argon.hash_password_with_salt(password.as_bytes(), b"walletwalletwallet") {
        Ok(ph) => ph,
        Err(_) => return None,
    };
    let hash = match &ph.hash {
        Some(h) => h.as_bytes().to_vec(),
        None => return None,
    };
    Some((hash, ph.to_string()))
}

/// Relies on Aes256GcmSiv::encrypt under the fixed nonce (safe to reuse
/// only because the mode is nonce-misuse-resistant): the ciphertext is
/// deterministic in key and plaintext, 16 bytes (the tag) longer than
/// the plaintext, fails only on plaintexts beyond the mode's size cap,
/// and decrypts back to the plaintext under the same key.
#[verifier::external_body]
fn aead_encrypt(key: &Vec<u8>, plaintext: &Vec<u8>) -> (r: Option<Vec<u8>>)
    requires
        key@.len() == 32,
    ensures
        r matches Some(c) ==> c@ == ct_of(key@, plaintext@) && c@.len() == plaintext@.len() + 16
            && pt_of(key@, c@) == Some(plaintext@),
        plaintext@.len() <= 0x10_0000_0000 ==> r is Some,
{
    let cipher = match Aes256GcmSiv::new_from_slice(key.as_slice()) {
        Ok(c) => c,
        Err(_) => return None,
    };
    let nonce = Nonce::from(*b"unique nonce");
    match cipher.encrypt(&nonce, plaintext.as_slice()) {
        Ok(c) => Some(c),
        Err(_) => None,
    }
}

/// Relies on Aes256GcmSiv::decrypt under the fixed nonce: it verifies
/// the authentication tag and returns the plaintext exactly when the
/// ciphertext is authentic for the key; any mismatch is one failure.
#[verifier::external_body]
fn aead_decrypt(key: &Vec<u8>, ciphertext: &Vec<u8>) -> (r: Option<Vec<u8>>)
    requires
        key@.len() == 32,
    ensures
        r matches Some(p) ==> pt_of(key@, ciphertext@) == Some(p@) && ciphertext@.len() == p@.len()
            + 16,
        r is None ==> pt_of(key@, ciphertext@) is None,
{
    let cipher = match Aes256GcmSiv::new_from_slice(key.as_slice()) {
        Ok(c) => c,
        Err(_) => return None,
    };
    let nonce = Nonce::from(*b"unique nonce");
    match cipher.decrypt(&nonce, ciphertext.as_slice()) {
        Ok(p) => Some(p),
        Err(_) => None,
    }
}

/// Stretches a password into the 32-byte symmetric key and the stored
/// verification hash.  Deterministic: every call for one password gives
/// the same pair.
pub fn stretch(password: &str) -> (r: Result<(Vec<u8>, String), Error>)
    ensures
        r matches Ok(p) ==> p.0@ == stretched_of(password@) && p.0@.len() == 32 && p.1@
            == phc_string_of(password@) && vstd::utf8::is_ascii_chars(p.1@) && p.1@.len() <= 512,
        encode_utf8(password@).len() <= 0xffff_ffff ==> r is Ok,
        r matches Err(e) ==> e == Error::EncryptionFailed,
{
    match stretch_password_raw(password) {
        Some(p) => Ok(p),
        None => Err(Error::EncryptionFailed),
    }
}

/// Encrypts entropy under a password: the password is stretched to the
/// symmetric key, and the authenticated ciphertext (16 bytes longer
/// than the input) decrypts back to the input under the same password.
pub fn encrypt(entropy: &Vec<u8>, password: &str) -> (r: Result<Vec<u8>, Error>)
    ensures
        r matches Ok(c) ==> c@ == ct_of(stretched_of(password@), entropy@) && c@.len()
            == entropy@.len() + 16 && pt_of(stretched_of(password@), c@) == Some(entropy@),
        encode_utf8(password@).len() <= 0xffff_ffff && entropy@.len() <= 0x10_0000_0000 ==> r
            is Ok,
        r matches Err(e) ==> e == Error::EncryptionFailed,
{
    let (key, _hash) = match stretch(password) {
        Ok(p) => p,
        Err(_) => {
            return Err(Error::EncryptionFailed);
        },
    };
    match aead_encrypt(&key, entropy) {
        Some(c) => Ok(c),
        None => Err(Error::EncryptionFailed),
    }
}

/// Decrypts a ciphertext under a password.  Exactly one error kind
/// covers a wrong password and a tampered ciphertext: the construction
/// does not tell them apart.
pub fn decrypt(ciphertext: &Vec<u8>, password: &str) -> (r: Result<Vec<u8>, Error>)
    ensures
        r matches Ok(p) ==> pt_of(stretched_of(password@), ciphertext@) == Some(p@),
        encode_utf8(password@).len() <= 0xffff_ffff && pt_of(stretched_of(password@), ciphertext@)
            is Some ==> r is Ok,
        r matches Err(e) ==> e == Error::DecryptionFailed,
{
    let (key, _hash) = match stretch(password) {
        Ok(p) => p,
        Err(_) => {
            return Err(Error::DecryptionFailed);
        },
    };
    match aead_decrypt(&key, ciphertext) {
        Some(p) => Ok(p),
        None => Err(Error::DecryptionFailed),
    }
}

} // verus!
