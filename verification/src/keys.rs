use vstd::prelude::*;
use crate::error::Error;
use sn_bls_ckd::{derive_child_sk, derive_master_sk};
use sn_curv::elliptic::curves::bls12_381::g1::GE1;
use sn_curv::elliptic::curves::bls12_381::scalar::FieldScalar;
use sn_curv::elliptic::curves::{ECPoint, ECScalar};

verus! {

/// The master secret key scalar derived from a seed, as 32 big-endian
/// bytes.  Names the result of sn_bls_ckd::derive_master_sk.
pub uninterp spec fn master_sk_of(seed: Seq<u8>) -> Seq<u8>;

/// The child secret key scalar for derivation path m/index, as 32
/// big-endian bytes.  Names the result of sn_bls_ckd::derive_child_sk.
pub uninterp spec fn child_sk_of(parent: Seq<u8>, index: u32) -> Seq<u8>;

/// The compressed public key point for a secret key scalar, as 48
/// bytes.  Names the result of generator multiplication on BLS12-381 G1.
pub uninterp spec fn pubkey_of(sk: Seq<u8>) -> Seq<u8>;

/// True of the byte strings that FieldScalar::deserialize accepts:
/// 32 big-endian bytes below the group order.
pub uninterp spec fn scalar_wf(k: Seq<u8>) -> bool;

/// The compressed public key for address index `index` of the wallet
/// whose key material comes from `seed`.
pub open spec fn address_of(seed: Seq<u8>, index: u32) -> Seq<u8> {
    pubkey_of(child_sk_of(master_sk_of(seed), index))
}

/// Relies on sn_bls_ckd::derive_master_sk: deterministic in the seed,
/// fails exactly when the seed is shorter than 32 bytes, and returns a
/// nonzero scalar, serialized by FieldScalar::serialize as 32 bytes.
#[verifier::external_body]
fn master_key_from_seed(seed: &Vec<u8>) -> (r: Option<Vec<u8>>)
    ensures
        r matches Some(k) ==> k@ == master_sk_of(seed@) && k@.len() == 32 && scalar_wf(k@),
        r is Some <==> seed@.len() >= 32,
{
    match derive_master_sk(seed.as_slice()) {
        Ok(sk) => Some(sk.serialize().to_vec()),
        Err(_) => None,
    }
}

/// Relies on sn_bls_ckd::derive_child_sk with path "m/<index>":
/// deterministic in the parent scalar and the index.  The parent bytes
/// go through FieldScalar::deserialize, which accepts exactly the
/// byte strings scalar_wf describes; the result is serialized back by
/// FieldScalar::serialize.
#[verifier::external_body]
fn child_key_bytes(parent: &Vec<u8>, index: u32) -> (r: Option<Vec<u8>>)
    ensures
        r matches Some(k) ==> k@ == child_sk_of(parent@, index) && k@.len() == 32 && scalar_wf(k@),
        scalar_wf(parent@) ==> r is Some,
{
    let sk = match FieldScalar::deserialize(parent.as_slice()) {
        Ok(s) => s,
        Err(_) => return None,
    };
    let path = format!("m/{}", index);
    let child = derive_child_sk(sk, &path);
    Some(child.serialize().to_vec())
}

/// Relies on ECPoint::generator_mul for BLS12-381 G1 and on
/// GE1::serialize_compressed, which always yields 48 bytes.  The secret
/// key bytes go through FieldScalar::deserialize, which accepts exactly
/// the byte strings scalar_wf describes.
#[verifier::external_body]
fn public_key_bytes(sk: &Vec<u8>) -> (r: Option<Vec<u8>>)
    ensures
        r matches Some(p) ==> p@ == pubkey_of(sk@) && p@.len() == 48,
        scalar_wf(sk@) ==> r is Some,
{
    let s = match FieldScalar::deserialize(sk.as_slice()) {
        Ok(s) => s,
        Err(_) => return None,
    };
    let point: GE1 = ECPoint::generator_mul(&s);
    Some(point.serialize_compressed().to_vec())
}

/// Derives the wallet's master secret key from a seed.  Deterministic;
/// fails exactly when the seed is shorter than 32 bytes.
pub fn derive_master_key(seed: &Vec<u8>) -> (r: Result<Vec<u8>, Error>)
    ensures
        r matches Ok(k) ==> k@ == master_sk_of(seed@) && k@.len() == 32 && scalar_wf(k@),
        r is Ok <==> seed@.len() >= 32,
        r matches Err(e) ==> e == Error::KeyDerivationFailed,
{
    match master_key_from_seed(seed) {
        Some(k) => Ok(k),
        None => Err(Error::KeyDerivationFailed),
    }
}

/// Derives the child secret key for path m/index.  Deterministic in
/// (master, index); succeeds on every scalar that master key or child
/// key derivation produced.
pub fn derive_child_key(master: &Vec<u8>, index: u32) -> (r: Result<Vec<u8>, Error>)
    ensures
        r matches Ok(k) ==> k@ == child_sk_of(master@, index) && k@.len() == 32 && scalar_wf(k@),
        scalar_wf(master@) ==> r is Ok,
        r matches Err(e) ==> e == Error::KeyDerivationFailed,
{
    match child_key_bytes(master, index) {
        Some(k) => Ok(k),
        None => Err(Error::KeyDerivationFailed),
    }
}

/// Maps a secret key scalar to its compressed public key: scalar
/// multiplication by the curve generator, serialized as 48 bytes.
pub fn to_public_key(sk: &Vec<u8>) -> (r: Result<Vec<u8>, Error>)
    ensures
        r matches Ok(p) ==> p@ == pubkey_of(sk@) && p@.len() == 48,
        scalar_wf(sk@) ==> r is Ok,
        r matches Err(e) ==> e == Error::KeyDerivationFailed,
{
    match public_key_bytes(sk) {
        Some(p) => Ok(p),
        None => Err(Error::KeyDerivationFailed),
    }
}

} // verus!
