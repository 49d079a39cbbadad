//! Trusted boundary to the `bitcoin` crate's hashing and signing primitives.
//!
//! Every cryptographic value the engine handles is a plain byte vector; the
//! functions here are the only places where the outside crate touches them.

use vstd::prelude::*;

verus! {

/// The SHA-256 digest of a byte string, as computed by
/// `bitcoin::hashes::sha256`.
pub uninterp spec fn spec_sha256(data: Seq<u8>) -> Seq<u8>;

/// Whether a 32-byte string is a valid secp256k1 secret key, as decided by
/// `secp256k1::SecretKey::from_slice` (nonzero and below the curve order).
pub uninterp spec fn spec_valid_seckey(sk: Seq<u8>) -> bool;

/// The compressed secp256k1 public key derived from a valid secret key, as
/// computed by `secp256k1::PublicKey::from_secret_key`.
pub uninterp spec fn spec_pubkey_of(sk: Seq<u8>) -> Seq<u8>;

/// The compact ECDSA signature over a 32-byte digest under a valid secret
/// key, as computed by `secp256k1`'s deterministic (RFC 6979) signer.
pub uninterp spec fn spec_ecdsa_sig(digest: Seq<u8>, sk: Seq<u8>) -> Seq<u8>;

/// Whether `secp256k1::verify_ecdsa` accepts `sig` as a signature over
/// `digest` under the compressed public key `pk`; false whenever `pk` or
/// `sig` does not even parse.
pub uninterp spec fn spec_ecdsa_verifies(digest: Seq<u8>, pk: Seq<u8>, sig: Seq<u8>) -> bool;

/// Relies on `bitcoin::hashes::sha256::Hash::hash`: the digest depends on the
/// input bytes alone and is always 32 bytes long.
#[verifier::external_body]
pub fn sha256(data: &Vec<u8>) -> (r: Vec<u8>)
    ensures
        r@ == spec_sha256(data@),
        r@.len() == 32,
{
    let h = <bitcoin::hashes::sha256::Hash as bitcoin::hashes::Hash>::hash(data.as_slice());
    <bitcoin::hashes::sha256::Hash as bitcoin::hashes::Hash>::to_byte_array(h).to_vec()
}

/// Relies on `secp256k1::SecretKey::from_slice` (accepts exactly the valid
/// scalars) and `secp256k1::PublicKey::from_secret_key` followed by
/// `serialize` (33-byte compressed encoding, a function of the key alone).
#[verifier::external_body]
pub fn derive_pubkey(sk: &Vec<u8>) -> (r: Option<Vec<u8>>)
    requires
        sk@.len() == 32,
    ensures
        r is Some <==> spec_valid_seckey(sk@),
        r matches Some(p) ==> p@ == spec_pubkey_of(sk@) && p@.len() == 33,
{
    let secp = bitcoin::secp256k1::Secp256k1::new();
    match bitcoin::secp256k1::SecretKey::from_slice(sk.as_slice()) {
        Ok(key) => {
            let pk = bitcoin::secp256k1::PublicKey::from_secret_key(&secp, &key);
            Some(pk.serialize().to_vec())
        }
        Err(_) => None,
    }
}

/// Relies on `secp256k1::Secp256k1::sign_ecdsa`: deterministic RFC 6979
/// signing over a 32-byte digest, serialized in the 64-byte compact form;
/// `SecretKey::from_slice` accepts exactly the valid scalars.
#[verifier::external_body]
pub fn ecdsa_sign(digest: &Vec<u8>, sk: &Vec<u8>) -> (r: Option<Vec<u8>>)
    requires
        digest@.len() == 32,
        sk@.len() == 32,
    ensures
        r is Some <==> spec_valid_seckey(sk@),
        r matches Some(s) ==> s@ == spec_ecdsa_sig(digest@, sk@) && s@.len() == 64,
{
    let secp = bitcoin::secp256k1::Secp256k1::new();
    let key = match bitcoin::secp256k1::SecretKey::from_slice(sk.as_slice()) {
        Ok(k) => k,
        Err(_) => return None,
    };
    let bytes: [u8; 32] = match digest.as_slice().try_into() {
        Ok(b) => b,
        Err(_) => return None,
    };
    let msg = bitcoin::secp256k1::Message::from_digest(bytes);
    Some(secp.sign_ecdsa(&msg, &key).serialize_compact().to_vec())
}

/// Relies on `secp256k1::Secp256k1::verify_ecdsa`: acceptance depends only on
/// the digest, the public key bytes and the signature bytes; a key or
/// signature that does not parse verifies nothing.
#[verifier::external_body]
pub fn ecdsa_verify(digest: &Vec<u8>, pk: &Vec<u8>, sig: &Vec<u8>) -> (r: bool)
    requires
        digest@.len() == 32,
    ensures
        r == spec_ecdsa_verifies(digest@, pk@, sig@),
{
    let secp = bitcoin::secp256k1::Secp256k1::new();
    let pubkey = match bitcoin::secp256k1::PublicKey::from_slice(pk.as_slice()) {
        Ok(p) => p,
        Err(_) => return false,
    };
    let s = match bitcoin::secp256k1::ecdsa::Signature::from_compact(sig.as_slice()) {
        Ok(s) => s,
        Err(_) => return false,
    };
    let bytes: [u8; 32] = match digest.as_slice().try_into() {
        Ok(b) => b,
        Err(_) => return false,
    };
    let msg = bitcoin::secp256k1::Message::from_digest(bytes);
    secp.verify_ecdsa(&msg, &s, &pubkey).is_ok()
}

/// Returns whether `preimage` opens the hashlock commitment `hash_value`:
/// exactly when its SHA-256 digest equals the agreed 32-byte value.
pub fn check_preimage(preimage: &Vec<u8>, hash_value: &Vec<u8>) -> (r: bool)
    ensures
        r == (spec_sha256(preimage@) == hash_value@),
{
    let digest = sha256(preimage);
    bytes_eq(&digest, hash_value)
}

/// Byte-for-byte comparison of two vectors.
pub fn bytes_eq(a: &Vec<u8>, b: &Vec<u8>) -> (r: bool)
    ensures
        r == (a@ == b@),
{
    if a.len() != b.len() {
        return false;
    }
    let n = a.len();
    let mut i: usize = 0;
    while i < n
        invariant
            n == a@.len() == b@.len(),
            0 <= i <= n,
            forall|k: int| 0 <= k < i ==> a@[k] == b@[k],
        decreases n - i,
    {
        if a[i] != b[i] {
            return false;
        }
        i += 1;
    }
    assert(a@ =~= b@);
    true
}

} // verus!
