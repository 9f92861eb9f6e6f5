//! The elliptic-curve signature scheme, as `libsecp256k1` provides it, on
//! plain byte strings.

use vstd::prelude::*;

verus! {

/// Number of bytes of the (R, S) pair of a signature.
pub const SIGNATURE_SIZE: usize = 64;

/// Number of bytes of a signature with its recovery index.
pub const SIGNATURE_RECOVERY_SIZE: usize = SIGNATURE_SIZE + 1;

/// Whether `secret` is a private scalar of the curve: whether
/// `libsecp256k1::SecretKey::parse_slice` accepts it.
pub uninterp spec fn secp256k1_secret_valid(secret: Seq<u8>) -> bool;

/// The uncompressed public key of the private scalar `secret`.
pub uninterp spec fn secp256k1_public_key(secret: Seq<u8>) -> Seq<u8>;

/// The compressed public key of the private scalar `secret`.
pub uninterp spec fn secp256k1_public_key_compressed(secret: Seq<u8>) -> Seq<u8>;

/// The sum of two private scalars modulo the order of the curve, if it is
/// not zero.
pub uninterp spec fn secp256k1_scalar_sum(a: Seq<u8>, b: Seq<u8>) -> Option<Seq<u8>>;

/// The signature of `digest` under `secret`: the (R, S) pair and the recovery
/// index.
pub uninterp spec fn secp256k1_signature(digest: Seq<u8>, secret: Seq<u8>) -> (Seq<u8>, u8);

/// The uncompressed public key recovered from a digest, an (R, S) pair and a
/// recovery index, if the three are well formed and a key can be recovered.
pub uninterp spec fn secp256k1_recovered(digest: Seq<u8>, rs: Seq<u8>, recovery: u8) -> Option<
    Seq<u8>,
>;

/// Whether `rs` is a valid signature of `digest` under the public key
/// `public_key`; `None` if one of the three is not well formed.
pub uninterp spec fn secp256k1_verified(
    digest: Seq<u8>,
    rs: Seq<u8>,
    public_key: Seq<u8>,
) -> Option<bool>;

/// Whether the curve library stands by its own signature of `digest` under
/// `secret`: the (R, S) pair has 64 bytes, the key recovered from it is the
/// public key of `secret`, and the signature is accepted under that key.
/// Nothing in this library proves or assumes that it does.
pub open spec fn secp256k1_stands_by(digest: Seq<u8>, secret: Seq<u8>) -> bool {
    let pair = secp256k1_signature(digest, secret);
    &&& pair.0.len() == 64
    &&& secp256k1_recovered(digest, pair.0, pair.1) == Some(secp256k1_public_key(secret))
    &&& secp256k1_verified(digest, pair.0, secp256k1_public_key(secret)) == Some(true)
}

/// Calls `libsecp256k1::SecretKey::parse_slice`: whether the bytes are a
/// private scalar.
#[verifier::external_body]
pub(crate) fn check_secret_key(secret: &[u8]) -> (r: Result<(), libsecp256k1::Error>)
    ensures
        r is Ok <==> secp256k1_secret_valid(secret@),
{
    libsecp256k1::SecretKey::parse_slice(secret).map(|_| ())
}

/// Calls `libsecp256k1::SecretKey::parse_slice`, `PublicKey::from_secret_key`
/// and `PublicKey::serialize`: the 65-byte public key of a private scalar.
/// Fails exactly when the scalar is rejected.
#[verifier::external_body]
pub(crate) fn public_key_of(secret: &[u8]) -> (r: Result<Vec<u8>, libsecp256k1::Error>)
    ensures
        r is Ok <==> secp256k1_secret_valid(secret@),
        r matches Ok(key) ==> key@ == secp256k1_public_key(secret@) && key@.len() == 65,
{
    let secret_key = libsecp256k1::SecretKey::parse_slice(secret)?;
    Ok(libsecp256k1::PublicKey::from_secret_key(&secret_key).serialize().to_vec())
}

/// Calls `libsecp256k1::SecretKey::parse_slice`, `PublicKey::from_secret_key`
/// and `PublicKey::serialize_compressed`: the 33-byte public key of a private
/// scalar. Fails exactly when the scalar is rejected.
#[verifier::external_body]
pub(crate) fn compressed_public_key_of(secret: &[u8]) -> (r: Result<
    Vec<u8>,
    libsecp256k1::Error,
>)
    ensures
        r is Ok <==> secp256k1_secret_valid(secret@),
        r matches Ok(key) ==> key@ == secp256k1_public_key_compressed(secret@) && key@.len()
            == 33,
{
    let secret_key = libsecp256k1::SecretKey::parse_slice(secret)?;
    Ok(libsecp256k1::PublicKey::from_secret_key(&secret_key).serialize_compressed().to_vec())
}

/// Calls `libsecp256k1::SecretKey::parse_slice` on both arguments, then
/// `SecretKey::tweak_add_assign` and `SecretKey::serialize`: the sum of two
/// private scalars, 32 bytes. Fails when one of them is rejected or the sum
/// is zero.
#[verifier::external_body]
pub(crate) fn scalar_sum(a: &[u8], b: &[u8]) -> (r: Result<Vec<u8>, libsecp256k1::Error>)
    ensures
        r is Ok <==> (secp256k1_secret_valid(a@) && secp256k1_secret_valid(b@)
            && secp256k1_scalar_sum(a@, b@) is Some),
        r matches Ok(sum) ==> secp256k1_scalar_sum(a@, b@) == Some(sum@) && sum@.len() == 32
            && secp256k1_secret_valid(sum@),
{
    let mut sum = libsecp256k1::SecretKey::parse_slice(a)?;
    sum.tweak_add_assign(&libsecp256k1::SecretKey::parse_slice(b)?)?;
    Ok(sum.serialize().to_vec())
}

/// Calls `libsecp256k1::SecretKey::parse_slice`, `Message::parse_slice`,
/// `sign`, `Signature::serialize` and `RecoveryId::serialize`: the 64-byte
/// (R, S) pair and the recovery index, which is below 4. Fails exactly when
/// the scalar is rejected or the digest is not 32 bytes long.
#[verifier::external_body]
pub(crate) fn sign_digest(digest: &[u8], secret: &[u8]) -> (r: Result<
    (Vec<u8>, u8),
    libsecp256k1::Error,
>)
    ensures
        r is Ok <==> (secp256k1_secret_valid(secret@) && digest@.len() == 32),
        r matches Ok(pair) ==> (pair.0@, pair.1) == secp256k1_signature(digest@, secret@)
            && pair.0@.len() == 64 && pair.1 < 4,
{
    let secret_key = libsecp256k1::SecretKey::parse_slice(secret)?;
    let message = libsecp256k1::Message::parse_slice(digest)?;
    let (signature, recovery) = libsecp256k1::sign(&message, &secret_key);
    Ok((signature.serialize().to_vec(), recovery.serialize()))
}

/// Calls `libsecp256k1::Signature::parse_standard_slice`,
/// `RecoveryId::parse`, `Message::parse_slice`, `recover` and
/// `PublicKey::serialize`: the 65-byte public key that the signature
/// commits to.
#[verifier::external_body]
pub(crate) fn recover_public_key(digest: &[u8], rs: &[u8], recovery: u8) -> (r: Result<
    Vec<u8>,
    libsecp256k1::Error,
>)
    ensures
        r is Ok <==> secp256k1_recovered(digest@, rs@, recovery) is Some,
        r matches Ok(key) ==> secp256k1_recovered(digest@, rs@, recovery) == Some(key@)
            && key@.len() == 65,
{
    let signature = libsecp256k1::Signature::parse_standard_slice(rs)?;
    let recovery_id = libsecp256k1::RecoveryId::parse(recovery)?;
    let message = libsecp256k1::Message::parse_slice(digest)?;
    Ok(libsecp256k1::recover(&message, &signature, &recovery_id)?.serialize().to_vec())
}

/// Calls `libsecp256k1::Message::parse_slice`,
/// `Signature::parse_standard_slice`, `PublicKey::parse_slice` and `verify`:
/// whether the signature is valid for the digest under the key.
#[verifier::external_body]
pub(crate) fn verify_digest(digest: &[u8], rs: &[u8], public_key: &[u8]) -> (r: Result<
    bool,
    libsecp256k1::Error,
>)
    ensures
        r is Ok <==> secp256k1_verified(digest@, rs@, public_key@) is Some,
        r matches Ok(valid) ==> secp256k1_verified(digest@, rs@, public_key@) == Some(valid),
{
    let message = libsecp256k1::Message::parse_slice(digest)?;
    let signature = libsecp256k1::Signature::parse_standard_slice(rs)?;
    let key = libsecp256k1::PublicKey::parse_slice(public_key, None)?;
    Ok(libsecp256k1::verify(&message, &signature, &key))
}

} // verus!
