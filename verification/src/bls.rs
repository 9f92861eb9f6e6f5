//! The pairing-based signature scheme, as `bls_signatures` provides it, on
//! plain byte strings.

use vstd::prelude::*;
use bls_signatures::Serialize;
use crate::utils::byte_strings;

verus! {

/// Whether `secret` is a private scalar of the scheme: whether
/// `bls_signatures::PrivateKey::from_bytes` accepts it.
pub uninterp spec fn bls_secret_valid(secret: Seq<u8>) -> bool;

/// The public key of the private scalar `secret`.
pub uninterp spec fn bls_public_key(secret: Seq<u8>) -> Seq<u8>;

/// The signature of `message` under `secret`.
pub uninterp spec fn bls_signature(secret: Seq<u8>, message: Seq<u8>) -> Seq<u8>;

/// Whether `key` is a public key of the scheme: whether
/// `bls_signatures::PublicKey::from_bytes` accepts it.
pub uninterp spec fn bls_public_key_valid(key: Seq<u8>) -> bool;

/// Whether `signature` is a signature of the scheme: whether
/// `bls_signatures::Signature::from_bytes` accepts it.
pub uninterp spec fn bls_signature_valid(signature: Seq<u8>) -> bool;

/// Whether `signature` is the signature of `message` under the public key
/// `key`.
pub uninterp spec fn bls_verified(key: Seq<u8>, signature: Seq<u8>, message: Seq<u8>) -> bool;

/// Whether `signature` is the aggregate of the signatures of `messages`, each
/// under the public key at the same position in `keys`.
pub uninterp spec fn bls_aggregate_verified(
    signature: Seq<u8>,
    messages: Seq<Seq<u8>>,
    keys: Seq<Seq<u8>>,
) -> bool;

/// Whether the pairing library stands by its own signature of `message`
/// under `secret`: the public key of `secret` and the signature are well
/// formed, and the signature is accepted under that key. Nothing in this
/// library proves or assumes that it does.
pub open spec fn bls_stands_by(secret: Seq<u8>, message: Seq<u8>) -> bool {
    &&& bls_public_key_valid(bls_public_key(secret))
    &&& bls_signature_valid(bls_signature(secret, message))
    &&& bls_verified(bls_public_key(secret), bls_signature(secret, message), message)
}

/// Calls `bls_signatures::PrivateKey::from_bytes`: whether the bytes are a
/// private scalar.
#[verifier::external_body]
pub(crate) fn check_secret_key(secret: &[u8]) -> (r: Result<(), bls_signatures::Error>)
    ensures
        r is Ok <==> bls_secret_valid(secret@),
{
    bls_signatures::PrivateKey::from_bytes(secret).map(|_| ())
}

/// Calls `bls_signatures::PrivateKey::from_bytes`, `PrivateKey::public_key`
/// and `Serialize::as_bytes`: the 48-byte public key of a private scalar.
/// Fails exactly when the scalar is rejected.
#[verifier::external_body]
pub(crate) fn public_key_of(secret: &[u8]) -> (r: Result<Vec<u8>, bls_signatures::Error>)
    ensures
        r is Ok <==> bls_secret_valid(secret@),
        r matches Ok(key) ==> key@ == bls_public_key(secret@) && key@.len() == 48,
{
    Ok(bls_signatures::PrivateKey::from_bytes(secret)?.public_key().as_bytes())
}

/// Calls `bls_signatures::PrivateKey::from_bytes`, `PrivateKey::sign` and
/// `Serialize::as_bytes`: the 96-byte signature of a message, which the scheme
/// hashes itself. Fails exactly when the scalar is rejected.
#[verifier::external_body]
pub(crate) fn sign_message(secret: &[u8], message: &[u8]) -> (r: Result<
    Vec<u8>,
    bls_signatures::Error,
>)
    ensures
        r is Ok <==> bls_secret_valid(secret@),
        r matches Ok(signature) ==> signature@ == bls_signature(secret@, message@)
            && signature@.len() == 96,
{
    Ok(bls_signatures::PrivateKey::from_bytes(secret)?.sign(message).as_bytes())
}

/// Calls `bls_signatures::PublicKey::from_bytes`: whether the bytes are a
/// public key.
#[verifier::external_body]
pub(crate) fn check_public_key(key: &[u8]) -> (r: Result<(), bls_signatures::Error>)
    ensures
        r is Ok <==> bls_public_key_valid(key@),
{
    bls_signatures::PublicKey::from_bytes(key).map(|_| ())
}

/// Calls `bls_signatures::Signature::from_bytes`: whether the bytes are a
/// signature.
#[verifier::external_body]
pub(crate) fn check_signature(signature: &[u8]) -> (r: Result<(), bls_signatures::Error>)
    ensures
        r is Ok <==> bls_signature_valid(signature@),
{
    bls_signatures::Signature::from_bytes(signature).map(|_| ())
}

/// Calls `bls_signatures::PublicKey::from_bytes`, `Signature::from_bytes` and
/// `PublicKey::verify`. Fails exactly when the key or the signature is
/// rejected, the key being read first.
#[verifier::external_body]
pub(crate) fn verify_message(key: &[u8], signature: &[u8], message: &[u8]) -> (r: Result<
    bool,
    bls_signatures::Error,
>)
    ensures
        r is Ok <==> (bls_public_key_valid(key@) && bls_signature_valid(signature@)),
        r matches Ok(valid) ==> valid == bls_verified(key@, signature@, message@),
{
    let public_key = bls_signatures::PublicKey::from_bytes(key)?;
    let parsed = bls_signatures::Signature::from_bytes(signature)?;
    Ok(public_key.verify(parsed, message))
}

/// Calls `bls_signatures::Signature::from_bytes`, `PublicKey::from_bytes` on
/// each key and `verify_messages`, which hashes each message and checks the
/// one signature against all pairs of key and hash. Fails exactly when the
/// signature or one of the keys is rejected.
#[verifier::external_body]
pub(crate) fn verify_aggregate(signature: &[u8], messages: &Vec<Vec<u8>>, keys: &Vec<Vec<u8>>) -> (r:
    Result<bool, bls_signatures::Error>)
    ensures
        r is Ok <==> (bls_signature_valid(signature@) && forall|i: int|
            0 <= i < keys@.len() ==> bls_public_key_valid(#[trigger] keys@[i]@)),
        r matches Ok(valid) ==> valid == bls_aggregate_verified(
            signature@,
            byte_strings(messages@),
            byte_strings(keys@),
        ),
{
    let parsed = bls_signatures::Signature::from_bytes(signature)?;
    let public_keys = keys.iter().map(|k| bls_signatures::PublicKey::from_bytes(k)).collect::<
        Result<Vec<_>, _>,
    >()?;
    let slices: Vec<&[u8]> = messages.iter().map(|m| m.as_slice()).collect();
    Ok(bls_signatures::verify_messages(&parsed, &slices, &public_keys))
}

} // verus!
