//! Signing and verifying transactions. The sender's address protocol picks
//! the scheme that signs; the signature's own tag picks the one that
//! verifies.

use vstd::prelude::*;
use crate::address::{bls_address_bytes, secp256k1_address_bytes, Address, Network, Protocol};
use crate::bls::{
    bls_aggregate_verified, bls_public_key, bls_public_key_valid, bls_secret_valid,
    bls_signature, bls_signature_valid, bls_stands_by, bls_verified, check_public_key,
    check_signature, sign_message, verify_aggregate, verify_message,
};
use crate::error::{ErrorKind, SignerError};
use crate::keys::PrivateKey;
use crate::message::{
    codec_inverts, decoded_transaction, message_encoding, transaction_parse,
    transaction_serialize, Message, MessageTxView, MessageView, Signature, SignatureType,
    SignatureView, SignedMessage, SignedMessageView,
};
use crate::secp256k1::{
    check_secret_key, recover_public_key, secp256k1_public_key, secp256k1_recovered,
    secp256k1_secret_valid, secp256k1_signature, secp256k1_stands_by, secp256k1_verified,
    sign_digest, verify_digest, SIGNATURE_RECOVERY_SIZE, SIGNATURE_SIZE,
};
use crate::utils::{
    byte_strings, cid_bytes, cid_bytes_of, copy_range, get_digest, message_digest, vec_of,
};

verus! {

/// The 65 bytes of an elliptic-curve signature of a digest: the (R, S) pair
/// followed by the recovery index.
pub open spec fn secp256k1_signature_bytes(digest: Seq<u8>, secret: Seq<u8>) -> Seq<u8> {
    secp256k1_signature(digest, secret).0.push(secp256k1_signature(digest, secret).1)
}

/// What signing a message with the elliptic-curve scheme gives: the key is
/// checked first, then the message is encoded, and the hash of its content
/// identifier is signed.
pub open spec fn secp256k1_signed(message: MessageView, key: Seq<u8>) -> Result<
    SignatureView,
    ErrorKind,
> {
    if !secp256k1_secret_valid(key) {
        Err(ErrorKind::Secp256k1)
    } else {
        match message_encoding(message.wire()) {
            None => Err(ErrorKind::Encoding),
            Some(encoded) => Ok(
                SignatureView {
                    sig_type: SignatureType::Secp256k1,
                    bytes: secp256k1_signature_bytes(message_digest(encoded), key),
                },
            ),
        }
    }
}

/// What signing a message with the pairing scheme gives: the key is checked
/// first, then the message is encoded, and its content identifier is signed
/// as it is, with no hash in between.
pub open spec fn bls_signed(message: MessageView, key: Seq<u8>) -> Result<SignatureView, ErrorKind> {
    if !bls_secret_valid(key) {
        Err(ErrorKind::Bls)
    } else {
        match message_encoding(message.wire()) {
            None => Err(ErrorKind::Encoding),
            Some(encoded) => Ok(
                SignatureView {
                    sig_type: SignatureType::BLS,
                    bytes: bls_signature(key, cid_bytes_of(encoded)),
                },
            ),
        }
    }
}

/// What signing a message gives: the protocol of the sender's address picks
/// the scheme, and any protocol but the two key protocols is refused.
pub open spec fn signed(message: MessageView, key: Seq<u8>) -> Result<SignatureView, ErrorKind> {
    match message.from.protocol() {
        Protocol::Secp256k1 => secp256k1_signed(message, key),
        Protocol::BLS => bls_signed(message, key),
        _ => Err(ErrorKind::UnsupportedSigningProtocol),
    }
}

/// What signing and wrapping a message gives: the message with its
/// signature.
pub open spec fn signed_and_wrapped(message: MessageView, key: Seq<u8>) -> Result<
    SignedMessageView,
    ErrorKind,
> {
    match signed(message, key) {
        Ok(signature) => Ok(SignedMessageView { message, signature }),
        Err(e) => Err(e),
    }
}

/// Whether a signature has the size of its scheme: 65 bytes for the
/// elliptic-curve scheme, the last of them a recovery index below 4, and 96
/// bytes for the pairing scheme.
pub open spec fn signature_sized(s: SignatureView) -> bool {
    match s.sig_type {
        SignatureType::Secp256k1 => s.bytes.len() == 65 && s.bytes[64] < 4,
        SignatureType::BLS => s.bytes.len() == 96,
    }
}

/// Signs a message with the elliptic-curve scheme.
fn transaction_sign_secp56k1_raw(message: &Message, private_key: &PrivateKey) -> (r: Result<
    Signature,
    SignerError,
>)
    ensures
        r matches Ok(s) ==> secp256k1_signed(message@, private_key@) == Ok::<_, ErrorKind>(s@),
        r matches Err(e) ==> secp256k1_signed(message@, private_key@) == Err::<SignatureView, _>(
            e.kind(),
        ),
        r matches Ok(s) ==> s.sig_type == SignatureType::Secp256k1 && signature_sized(s@),
{
    let secret = vec_of::<32>(&private_key.0);
    match check_secret_key(secret.as_slice()) {
        Ok(()) => {},
        Err(e) => {
            return Err(SignerError::Secp256k1(e));
        },
    }
    let encoded = transaction_serialize(message)?;
    let digest = get_digest(encoded.as_slice());
    match sign_digest(digest.as_slice(), secret.as_slice()) {
        Ok((signature_rs, recovery_id)) => {
            let mut sig = signature_rs;
            sig.push(recovery_id);
            Ok(Signature::new_secp256k1(sig))
        },
        Err(e) => Err(SignerError::Secp256k1(e)),
    }
}

/// Signs a message with the pairing scheme.
fn transaction_sign_bls_raw(message: &Message, private_key: &PrivateKey) -> (r: Result<
    Signature,
    SignerError,
>)
    ensures
        r matches Ok(s) ==> bls_signed(message@, private_key@) == Ok::<_, ErrorKind>(s@),
        r matches Err(e) ==> bls_signed(message@, private_key@) == Err::<SignatureView, _>(
            e.kind(),
        ),
        r matches Ok(s) ==> s.sig_type == SignatureType::BLS && signature_sized(s@),
{
    let secret = vec_of::<32>(&private_key.0);
    match crate::bls::check_secret_key(secret.as_slice()) {
        Ok(()) => {},
        Err(e) => {
            return Err(SignerError::Bls(e));
        },
    }
    let encoded = transaction_serialize(message)?;
    let signing_bytes = cid_bytes(encoded.as_slice());
    match sign_message(secret.as_slice(), signing_bytes.as_slice()) {
        Ok(sig) => Ok(Signature::new_bls(sig)),
        Err(e) => Err(SignerError::Bls(e)),
    }
}

/// Signs a message and returns the signature alone. The protocol of the
/// sender's address says which scheme signs. An elliptic-curve signature has
/// 65 bytes, the (R, S) pair and a recovery index below 4; a signature of the
/// pairing scheme has 96.
pub fn transaction_sign_raw(message: &Message, private_key: &PrivateKey) -> (r: Result<
    Signature,
    SignerError,
>)
    ensures
        r matches Ok(s) ==> signed(message@, private_key@) == Ok::<_, ErrorKind>(s@),
        r matches Err(e) ==> signed(message@, private_key@) == Err::<SignatureView, _>(e.kind()),
        r matches Ok(s) ==> (s.sig_type == SignatureType::Secp256k1 ==> s.bytes@.len() == 65
            && s.bytes@[64] < 4) && (s.sig_type == SignatureType::BLS ==> s.bytes@.len() == 96),
{
    match message.from.protocol() {
        Protocol::Secp256k1 => transaction_sign_secp56k1_raw(message, private_key),
        Protocol::BLS => transaction_sign_bls_raw(message, private_key),
        _ => Err(SignerError::UnsupportedSigningProtocol),
    }
}

/// Signs a message and returns it together with the signature.
pub fn transaction_sign(message: &Message, private_key: &PrivateKey) -> (r: Result<
    SignedMessage,
    SignerError,
>)
    ensures
        r matches Ok(s) ==> signed_and_wrapped(message@, private_key@) == Ok::<_, ErrorKind>(s@),
        r matches Err(e) ==> signed_and_wrapped(message@, private_key@) == Err::<
            SignedMessageView,
            _,
        >(e.kind()),
        r matches Ok(s) ==> (s.signature.sig_type == SignatureType::Secp256k1
            ==> s.signature.bytes@.len() == 65 && s.signature.bytes@[64] < 4) && (
        s.signature.sig_type == SignatureType::BLS ==> s.signature.bytes@.len() == 96),
{
    let signature = transaction_sign_raw(message, private_key)?;
    Ok(SignedMessage { message: message.duplicate(), signature })
}

/// What verifying an elliptic-curve signature against an encoded transaction
/// gives. The transaction is decoded; the signature must have 65 bytes; a
/// public key is recovered from the signature and the digest of the encoding
/// as it was handed in; the address of that key must be the sender's, else
/// the answer is `false` and no error; only then is the signature itself
/// checked under the recovered key.
pub open spec fn secp256k1_verification(signature: Seq<u8>, cbor: Seq<u8>) -> Result<
    bool,
    ErrorKind,
> {
    match decoded_transaction(cbor, Network::Testnet) {
        None => Err(ErrorKind::Encoding),
        Some(tx) => if signature.len() != 65 {
            Err(ErrorKind::InvalidLength)
        } else {
            match secp256k1_recovered(message_digest(cbor), signature.subrange(0, 64), signature[64]) {
                None => Err(ErrorKind::Secp256k1),
                Some(public_key) => if secp256k1_address_bytes(public_key)
                    != tx.message().from.bytes {
                    Ok(false)
                } else {
                    match secp256k1_verified(
                        message_digest(cbor),
                        signature.subrange(0, 64),
                        public_key,
                    ) {
                        None => Err(ErrorKind::Secp256k1),
                        Some(valid) => Ok(valid),
                    }
                },
            }
        },
    }
}

/// What verifying a pairing-scheme signature against an encoded transaction
/// gives. The transaction is decoded; the payload of the sender's address is
/// the public key; the signature is checked against the content identifier
/// of the message inside, encoded anew.
pub open spec fn bls_verification(signature: Seq<u8>, cbor: Seq<u8>) -> Result<bool, ErrorKind> {
    match decoded_transaction(cbor, Network::Testnet) {
        None => Err(ErrorKind::Encoding),
        Some(tx) => if !bls_public_key_valid(tx.message().from.payload()) || !bls_signature_valid(
            signature,
        ) {
            Err(ErrorKind::Bls)
        } else {
            match message_encoding(tx.message().wire()) {
                None => Err(ErrorKind::Encoding),
                Some(encoded) => Ok(
                    bls_verified(tx.message().from.payload(), signature, cid_bytes_of(encoded)),
                ),
            }
        },
    }
}

/// What verifying a signature against an encoded transaction gives: the
/// scheme of the signature picks the check.
pub open spec fn verification(signature: SignatureView, cbor: Seq<u8>) -> Result<bool, ErrorKind> {
    match signature.sig_type {
        SignatureType::Secp256k1 => secp256k1_verification(signature.bytes, cbor),
        SignatureType::BLS => bls_verification(signature.bytes, cbor),
    }
}

/// Verifies an elliptic-curve signature by recovery and match.
fn verify_secp256k1_signature(signature: &Signature, cbor: &[u8]) -> (r: Result<
    bool,
    SignerError,
>)
    ensures
        r matches Ok(valid) ==> secp256k1_verification(signature.bytes@, cbor@) == Ok::<
            _,
            ErrorKind,
        >(valid),
        r matches Err(e) ==> secp256k1_verification(signature.bytes@, cbor@) == Err::<bool, _>(
            e.kind(),
        ),
{
    let network = Network::Testnet;
    let tx = transaction_parse(cbor, true)?;
    if signature.bytes.len() != SIGNATURE_RECOVERY_SIZE {
        return Err(SignerError::InvalidLength);
    }
    let signature_rs = copy_range(signature.bytes.as_slice(), 0, SIGNATURE_SIZE);
    let recovery_id = signature.bytes[SIGNATURE_SIZE];
    let message_digest = get_digest(cbor);
    let public_key = match recover_public_key(
        message_digest.as_slice(),
        signature_rs.as_slice(),
        recovery_id,
    ) {
        Ok(key) => key,
        Err(e) => {
            return Err(SignerError::Secp256k1(e));
        },
    };
    let from = Address::new_secp256k1(network, public_key.as_slice())?;
    let tx_from = &tx.get_message().from;
    assert(tx_from@.network == Network::Testnet);
    if !tx_from.same_as(&from) {
        assert(tx_from@.bytes != from@.bytes);
        return Ok(false);
    }
    match verify_digest(message_digest.as_slice(), signature_rs.as_slice(), public_key.as_slice()) {
        Ok(valid) => Ok(valid),
        Err(e) => Err(SignerError::Secp256k1(e)),
    }
}

/// Verifies a pairing-scheme signature with the key in the sender's address.
fn verify_bls_signature(signature: &Signature, cbor: &[u8]) -> (r: Result<bool, SignerError>)
    ensures
        r matches Ok(valid) ==> bls_verification(signature.bytes@, cbor@) == Ok::<_, ErrorKind>(
            valid,
        ),
        r matches Err(e) ==> bls_verification(signature.bytes@, cbor@) == Err::<bool, _>(e.kind()),
{
    let tx = transaction_parse(cbor, true)?;
    let message = tx.get_message();
    let pk = message.from.payload_bytes();
    match check_public_key(pk.as_slice()) {
        Ok(()) => {},
        Err(e) => {
            return Err(SignerError::Bls(e));
        },
    }
    match check_signature(signature.bytes.as_slice()) {
        Ok(()) => {},
        Err(e) => {
            return Err(SignerError::Bls(e));
        },
    }
    let encoded = transaction_serialize(message)?;
    let signing_bytes = cid_bytes(encoded.as_slice());
    match verify_message(pk.as_slice(), signature.bytes.as_slice(), signing_bytes.as_slice()) {
        Ok(valid) => Ok(valid),
        Err(e) => Err(SignerError::Bls(e)),
    }
}

/// Verifies a signature against an encoded transaction. `Ok(false)` is an
/// answer, not a failure: the signature is well formed but not the sender's.
pub fn verify_signature(signature: &Signature, cbor: &[u8]) -> (r: Result<bool, SignerError>)
    ensures
        r matches Ok(valid) ==> verification(signature@, cbor@) == Ok::<_, ErrorKind>(valid),
        r matches Err(e) ==> verification(signature@, cbor@) == Err::<bool, _>(e.kind()),
{
    match signature.sig_type {
        SignatureType::Secp256k1 => verify_secp256k1_signature(signature, cbor),
        SignatureType::BLS => verify_bls_signature(signature, cbor),
    }
}

/// What one encoded message contributes to an aggregate check: the public key
/// in its sender's address. The message must decode and the payload must be
/// a key of the pairing scheme.
pub open spec fn message_public_key(cbor: Seq<u8>) -> Result<Seq<u8>, ErrorKind> {
    match decoded_transaction(cbor, Network::Testnet) {
        None => Err(ErrorKind::Encoding),
        Some(tx) => if bls_public_key_valid(tx.message().from.payload()) {
            Ok(tx.message().from.payload())
        } else {
            Err(ErrorKind::Bls)
        },
    }
}

/// The bytes that the pairing scheme signs for an encoded message: the
/// content identifier of the message inside, encoded anew.
pub open spec fn message_signing_bytes(cbor: Seq<u8>) -> Result<Seq<u8>, ErrorKind> {
    match decoded_transaction(cbor, Network::Testnet) {
        None => Err(ErrorKind::Encoding),
        Some(tx) => match message_encoding(tx.message().wire()) {
            None => Err(ErrorKind::Encoding),
            Some(encoded) => Ok(cid_bytes_of(encoded)),
        },
    }
}

/// Whether an encoded message fails to yield its key or its signing bytes,
/// and in the way `e`: the key is asked for first.
pub open spec fn message_fails_with(cbor: Seq<u8>, e: ErrorKind) -> bool {
    match message_public_key(cbor) {
        Err(first) => first == e,
        Ok(_) => message_signing_bytes(cbor) == Err::<Seq<u8>, _>(e),
    }
}

/// The public keys and signing bytes of a list of encoded messages, each at
/// the position of its message; or the failure of the first message, in the
/// order of the list, that has one.
pub open spec fn aggregate_inputs(messages: Seq<Seq<u8>>) -> Result<
    (Seq<Seq<u8>>, Seq<Seq<u8>>),
    ErrorKind,
>
    decreases messages.len(),
{
    if messages.len() == 0 {
        Ok((Seq::empty(), Seq::empty()))
    } else {
        match aggregate_inputs(messages.drop_last()) {
            Err(e) => Err(e),
            Ok((keys, signing)) => match message_public_key(messages.last()) {
                Err(e) => Err(e),
                Ok(key) => match message_signing_bytes(messages.last()) {
                    Err(e) => Err(e),
                    Ok(bytes) => Ok((keys.push(key), signing.push(bytes))),
                },
            },
        }
    }
}

/// What verifying one aggregate signature against a list of encoded messages
/// gives. The signature must be one of the pairing scheme; every message
/// must yield its key and signing bytes, and the first that does not decides
/// the failure; then the one signature is checked against all pairs.
pub open spec fn aggregate_verification(signature: Seq<u8>, messages: Seq<Seq<u8>>) -> Result<
    bool,
    ErrorKind,
> {
    if !bls_signature_valid(signature) {
        Err(ErrorKind::Bls)
    } else {
        match aggregate_inputs(messages) {
            Err(e) => Err(e),
            Ok((keys, signing)) => Ok(bls_aggregate_verified(signature, signing, keys)),
        }
    }
}

/// The public key in the sender's address of an encoded message.
pub fn extract_from_pub_key_from_message(cbor_message: &[u8]) -> (r: Result<Vec<u8>, SignerError>)
    ensures
        r matches Ok(key) ==> message_public_key(cbor_message@) == Ok::<_, ErrorKind>(key@),
        r matches Err(e) ==> message_public_key(cbor_message@) == Err::<Seq<u8>, _>(e.kind()),
{
    let message = transaction_parse(cbor_message, true)?;
    let unsigned_message_api = message.get_message();
    let pk = unsigned_message_api.from.payload_bytes();
    match check_public_key(pk.as_slice()) {
        Ok(()) => Ok(pk),
        Err(e) => Err(SignerError::Bls(e)),
    }
}

/// The bytes that the pairing scheme signs for an encoded message.
pub fn extract_bls_signing_bytes_from_message(cbor_message: &[u8]) -> (r: Result<
    Vec<u8>,
    SignerError,
>)
    ensures
        r matches Ok(bytes) ==> message_signing_bytes(cbor_message@) == Ok::<_, ErrorKind>(bytes@),
        r matches Err(e) ==> message_signing_bytes(cbor_message@) == Err::<Seq<u8>, _>(e.kind()),
{
    let message = transaction_parse(cbor_message, true)?;
    let unsigned_message_api = message.get_message();
    let encoded = transaction_serialize(unsigned_message_api)?;
    Ok(cid_bytes(encoded.as_slice()))
}

/// The public keys and the signing bytes of a list of encoded messages, each
/// at the position of its message. Any message that fails to yield its key
/// or its signing bytes fails the whole call, with the failure of the first
/// such message. Every key handed out is one of the pairing scheme.
pub fn aggregate_signing_inputs(cbor_messages: &[Vec<u8>]) -> (r: Result<
    (Vec<Vec<u8>>, Vec<Vec<u8>>),
    SignerError,
>)
    ensures
        r matches Ok(pair) ==> aggregate_inputs(byte_strings(cbor_messages@)) == Ok::<
            _,
            ErrorKind,
        >((byte_strings(pair.0@), byte_strings(pair.1@))),
        r matches Ok(pair) ==> pair.0@.len() == cbor_messages@.len() && pair.1@.len()
            == cbor_messages@.len(),
        r matches Ok(pair) ==> (forall|j: int|
            0 <= j < pair.0@.len() ==> bls_public_key_valid(#[trigger] pair.0@[j]@)),
        r matches Err(e) ==> aggregate_inputs(byte_strings(cbor_messages@)) == Err::<
            (Seq<Seq<u8>>, Seq<Seq<u8>>),
            _,
        >(e.kind()),
{
    let ghost all = byte_strings(cbor_messages@);
    let mut pks: Vec<Vec<u8>> = Vec::new();
    let mut signing_bytes: Vec<Vec<u8>> = Vec::new();
    let n = cbor_messages.len();
    let mut i: usize = 0;
    assert(all.take(0) == Seq::<Seq<u8>>::empty());
    assert(byte_strings(pks@) == Seq::<Seq<u8>>::empty());
    assert(byte_strings(signing_bytes@) == Seq::<Seq<u8>>::empty());
    while i < n
        invariant
            i <= n,
            n == cbor_messages@.len(),
            all == byte_strings(cbor_messages@),
            pks@.len() == i,
            signing_bytes@.len() == i,
            aggregate_inputs(all.take(i as int)) == Ok::<_, ErrorKind>(
                (byte_strings(pks@), byte_strings(signing_bytes@)),
            ),
            forall|j: int| 0 <= j < pks@.len() ==> bls_public_key_valid(#[trigger] pks@[j]@),
        decreases n - i,
    {
        proof {
            assert(all.take(i + 1).drop_last() == all.take(i as int));
            assert(all.take(i + 1).last() == cbor_messages@[i as int]@);
        }
        let ghost old_pks = byte_strings(pks@);
        let ghost old_signing = byte_strings(signing_bytes@);
        let pk = match extract_from_pub_key_from_message(cbor_messages[i].as_slice()) {
            Ok(pk) => pk,
            Err(e) => {
                proof {
                    lemma_aggregate_inputs_fail(all.take(i + 1), all, (i + 1) as int);
                }
                return Err(e);
            },
        };
        let bytes = match extract_bls_signing_bytes_from_message(cbor_messages[i].as_slice()) {
            Ok(bytes) => bytes,
            Err(e) => {
                proof {
                    lemma_aggregate_inputs_fail(all.take(i + 1), all, (i + 1) as int);
                }
                return Err(e);
            },
        };
        let ghost key = pk@;
        let ghost signing = bytes@;
        pks.push(pk);
        signing_bytes.push(bytes);
        assert(byte_strings(pks@) == old_pks.push(key));
        assert(byte_strings(signing_bytes@) == old_signing.push(signing));
        i = i + 1;
    }
    assert(all.take(n as int) == all);
    Ok((pks, signing_bytes))
}

/// Verifies one aggregate signature against many encoded messages, each
/// signed by the key in its own sender's address. The signature is looked at
/// first; then any message that fails to yield its key or its signing bytes
/// fails the whole call, with the failure of the first such message.
pub fn verify_aggregated_signature(signature: &Signature, cbor_messages: &[Vec<u8>]) -> (r:
    Result<bool, SignerError>)
    ensures
        r matches Ok(valid) ==> aggregate_verification(
            signature.bytes@,
            byte_strings(cbor_messages@),
        ) == Ok::<_, ErrorKind>(valid),
        r matches Err(e) ==> aggregate_verification(
            signature.bytes@,
            byte_strings(cbor_messages@),
        ) == Err::<bool, _>(e.kind()),
{
    match check_signature(signature.bytes.as_slice()) {
        Ok(()) => {},
        Err(e) => {
            return Err(SignerError::Bls(e));
        },
    }
    let (pks, signing_bytes) = aggregate_signing_inputs(cbor_messages)?;
    match verify_aggregate(signature.bytes.as_slice(), &signing_bytes, &pks) {
        Ok(valid) => Ok(valid),
        Err(e) => Err(SignerError::Bls(e)),
    }
}

/// Where the first `n` messages of a list already fail, the whole list fails
/// in the same way.
pub proof fn lemma_aggregate_inputs_fail(prefix: Seq<Seq<u8>>, messages: Seq<Seq<u8>>, n: int)
    requires
        0 <= n <= messages.len(),
        prefix == messages.take(n),
        aggregate_inputs(prefix) is Err,
    ensures
        aggregate_inputs(messages) == aggregate_inputs(prefix),
    decreases messages.len() - n,
{
    if n < messages.len() {
        let next = messages.take(n + 1);
        assert(next.drop_last() == prefix);
        lemma_aggregate_inputs_fail(next, messages, n + 1);
    } else {
        assert(messages.take(n) == messages);
    }
}

/// Signing and verifying agree on what is signed and on how a signature is
/// laid out. For a message whose sender is the address of an elliptic-curve
/// key, the signature that `signed` makes with that key is one that
/// `verification` accepts for the encoding of the message, wherever the codec
/// reads back the message that it wrote and the curve library stands by its
/// own signature of the digest.
pub proof fn lemma_secp256k1_verify_accepts_signed(m: MessageView, key: Seq<u8>)
    requires
        secp256k1_secret_valid(key),
        m.from.bytes == secp256k1_address_bytes(secp256k1_public_key(key)),
        codec_inverts(m.wire()),
        secp256k1_stands_by(message_digest(message_encoding(m.wire()).unwrap()), key),
    ensures
        signed(m, key) is Ok,
        verification(signed(m, key).unwrap(), message_encoding(m.wire()).unwrap()) == Ok::<
            _,
            ErrorKind,
        >(true),
{
    let encoded = message_encoding(m.wire()).unwrap();
    let digest = message_digest(encoded);
    let pair = secp256k1_signature(digest, key);
    let bytes = secp256k1_signature_bytes(digest, key);
    assert(m.from.bytes[0] == 1u8);
    assert(bytes.len() == 65);
    assert(bytes.subrange(0, 64) == pair.0);
    assert(bytes[64] == pair.1);
    assert(decoded_transaction(encoded, Network::Testnet) == Some(
        MessageTxView::Message(m.wire().on(Network::Testnet)),
    ));
}

/// The same for the pairing scheme: for a message whose sender is the
/// address of a pairing-scheme key, the signature that `signed` makes with
/// that key is one that `verification` accepts, wherever the codec reads back
/// the message that it wrote and the pairing library stands by its own
/// signature of the content identifier.
pub proof fn lemma_bls_verify_accepts_signed(m: MessageView, key: Seq<u8>)
    requires
        bls_secret_valid(key),
        m.from.bytes == bls_address_bytes(bls_public_key(key)),
        codec_inverts(m.wire()),
        bls_stands_by(key, cid_bytes_of(message_encoding(m.wire()).unwrap())),
    ensures
        signed(m, key) is Ok,
        verification(signed(m, key).unwrap(), message_encoding(m.wire()).unwrap()) == Ok::<
            _,
            ErrorKind,
        >(true),
{
    let encoded = message_encoding(m.wire()).unwrap();
    let public_key = bls_public_key(key);
    assert(m.from.bytes[0] == 3u8);
    assert(m.from.payload() == public_key);
    assert(decoded_transaction(encoded, Network::Testnet) == Some(
        MessageTxView::Message(m.wire().on(Network::Testnet)),
    ));
    assert(m.wire().on(Network::Testnet).wire() == m.wire());
}

/// Keys and signing bytes stay at the positions of their messages. Where
/// every message of a list yields both, there are as many keys and as many
/// signing bytes as messages, and those at a position are the ones of the
/// message at that position. Where the list fails, one of its messages fails
/// in that way, and every message before it yields both.
pub proof fn lemma_aggregate_inputs_by_position(messages: Seq<Seq<u8>>)
    ensures
        aggregate_inputs(messages) matches Ok(pair) ==> pair.0.len() == messages.len()
            && pair.1.len() == messages.len() && forall|i: int|
            0 <= i < messages.len() ==> message_public_key(#[trigger] messages[i]) == Ok::<
                _,
                ErrorKind,
            >(pair.0[i]) && message_signing_bytes(messages[i]) == Ok::<_, ErrorKind>(pair.1[i]),
        aggregate_inputs(messages) matches Err(e) ==> exists|k: int|
            0 <= k < messages.len() && (#[trigger] message_fails_with(messages[k], e))
                && forall|i: int|
                0 <= i < k ==> message_public_key(#[trigger] messages[i]) is Ok
                    && message_signing_bytes(messages[i]) is Ok,
    decreases messages.len(),
{
    if messages.len() > 0 {
        let front = messages.drop_last();
        lemma_aggregate_inputs_by_position(front);
        match aggregate_inputs(front) {
            Ok(pair) => {
                assert forall|i: int| 0 <= i < front.len() implies message_public_key(
                    #[trigger] messages[i],
                ) is Ok && message_signing_bytes(messages[i]) is Ok by {
                    assert(front[i] == messages[i]);
                }
                match aggregate_inputs(messages) {
                    Ok(all) => {
                        assert forall|i: int| 0 <= i < messages.len() implies message_public_key(
                            #[trigger] messages[i],
                        ) == Ok::<_, ErrorKind>(all.0[i]) && message_signing_bytes(messages[i])
                            == Ok::<_, ErrorKind>(all.1[i]) by {
                            if i < front.len() {
                                assert(front[i] == messages[i]);
                            }
                        }
                    },
                    Err(e) => {
                        let k = messages.len() - 1;
                        assert(message_fails_with(messages[k], e));
                    },
                }
            },
            Err(e) => {
                let k = choose|k: int|
                    0 <= k < front.len() && (#[trigger] message_fails_with(front[k], e))
                        && forall|i: int|
                        0 <= i < k ==> message_public_key(#[trigger] front[i]) is Ok
                            && message_signing_bytes(front[i]) is Ok;
                assert(front[k] == messages[k]);
                assert(message_fails_with(messages[k], e));
                assert forall|i: int| 0 <= i < k implies message_public_key(
                    #[trigger] messages[i],
                ) is Ok && message_signing_bytes(messages[i]) is Ok by {
                    assert(front[i] == messages[i]);
                }
            },
        }
    }
}

/// A signature of the elliptic-curve scheme that commits to another key than
/// the sender's is answered with `false` and with no error: wherever the
/// transaction decodes, the signature has 65 bytes and a key is recovered
/// whose address is not the sender's, the answer is `false`, whatever the
/// curve library would say of the signature itself.
pub proof fn lemma_mismatch_answers_false(signature: Seq<u8>, cbor: Seq<u8>)
    requires
        decoded_transaction(cbor, Network::Testnet) is Some,
        signature.len() == 65,
        secp256k1_recovered(message_digest(cbor), signature.subrange(0, 64), signature[64])
            is Some,
        secp256k1_address_bytes(
            secp256k1_recovered(
                message_digest(cbor),
                signature.subrange(0, 64),
                signature[64],
            ).unwrap(),
        ) != decoded_transaction(cbor, Network::Testnet).unwrap().message().from.bytes,
    ensures
        secp256k1_verification(signature, cbor) == Ok::<_, ErrorKind>(false),
{
}

} // verus!
