use filecoin_signer::address::{Address, Network};
use filecoin_signer::amount::TokenAmount;
use filecoin_signer::error::{ErrorKind, SignerError};
use filecoin_signer::keys::{key_recover, key_recover_bls, PrivateKey};
use filecoin_signer::message::{Signature, SignatureType};
use filecoin_signer::utils::get_digest_voucher;
use filecoin_signer::voucher::{
    create_voucher, deserialize_voucher, serialize_voucher, sign_voucher,
    verify_voucher_signature, Merge, ModVerifyParams, SignedVoucher, SignedVoucherWrapper,
};

fn unhex(text: &str) -> Vec<u8> {
    (0..text.len() / 2)
        .map(|i| u8::from_str_radix(&text[2 * i..2 * i + 2], 16).unwrap())
        .collect()
}

fn reference_key() -> PrivateKey {
    PrivateKey::try_from(unhex(
        "f15716d3b003b304b8055d9cc62e6b9c869d56cc930c3858d4d7c31f5f53f14a",
    ))
    .unwrap()
}

const CHANNEL: &str = "t17uoq6tp427uzv7fztkbsnn64iwotfrristwpryy";
const CHANNEL_BYTES: &str = "01fd1d0f4dfcd7e99afcb99a8326b7dc459d32c628";
const SIGNER: &str = "t1d2xrzcslx7xlbbylc5c3d5lvandqw4iwl6epxba";

/// The encoding of the unsigned voucher of `fresh()`, field by field.
fn fresh_bytes() -> Vec<u8> {
    let mut bytes = vec![0x8b, 0x55];
    bytes.extend(unhex(CHANNEL_BYTES));
    bytes.extend([0x01]); // time_lock_min 1
    bytes.extend([0x18, 0x64]); // time_lock_max 100
    bytes.extend([0x40]); // no secret
    bytes.extend([0xf6]); // no extra verification
    bytes.extend([0x02]); // lane 2
    bytes.extend([0x03]); // nonce 3
    bytes.extend([0x44, 0x00, 0x01, 0x86, 0xa0]); // amount 100000
    bytes.extend([0x19, 0x03, 0xe8]); // min_settle_height 1000
    bytes.extend([0x80]); // nothing to merge
    bytes.extend([0xf6]); // no signature
    bytes
}

fn fresh() -> String {
    create_voucher(CHANNEL.to_string(), 1, 100, "100000".to_string(), 2, 3, 1000).unwrap()
}

#[test]
fn create_voucher_exact_encoding() {
    assert_eq!(fresh(), base64::encode(fresh_bytes()));
}

#[test]
fn create_voucher_is_unsigned_with_empty_lists() {
    let voucher = deserialize_voucher(fresh()).unwrap().0;
    assert_eq!(voucher.channel_addr.to_bytes(), unhex(CHANNEL_BYTES));
    assert_eq!(voucher.channel_addr.network(), Network::Mainnet);
    assert_eq!(voucher.time_lock_min, 1);
    assert_eq!(voucher.time_lock_max, 100);
    assert!(voucher.secret_pre_image.is_empty());
    assert!(voucher.extra.is_none());
    assert_eq!(voucher.lane, 2);
    assert_eq!(voucher.nonce, 3);
    assert_eq!(voucher.amount.to_decimal(), "100000");
    assert_eq!(voucher.min_settle_height, 1000);
    assert!(voucher.merges.is_empty());
    assert!(voucher.signature.is_none());
}

#[test]
fn create_voucher_negative_epochs_and_large_amounts() {
    let text = create_voucher(
        "f01024".to_string(),
        -1,
        i64::MAX,
        "340282366920938463463374607431768211456".to_string(),
        u64::MAX,
        0,
        i64::MIN,
    )
    .unwrap();
    let mut expected = vec![0x8b, 0x43, 0x00, 0x80, 0x08];
    expected.extend([0x20]); // -1
    expected.extend([0x1b, 0x7f, 0xff, 0xff, 0xff, 0xff, 0xff, 0xff, 0xff]);
    expected.extend([0x40, 0xf6]);
    expected.extend([0x1b, 0xff, 0xff, 0xff, 0xff, 0xff, 0xff, 0xff, 0xff]);
    expected.extend([0x00]);
    // 2^128: a sign byte and seventeen bytes of magnitude.
    expected.extend([0x52, 0x00, 0x01]);
    expected.extend([0u8; 16]);
    expected.extend([0x3b, 0x7f, 0xff, 0xff, 0xff, 0xff, 0xff, 0xff, 0xff]);
    expected.extend([0x80, 0xf6]);
    assert_eq!(text, base64::encode(expected));
}

#[test]
fn create_voucher_errors() {
    let e = create_voucher("nonsense".to_string(), 0, 0, "1".to_string(), 0, 0, 0).unwrap_err();
    assert!(matches!(e, SignerError::Address(_)));
    for amount in ["", "12a", "1.5", "0x10", " 1"] {
        let e = create_voucher(CHANNEL.to_string(), 0, 0, amount.to_string(), 0, 0, 0).unwrap_err();
        assert!(matches!(e, SignerError::InvalidAmount), "{amount}");
    }
    // The address is read before the amount.
    let e = create_voucher("nonsense".to_string(), 0, 0, "x".to_string(), 0, 0, 0).unwrap_err();
    assert_eq!(e.kind(), ErrorKind::Address);
}

#[test]
fn sign_voucher_attaches_an_elliptic_curve_signature() {
    let signed = sign_voucher(fresh(), &reference_key()).unwrap();
    let voucher = deserialize_voucher(signed.clone()).unwrap().0;
    let signature = voucher.signature.as_ref().unwrap();
    assert_eq!(signature.sig_type, SignatureType::Secp256k1);
    assert_eq!(signature.bytes.len(), 65);

    // The signature is over the hash of the unsigned encoding, and recovers
    // the signer's key.
    assert_eq!(voucher.signing_bytes().unwrap(), fresh_bytes());
    let digest = libsecp256k1::Message::parse_slice(&get_digest_voucher(&fresh_bytes())).unwrap();
    let rs = libsecp256k1::Signature::parse_standard_slice(&signature.bytes[..64]).unwrap();
    let id = libsecp256k1::RecoveryId::parse(signature.bytes[64]).unwrap();
    let recovered = libsecp256k1::recover(&digest, &rs, &id).unwrap();
    assert_eq!(
        recovered.serialize().to_vec(),
        key_recover(&reference_key(), true).unwrap().public_key.to_vec()
    );

    // All but the last field is as before; the last is the signature as a
    // byte string of scheme byte and 65 bytes.
    let bytes = base64::decode(&signed).unwrap();
    let n = fresh_bytes().len();
    assert_eq!(&bytes[..n - 1], &fresh_bytes()[..n - 1]);
    assert_eq!(&bytes[n - 1..n + 2], &[0x58, 0x42, 0x01]);
    assert_eq!(&bytes[n + 2..], &signature.bytes[..]);
}

#[test]
fn sign_voucher_replaces_an_older_signature() {
    let once = sign_voucher(fresh(), &reference_key()).unwrap();
    let twice = sign_voucher(once.clone(), &reference_key()).unwrap();
    assert_eq!(once, twice);
    let other = sign_voucher(once.clone(), &PrivateKey([3u8; 32])).unwrap();
    assert_ne!(once, other);
}

#[test]
fn voucher_round_trip_sign_then_verify() {
    let signed = sign_voucher(fresh(), &reference_key()).unwrap();
    assert_eq!(verify_voucher_signature(signed.clone(), SIGNER.to_string()).unwrap(), true);
    // The network of the signer's address plays no part.
    let main = format!("f{}", &SIGNER[1..]);
    assert_eq!(verify_voucher_signature(signed, main).unwrap(), true);
}

#[test]
fn verify_voucher_against_an_unrelated_address() {
    let signed = sign_voucher(fresh(), &reference_key()).unwrap();
    let e = verify_voucher_signature(signed.clone(), CHANNEL.to_string()).unwrap_err();
    assert!(matches!(e, SignerError::AddressMismatch));

    let stranger = key_recover_bls(&PrivateKey([1u8; 32]), true).unwrap().address;
    match verify_voucher_signature(signed.clone(), stranger) {
        Ok(valid) => assert!(!valid),
        Err(e) => assert_eq!(e.kind(), ErrorKind::Bls),
    }

    let e = verify_voucher_signature(signed.clone(), "t01024".to_string()).unwrap_err();
    assert_eq!(e.kind(), ErrorKind::UnsupportedSigningProtocol);
    let e = verify_voucher_signature(signed, "nonsense".to_string()).unwrap_err();
    assert_eq!(e.kind(), ErrorKind::Address);
}

#[test]
fn verify_voucher_not_signed() {
    let e = verify_voucher_signature(fresh(), SIGNER.to_string()).unwrap_err();
    assert!(matches!(e, SignerError::VoucherNotSigned));
    // Whatever the protocol of the signer.
    let e = verify_voucher_signature(fresh(), "t01024".to_string()).unwrap_err();
    assert_eq!(e.kind(), ErrorKind::VoucherNotSigned);
}

#[test]
fn verify_voucher_with_a_changed_field() {
    let signed = sign_voucher(fresh(), &reference_key()).unwrap();
    let mut voucher = deserialize_voucher(signed).unwrap().0;
    voucher.nonce += 1;
    let changed = serialize_voucher(SignedVoucherWrapper(voucher)).unwrap();
    match verify_voucher_signature(changed, SIGNER.to_string()) {
        Ok(valid) => assert!(!valid),
        Err(e) => assert!(matches!(e.kind(), ErrorKind::AddressMismatch | ErrorKind::Secp256k1)),
    }
}

#[test]
fn verify_voucher_with_a_pairing_signature() {
    use_bls_voucher();
}

fn use_bls_voucher() {
    let k = PrivateKey([1u8; 32]);
    let signer = key_recover_bls(&k, true).unwrap().address;
    let mut voucher = deserialize_voucher(fresh()).unwrap().0;
    let digest = get_digest_voucher(&voucher.signing_bytes().unwrap());
    let secret = <bls_signatures::PrivateKey as bls_signatures::Serialize>::from_bytes(&k.0).unwrap();
    let signature = bls_signatures::Serialize::as_bytes(&secret.sign(&digest));
    voucher.signature = Some(Signature::new_bls(signature));
    let text = serialize_voucher(SignedVoucherWrapper(voucher)).unwrap();
    assert_eq!(verify_voucher_signature(text.clone(), signer).unwrap(), true);
    let other = key_recover_bls(&PrivateKey([2u8; 32]), true).unwrap().address;
    assert_eq!(verify_voucher_signature(text.clone(), other).unwrap(), false);
    // Read as an elliptic-curve signature it has the wrong length.
    let e = verify_voucher_signature(text, SIGNER.to_string()).unwrap_err();
    assert_eq!(e.kind(), ErrorKind::InvalidLength);
}

#[test]
fn sign_and_verify_voucher_errors_of_the_encodings() {
    let e = sign_voucher("%%%".to_string(), &reference_key()).unwrap_err();
    assert!(matches!(e, SignerError::Base64(_)));
    let e = sign_voucher(base64::encode([0x80u8]), &reference_key()).unwrap_err();
    assert!(matches!(e, SignerError::Encoding(_)));
    let e = sign_voucher(fresh(), &PrivateKey([0u8; 32])).unwrap_err();
    assert!(matches!(e, SignerError::Secp256k1(_)));
    // The voucher is decoded before the key is looked at.
    let e = sign_voucher(base64::encode([0x80u8]), &PrivateKey([0u8; 32])).unwrap_err();
    assert_eq!(e.kind(), ErrorKind::Encoding);

    let e = verify_voucher_signature("%%%".to_string(), SIGNER.to_string()).unwrap_err();
    assert_eq!(e.kind(), ErrorKind::Base64);
    let e = verify_voucher_signature(base64::encode([0x80u8]), SIGNER.to_string()).unwrap_err();
    assert_eq!(e.kind(), ErrorKind::Encoding);
    let e = deserialize_voucher("%%%".to_string()).unwrap_err();
    assert_eq!(e.kind(), ErrorKind::Base64);
    let e = deserialize_voucher(base64::encode([0x8bu8, 0x00])).unwrap_err();
    assert_eq!(e.kind(), ErrorKind::Encoding);
}

#[test]
fn voucher_with_every_field_round_trips() {
    let voucher = SignedVoucher {
        channel_addr: Address::from_string(CHANNEL).unwrap(),
        time_lock_min: 5,
        time_lock_max: 6,
        secret_pre_image: vec![0xaa, 0xbb],
        extra: Some(ModVerifyParams {
            actor: Address::from_string("f01024").unwrap(),
            method: 7,
            data: vec![0x01],
        }),
        lane: 8,
        nonce: 9,
        amount: TokenAmount::from_decimal("10").unwrap(),
        min_settle_height: 11,
        merges: vec![Merge { lane: 1, nonce: 2 }, Merge { lane: 3, nonce: 4 }],
        signature: Some(Signature { sig_type: SignatureType::BLS, bytes: vec![0x0c; 3] }),
    };
    let mut expected = vec![0x8b, 0x55];
    expected.extend(unhex(CHANNEL_BYTES));
    expected.extend([0x05, 0x06]);
    expected.extend([0x42, 0xaa, 0xbb]);
    expected.extend([0x83, 0x43, 0x00, 0x80, 0x08, 0x07, 0x41, 0x01]);
    expected.extend([0x08, 0x09]);
    expected.extend([0x42, 0x00, 0x0a]);
    expected.extend([0x0b]);
    expected.extend([0x82, 0x82, 0x01, 0x02, 0x82, 0x03, 0x04]);
    expected.extend([0x44, 0x02, 0x0c, 0x0c, 0x0c]);
    assert_eq!(voucher.encode().unwrap(), expected);

    let mut unsigned = expected.clone();
    unsigned.truncate(expected.len() - 5);
    unsigned.push(0xf6);
    assert_eq!(voucher.signing_bytes().unwrap(), unsigned);

    let text = serialize_voucher(SignedVoucherWrapper(voucher)).unwrap();
    assert_eq!(text, base64::encode(&expected));
    let back = deserialize_voucher(text).unwrap().0;
    assert_eq!(back.encode().unwrap(), expected);
    assert_eq!(back.merges, vec![Merge { lane: 1, nonce: 2 }, Merge { lane: 3, nonce: 4 }]);
    let extra = back.extra.as_ref().unwrap();
    assert_eq!(extra.actor.to_string(), "f01024");
    assert_eq!(extra.method, 7);
    assert_eq!(extra.data, vec![0x01]);
    assert_eq!(back.secret_pre_image, vec![0xaa, 0xbb]);
    assert_eq!(back.signature.as_ref().unwrap().bytes, vec![0x0c; 3]);
    let decoded = SignedVoucher::decode(&expected, Network::Testnet).unwrap();
    assert_eq!(decoded.channel_addr.network(), Network::Testnet);
    assert_eq!(decoded.extra.unwrap().actor.to_string(), "t01024");
}

#[test]
fn create_voucher_refuses_a_negative_amount() {
    for amount in ["-1", "-100000", "-340282366920938463463374607431768211456"] {
        let e = create_voucher(CHANNEL.to_string(), 1, 100, amount.to_string(), 2, 3, 1000)
            .unwrap_err();
        assert!(matches!(e, SignerError::InvalidAmount), "{amount}");
        assert_eq!(e.kind(), ErrorKind::InvalidAmount);
    }
    // Zero is not below zero, however it is written.
    for amount in ["0", "-0", "+0"] {
        let text = create_voucher(CHANNEL.to_string(), 1, 100, amount.to_string(), 2, 3, 1000)
            .unwrap();
        let voucher = deserialize_voucher(text).unwrap().0;
        assert_eq!(voucher.amount.to_decimal(), "0");
    }
    // The address is still read first.
    let e = create_voucher("nonsense".to_string(), 0, 0, "-1".to_string(), 0, 0, 0).unwrap_err();
    assert_eq!(e.kind(), ErrorKind::Address);
}
