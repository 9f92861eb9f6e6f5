use filecoin_signer::error::{ErrorKind, SignerError};
use filecoin_signer::extended_key::{Bip44Path, ExtendedSecretKey};
use filecoin_signer::keys::{
    derive_extended_secret_key, key_derive, key_derive_from_seed, key_generate_mnemonic,
    key_recover, key_recover_bls, PrivateKey, PublicKey,
};

fn unhex(text: &str) -> Vec<u8> {
    (0..text.len() / 2)
        .map(|i| u8::from_str_radix(&text[2 * i..2 * i + 2], 16).unwrap())
        .collect()
}

fn hex(bytes: &[u8]) -> String {
    bytes.iter().map(|b| format!("{:02x}", b)).collect()
}

const MNEMONIC: &str = "equip will roof matter pink blind book anxiety banner elbow sun young";
const PRIVATE_KEY: &str = "f15716d3b003b304b8055d9cc62e6b9c869d56cc930c3858d4d7c31f5f53f14a";
const PUBLIC_KEY: &str = "0435e752dc6b4113f78edcf2cf7b8082e442021de5f00818f555397a6f181af795ace98f0f7d065793eaffa1b06bf52e572c97030c53a2396dfab40ba0e976b108";

#[test]
fn key_derive_reference_vector() {
    let key = key_derive(MNEMONIC, "m/44'/461'/0/0/0", "", "en").unwrap();
    assert_eq!(hex(&key.private_key.0), PRIVATE_KEY);
    assert_eq!(hex(&key.public_key.to_vec()), PUBLIC_KEY);
    assert!(matches!(key.public_key, PublicKey::SECP256K1PublicKey(_)));
    assert_eq!(key.address, "f1d2xrzcslx7xlbbylc5c3d5lvandqw4iwl6epxba");
}

#[test]
fn key_derive_takes_the_network_from_the_coin_type() {
    let key = key_derive(MNEMONIC, "m/44'/1'/0/0/0", "", "en").unwrap();
    assert_eq!(key.address, "t137sjdbgunloi7couiy4l5nc7pd6k2jmq32vizpy");
    // A coin type of 1 that is not hardened is no test network.
    let plain = key_derive(MNEMONIC, "m/44'/1/0/0/0", "", "en").unwrap();
    assert!(plain.address.starts_with("f1"));
}

#[test]
fn key_derive_is_deterministic_and_depends_on_the_password() {
    let a = key_derive(MNEMONIC, "m/44'/461'/0/0/0", "", "en").unwrap();
    let b = key_derive(MNEMONIC, "m/44'/461'/0/0/0", "", "en").unwrap();
    let c = key_derive(MNEMONIC, "m/44'/461'/0/0/0", "secret", "en").unwrap();
    assert_eq!(a.private_key.0, b.private_key.0);
    assert_eq!(a.address, b.address);
    assert_ne!(a.private_key.0, c.private_key.0);
}

#[test]
fn key_derive_language_code_ignores_case() {
    let key = key_derive(MNEMONIC, "m/44'/461'/0/0/0", "", "EN").unwrap();
    assert_eq!(hex(&key.private_key.0), PRIVATE_KEY);
}

#[test]
fn key_derive_errors() {
    let unknown = key_derive(MNEMONIC, "m/44'/461'/0/0/0", "", "xx").unwrap_err();
    assert_eq!(unknown.kind(), ErrorKind::UnsupportedLanguage);
    // The language is looked at before the mnemonic and the path.
    let unknown = key_derive("not a mnemonic", "nonsense", "", "xx").unwrap_err();
    assert_eq!(unknown.kind(), ErrorKind::UnsupportedLanguage);

    let bad_checksum = "equip will roof matter pink blind book anxiety banner elbow sun sun";
    let invalid = key_derive(bad_checksum, "m/44'/461'/0/0/0", "", "en").unwrap_err();
    assert!(matches!(invalid, SignerError::InvalidMnemonic(_)));
    let invalid = key_derive("equip will roof", "m/44'/461'/0/0/0", "", "en").unwrap_err();
    assert_eq!(invalid.kind(), ErrorKind::InvalidMnemonic);
    // English words are no French mnemonic.
    let invalid = key_derive(MNEMONIC, "m/44'/461'/0/0/0", "", "fr").unwrap_err();
    assert_eq!(invalid.kind(), ErrorKind::InvalidMnemonic);

    for path in ["44'/461'/0/0/0", "m/44'/461'/0/0", "m/44'/461'/0/0/0/0", "m/44'/461'/a/0/0", ""] {
        let e = key_derive(MNEMONIC, path, "", "en").unwrap_err();
        assert!(matches!(e, SignerError::InvalidPath(_)), "{path}");
    }
}

#[test]
fn key_derive_from_seed_standard_vector() {
    // Test vector 1 of the hierarchical derivation standard.
    let seed = unhex("000102030405060708090a0b0c0d0e0f");
    let key = key_derive_from_seed(&seed, "m/0'/1/2'/2/1000000000").unwrap();
    assert_eq!(
        hex(&key.private_key.0),
        "471b76e389e528d6de6d816857e012c5455051cad6660850e58372a6c3e6e7c8"
    );
    let public = key.public_key.to_vec();
    assert_eq!(public.len(), 65);
    assert_eq!(public[0], 0x04);
    // The compressed form of this key in the standard is 022a4714...7011.
    assert_eq!(
        hex(&public[1..33]),
        "2a471424da5e657499d1ff51cb43c47481a03b1e77f951fe64cec9f5a48f7011"
    );
    assert!(key.address.starts_with("f1"));
}

#[test]
fn derivation_steps_agree_with_the_standard_vector() {
    let seed = unhex("000102030405060708090a0b0c0d0e0f");
    let master = ExtendedSecretKey::from_seed(&seed).unwrap();
    assert_eq!(
        hex(&master.secret_key()),
        "e8f32e723decf4051aefac8e2c93c9c5b214313817cdb01a1494b917c8436b35"
    );
    let hardened = master.derive_child(0x8000_0000).unwrap();
    assert_eq!(
        hex(&hardened.secret_key()),
        "edb2e14f9ee77d26dd93b4ecede8d16ed408ce149b6cd80b0715a2d911a0afea"
    );
    let normal = hardened.derive_child(1).unwrap();
    assert_eq!(
        hex(&normal.secret_key()),
        "3c6cb8d0f6a264c91ea8b5030fadaa8e538b020f0a387421a12de9319dc93368"
    );
    let path = Bip44Path::from_string("m/0'/1/2'/2/1000000000").unwrap();
    assert_eq!(path.0, [0x8000_0000, 1, 0x8000_0002, 2, 1_000_000_000]);
    assert!(!path.is_testnet());
    let end = master.derive_bip44(&path).unwrap();
    assert_eq!(
        end.secret_key(),
        derive_extended_secret_key(&seed, "m/0'/1/2'/2/1000000000").unwrap().secret_key()
    );
    assert_eq!(end.duplicate().secret_key(), end.secret_key());
    assert_eq!(end.public_key().unwrap().len(), 65);
}

#[test]
fn path_of_a_test_network() {
    assert!(Bip44Path::from_string("m/44'/1'/0/0/0").unwrap().is_testnet());
    assert!(!Bip44Path::from_string("m/44'/461'/0/0/0").unwrap().is_testnet());
    assert!(!Bip44Path::from_string("m/1'/44'/0/0/0").unwrap().is_testnet());
}

#[test]
fn key_derive_from_seed_errors() {
    let seed = unhex("000102030405060708090a0b0c0d0e0f");
    let e = key_derive_from_seed(&seed, "m/0'/1/2'/2").unwrap_err();
    assert_eq!(e.kind(), ErrorKind::InvalidPath);
}

#[test]
fn key_generate_mnemonic_has_24_words_and_derives() {
    let a = key_generate_mnemonic().unwrap();
    let b = key_generate_mnemonic().unwrap();
    assert_eq!(a.0.split(' ').count(), 24);
    assert_ne!(a.0, b.0);
    assert!(key_derive(&a.0, "m/44'/461'/0/0/0", "", "en").is_ok());
}

#[test]
fn private_key_from_bytes_and_text() {
    let key = PrivateKey::try_from(unhex(PRIVATE_KEY)).unwrap();
    assert_eq!(hex(&key.0), PRIVATE_KEY);
    let same = PrivateKey::try_from("8VcW07ADswS4BV2cxi5rnIadVsyTDDhY1NfDH19T8Uo=".to_string()).unwrap();
    assert_eq!(same.0, key.0);

    assert_eq!(PrivateKey::try_from(vec![1u8; 31]).unwrap_err().kind(), ErrorKind::InvalidLength);
    assert_eq!(PrivateKey::try_from(vec![1u8; 33]).unwrap_err().kind(), ErrorKind::InvalidLength);
    assert_eq!(PrivateKey::try_from(Vec::<u8>::new()).unwrap_err().kind(), ErrorKind::InvalidLength);
    assert_eq!(
        PrivateKey::try_from("AAEC".to_string()).unwrap_err().kind(),
        ErrorKind::InvalidLength
    );
    assert!(matches!(
        PrivateKey::try_from("not base64!".to_string()),
        Err(SignerError::Base64(_))
    ));
}

#[test]
fn key_recover_reference_key() {
    let key = PrivateKey::try_from(unhex(PRIVATE_KEY)).unwrap();
    let test = key_recover(&key, true).unwrap();
    assert_eq!(test.address, "t1d2xrzcslx7xlbbylc5c3d5lvandqw4iwl6epxba");
    assert_eq!(hex(&test.private_key.0), PRIVATE_KEY);
    assert_eq!(hex(&test.public_key.to_vec()), PUBLIC_KEY);
    let main = key_recover(&key, false).unwrap();
    assert_eq!(main.address, "f1d2xrzcslx7xlbbylc5c3d5lvandqw4iwl6epxba");
}

#[test]
fn key_recover_rejects_what_is_no_scalar() {
    let zero = PrivateKey([0u8; 32]);
    assert!(matches!(key_recover(&zero, true), Err(SignerError::Secp256k1(_))));
    let too_large = PrivateKey([0xffu8; 32]);
    assert!(matches!(key_recover(&too_large, true), Err(SignerError::Secp256k1(_))));
    assert!(matches!(key_recover_bls(&too_large, true), Err(SignerError::Bls(_))));
}

#[test]
fn key_recover_bls_address_holds_the_public_key() {
    let key = PrivateKey::try_from(unhex(PRIVATE_KEY)).unwrap();
    let test = key_recover_bls(&key, true).unwrap();
    assert!(matches!(test.public_key, PublicKey::BLSPublicKey(_)));
    let public = test.public_key.to_vec();
    assert_eq!(public.len(), 48);
    assert_eq!(
        test.address,
        "t3r52r4c7dxhzuhubdenjuxgfak5tbmb3pbcv35wngm6qgvo7bwmvbuuw274rwyhcp53ydtt3ugexjnltnk75q"
    );
    let address = filecoin_signer::address::Address::from_string(&test.address).unwrap();
    assert_eq!(address.payload_bytes(), public);
    assert_eq!(test.private_key.0, key.0);
    let main = key_recover_bls(&key, false).unwrap();
    assert_eq!(&main.address[1..], &test.address[1..]);
    assert!(main.address.starts_with("f3"));
}

#[test]
fn key_recover_takes_a_derived_key_back() {
    for (path, testnet) in [("m/44'/461'/0/0/0", false), ("m/44'/1'/0/0/0", true), ("m/44'/461'/0'/0/7", false)] {
        let derived = key_derive(MNEMONIC, path, "", "en").unwrap();
        let recovered = key_recover(&derived.private_key, testnet).unwrap();
        assert_eq!(recovered.address, derived.address, "{path}");
        assert_eq!(recovered.public_key.to_vec(), derived.public_key.to_vec());
        assert_eq!(recovered.private_key.0, derived.private_key.0);
    }
    let seed = unhex("000102030405060708090a0b0c0d0e0f");
    let derived = key_derive_from_seed(&seed, "m/0'/1/2'/2/1000000000").unwrap();
    let recovered = key_recover(&derived.private_key, false).unwrap();
    assert_eq!(recovered.address, derived.address);
    assert_eq!(recovered.public_key.to_vec(), derived.public_key.to_vec());
}
