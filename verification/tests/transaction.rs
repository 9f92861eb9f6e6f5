use filecoin_signer::address::{Address, Network};
use filecoin_signer::amount::TokenAmount;
use filecoin_signer::error::SignerError;
use filecoin_signer::utils::{blake2b_256, cid_bytes};
use filecoin_signer::message::{
    get_cid, signed_message_serialize, transaction_parse, transaction_serialize, Message,
    MessageTxAPI, Signature, SignatureType, SignedMessage,
};

fn unhex(text: &str) -> Vec<u8> {
    (0..text.len() / 2)
        .map(|i| u8::from_str_radix(&text[2 * i..2 * i + 2], 16).unwrap())
        .collect()
}

const EXAMPLE_CBOR: &str = "8a005501fd1d0f4dfcd7e99afcb99a8326b7dc459d32c62855011eaf1c8a4bbfeeb0870b1745b1f57503470b71160144000186a01961a8430009c4430009c40040";

fn example_message() -> Message {
    Message {
        version: 0,
        to: Address::from_string("t17uoq6tp427uzv7fztkbsnn64iwotfrristwpryy").unwrap(),
        from: Address::from_string("t1d2xrzcslx7xlbbylc5c3d5lvandqw4iwl6epxba").unwrap(),
        sequence: 1,
        value: TokenAmount::from_decimal("100000").unwrap(),
        gas_limit: 25000,
        gas_fee_cap: TokenAmount::from_decimal("2500").unwrap(),
        gas_premium: TokenAmount::from_decimal("2500").unwrap(),
        method_num: 0,
        params: vec![],
    }
}

#[test]
fn transaction_serialize_reference_message() {
    let bytes = transaction_serialize(&example_message()).unwrap();
    assert_eq!(bytes, unhex(EXAMPLE_CBOR));
}

#[test]
fn transaction_parse_reference_message() {
    let tx = transaction_parse(&unhex(EXAMPLE_CBOR), true).unwrap();
    let m = match tx {
        MessageTxAPI::Message(m) => m,
        MessageTxAPI::SignedMessage(_) => panic!("not signed"),
    };
    assert_eq!(m.version, 0);
    assert_eq!(m.to.to_string(), "t17uoq6tp427uzv7fztkbsnn64iwotfrristwpryy");
    assert_eq!(m.from.to_string(), "t1d2xrzcslx7xlbbylc5c3d5lvandqw4iwl6epxba");
    assert_eq!(m.sequence, 1);
    assert_eq!(m.value.to_decimal(), "100000");
    assert_eq!(m.gas_limit, 25000);
    assert_eq!(m.gas_fee_cap.to_decimal(), "2500");
    assert_eq!(m.gas_premium.to_decimal(), "2500");
    assert_eq!(m.method_num, 0);
    assert_eq!(m.params, Vec::<u8>::new());
}

#[test]
fn transaction_parse_tags_addresses_with_the_given_network() {
    let main = transaction_parse(&unhex(EXAMPLE_CBOR), false).unwrap();
    let m = main.get_message();
    assert_eq!(m.from.network(), Network::Mainnet);
    assert_eq!(m.to.to_string(), "f17uoq6tp427uzv7fztkbsnn64iwotfrristwpryy");
    let test = transaction_parse(&unhex(EXAMPLE_CBOR), true).unwrap();
    assert_eq!(test.get_message().from.network(), Network::Testnet);
}

#[test]
fn transaction_round_trip_keeps_every_field() {
    let m = Message {
        version: 0,
        to: Address::from_string("f01024").unwrap(),
        from: Address::from_string(
            "f3vvmn62lofvhjd2ugzca6sof2j2ubwok6cj4xxbfzz4yuxfkgobpihhd2thlanmsh3w2ptld2gqkn2jvlss4a",
        )
        .unwrap(),
        sequence: u64::MAX,
        value: TokenAmount::from_decimal("123456789012345678901234567890").unwrap(),
        gas_limit: 7,
        gas_fee_cap: TokenAmount::zero(),
        gas_premium: TokenAmount::from_decimal("1").unwrap(),
        method_num: 3,
        params: vec![0x82, 0x01, 0x02],
    };
    let bytes = transaction_serialize(&m).unwrap();
    let back = transaction_parse(&bytes, false).unwrap();
    let b = back.get_message();
    assert_eq!(b.version, m.version);
    assert!(b.to.same_as(&m.to));
    assert!(b.from.same_as(&m.from));
    assert_eq!(b.sequence, m.sequence);
    assert_eq!(b.value.to_decimal(), "123456789012345678901234567890");
    assert_eq!(b.gas_limit, m.gas_limit);
    assert_eq!(b.gas_fee_cap.to_decimal(), "0");
    assert_eq!(b.gas_premium.to_decimal(), "1");
    assert_eq!(b.method_num, m.method_num);
    assert_eq!(b.params, m.params);
    assert_eq!(transaction_serialize(b).unwrap(), bytes);
}

#[test]
fn transaction_parse_rejects_what_is_no_transaction() {
    for bytes in [vec![], vec![0x00], unhex("8a00"), unhex("8100")] {
        assert!(matches!(
            transaction_parse(&bytes, true),
            Err(SignerError::Encoding(_))
        ));
    }
}

#[test]
fn signed_message_round_trip() {
    let signed = SignedMessage {
        message: example_message(),
        signature: Signature { sig_type: SignatureType::Secp256k1, bytes: vec![7u8; 65] },
    };
    let bytes = signed_message_serialize(&signed).unwrap();
    assert_eq!(bytes[0], 0x82);
    assert_eq!(&bytes[1..1 + EXAMPLE_CBOR.len() / 2], &unhex(EXAMPLE_CBOR)[..]);
    assert_eq!(&bytes[1 + EXAMPLE_CBOR.len() / 2..][..3], &[0x58, 0x42, 0x01]);
    match transaction_parse(&bytes, true).unwrap() {
        MessageTxAPI::SignedMessage(s) => {
            assert_eq!(s.signature.sig_type, SignatureType::Secp256k1);
            assert_eq!(s.signature.bytes, vec![7u8; 65]);
            assert_eq!(transaction_serialize(&s.message).unwrap(), unhex(EXAMPLE_CBOR));
        }
        MessageTxAPI::Message(_) => panic!("signed"),
    }
}

#[test]
fn cid_of_a_message_is_base32_of_head_and_hash() {
    let text = get_cid(MessageTxAPI::Message(example_message())).unwrap();
    assert!(text.starts_with("bafy2bzace"), "{text}");
    assert_eq!(text.len(), 62);
    let signed = SignedMessage {
        message: example_message(),
        signature: Signature::new_bls(vec![1u8; 96]),
    };
    let other = get_cid(MessageTxAPI::SignedMessage(signed)).unwrap();
    assert!(other.starts_with("bafy2bzace"));
    assert_ne!(other, text);
}

#[test]
fn cid_of_a_message_exact_text() {
    let encoded = unhex(EXAMPLE_CBOR);
    let hash = cid::multihash::Multihash::<64>::wrap(0xb220, &blake2b_256(&encoded)).unwrap();
    let expected = cid::Cid::new_v1(0x71, hash);
    assert_eq!(expected.to_bytes(), cid_bytes(&encoded));
    let text = get_cid(MessageTxAPI::Message(example_message())).unwrap();
    assert_eq!(text, expected.to_string());
    // Base32 in lower case behind the letter b.
    assert!(text[1..].chars().all(|c| c.is_ascii_lowercase() || ('2'..='7').contains(&c)));
}

#[test]
fn cid_of_a_signed_message_is_that_of_its_own_encoding() {
    let signed = SignedMessage {
        message: example_message(),
        signature: Signature { sig_type: SignatureType::Secp256k1, bytes: vec![7u8; 65] },
    };
    let encoded = signed_message_serialize(&signed).unwrap();
    let hash = cid::multihash::Multihash::<64>::wrap(0xb220, &blake2b_256(&encoded)).unwrap();
    let expected = cid::Cid::new_v1(0x71, hash).to_string();
    assert_eq!(get_cid(MessageTxAPI::SignedMessage(signed)).unwrap(), expected);
}

#[test]
fn encoding_does_not_depend_on_the_network() {
    let mut m = example_message();
    let test = transaction_serialize(&m).unwrap();
    m.from.set_network(Network::Mainnet);
    m.to.set_network(Network::Mainnet);
    assert_eq!(transaction_serialize(&m).unwrap(), test);
}

#[test]
fn message_copy_has_the_same_fields() {
    let m = example_message();
    let copy = m.duplicate();
    assert_eq!(transaction_serialize(&copy).unwrap(), transaction_serialize(&m).unwrap());
    assert!(copy.from.same_as(&m.from));
    assert!(copy.to.same_as(&m.to));
}
