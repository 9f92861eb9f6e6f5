use filecoin_signer::address::{Address, Network, Protocol};
use filecoin_signer::error::SignerError;

fn unhex(text: &str) -> Vec<u8> {
    (0..text.len() / 2)
        .map(|i| u8::from_str_radix(&text[2 * i..2 * i + 2], 16).unwrap())
        .collect()
}

#[test]
fn address_text_round_trip_on_both_networks() {
    let main = Address::from_string("f17uoq6tp427uzv7fztkbsnn64iwotfrristwpryy").unwrap();
    assert_eq!(main.network(), Network::Mainnet);
    assert_eq!(main.protocol(), Protocol::Secp256k1);
    assert_eq!(main.to_string(), "f17uoq6tp427uzv7fztkbsnn64iwotfrristwpryy");

    let test = Address::from_string("t17uoq6tp427uzv7fztkbsnn64iwotfrristwpryy").unwrap();
    assert_eq!(test.network(), Network::Testnet);
    assert_eq!(test.to_string(), "t17uoq6tp427uzv7fztkbsnn64iwotfrristwpryy");
    assert_eq!(test.to_bytes(), main.to_bytes());
    assert!(!test.same_as(&main));
}

#[test]
fn address_payload_is_what_follows_the_protocol_byte() {
    let a = Address::from_string("f17uoq6tp427uzv7fztkbsnn64iwotfrristwpryy").unwrap();
    assert_eq!(a.payload_bytes(), unhex("fd1d0f4dfcd7e99afcb99a8326b7dc459d32c628"));
    assert_eq!(a.to_bytes(), unhex("01fd1d0f4dfcd7e99afcb99a8326b7dc459d32c628"));
    assert_eq!(a.as_bytes(), &unhex("01fd1d0f4dfcd7e99afcb99a8326b7dc459d32c628")[..]);
}

#[test]
fn address_set_network_changes_the_first_letter_only() {
    let mut a = Address::from_string("f01024").unwrap();
    assert_eq!(a.protocol(), Protocol::ID);
    a.set_network(Network::Testnet);
    assert_eq!(a.to_string(), "t01024");
    assert_eq!(a.network(), Network::Testnet);
    let copy = a.duplicate();
    assert!(copy.same_as(&a));
}

#[test]
fn address_of_a_pairing_key_holds_the_key() {
    let key = unhex(
        "ad58df696e2d4e91ea86c881e938ba4ea81b395e12797b84b9cf314b9546705e839c7a99d606b247ddb4f9ac7a3414dd",
    );
    let a = Address::new_bls(Network::Mainnet, &key).unwrap();
    assert_eq!(a.protocol(), Protocol::BLS);
    assert_eq!(a.payload_bytes(), key);
    assert_eq!(
        a.to_string(),
        "f3vvmn62lofvhjd2ugzca6sof2j2ubwok6cj4xxbfzz4yuxfkgobpihhd2thlanmsh3w2ptld2gqkn2jvlss4a"
    );
}

#[test]
fn address_rejects_keys_of_the_wrong_length() {
    assert!(matches!(
        Address::new_bls(Network::Mainnet, &[8u8; 47]),
        Err(SignerError::Address(_))
    ));
    assert!(matches!(
        Address::new_bls(Network::Mainnet, &[8u8; 49]),
        Err(SignerError::Address(_))
    ));
    assert!(matches!(
        Address::new_secp256k1(Network::Mainnet, &[8u8; 64]),
        Err(SignerError::Address(_))
    ));
    assert!(matches!(
        Address::new_secp256k1(Network::Mainnet, &[8u8; 66]),
        Err(SignerError::Address(_))
    ));
    let a = Address::new_secp256k1(Network::Testnet, &[8u8; 65]).unwrap();
    assert_eq!(a.protocol(), Protocol::Secp256k1);
    assert_eq!(a.payload_bytes().len(), 20);
}

#[test]
fn address_from_bytes_checks_the_form() {
    assert!(Address::from_bytes(Network::Mainnet, vec![]).is_err());
    assert!(Address::from_bytes(Network::Mainnet, vec![1]).is_err());
    assert!(Address::from_bytes(Network::Mainnet, vec![5, 1, 2]).is_err());
    assert!(Address::from_bytes(Network::Mainnet, vec![1; 20]).is_err());
    let a = Address::from_bytes(Network::Mainnet, vec![1; 21]).unwrap();
    assert_eq!(a.protocol(), Protocol::Secp256k1);
    let id = Address::from_bytes(Network::Mainnet, vec![0, 0x80, 0x08]).unwrap();
    assert_eq!(id.to_string(), "f01024");
    let actor = Address::from_bytes(Network::Testnet, vec![2; 21]).unwrap();
    assert_eq!(actor.protocol(), Protocol::Actor);
}

#[test]
fn address_text_that_is_none_is_rejected() {
    for text in ["", "f", "x17uoq6tp427uzv7fztkbsnn64iwotfrristwpryy", "f17uoq6tp427uzv7fztkbsnn64iwotfrristwpryz", "f9abc"] {
        assert!(
            matches!(Address::from_string(text), Err(SignerError::Address(_))),
            "{text}"
        );
    }
}
