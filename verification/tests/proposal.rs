use filecoin_signer::address::Address;
use filecoin_signer::amount::TokenAmount;
use filecoin_signer::proposal::{compute_proposal_hash, ProposalHashDataAPI};
use filecoin_signer::utils::blake2b_256;

fn unhex(text: &str) -> Vec<u8> {
    (0..text.len() / 2)
        .map(|i| u8::from_str_radix(&text[2 * i..2 * i + 2], 16).unwrap())
        .collect()
}

const A: &str = "01fd1d0f4dfcd7e99afcb99a8326b7dc459d32c628";
const B: &str = "011eaf1c8a4bbfeeb0870b1745b1f57503470b7116";

fn data(requester: Option<&str>) -> ProposalHashDataAPI {
    ProposalHashDataAPI {
        requester: requester.map(|r| Address::from_string(r).unwrap()),
        to: Address::from_string("f17uoq6tp427uzv7fztkbsnn64iwotfrristwpryy").unwrap(),
        value: TokenAmount::from_decimal("1000").unwrap(),
        method: 2,
        params: vec![0xde, 0xad],
    }
}

fn expected(requester: &[u8]) -> String {
    let mut bytes = vec![0x85];
    bytes.extend(requester);
    bytes.push(0x55);
    bytes.extend(unhex(A));
    bytes.extend([0x43, 0x00, 0x03, 0xe8]);
    bytes.push(0x02);
    bytes.extend([0x42, 0xde, 0xad]);
    base64::encode(blake2b_256(&bytes))
}

#[test]
fn proposal_hash_with_a_requester() {
    let mut requester = vec![0x55];
    requester.extend(unhex(B));
    let hash = compute_proposal_hash(data(Some("t1d2xrzcslx7xlbbylc5c3d5lvandqw4iwl6epxba")));
    assert_eq!(hash.unwrap(), expected(&requester));
}

#[test]
fn proposal_hash_without_a_requester() {
    let hash = compute_proposal_hash(data(None)).unwrap();
    assert_eq!(hash, expected(&[0xf6]));
    assert_eq!(base64::decode(&hash).unwrap().len(), 32);
}

#[test]
fn proposal_hash_depends_on_every_field_but_the_network() {
    let base = compute_proposal_hash(data(None)).unwrap();
    let mut other = data(None);
    other.method = 3;
    assert_ne!(compute_proposal_hash(other).unwrap(), base);
    let mut other = data(None);
    other.value = TokenAmount::from_decimal("1001").unwrap();
    assert_ne!(compute_proposal_hash(other).unwrap(), base);
    let mut other = data(None);
    other.params = vec![];
    assert_ne!(compute_proposal_hash(other).unwrap(), base);
    let mut other = data(None);
    other.to = Address::from_string("f1d2xrzcslx7xlbbylc5c3d5lvandqw4iwl6epxba").unwrap();
    assert_ne!(compute_proposal_hash(other).unwrap(), base);
    let mut other = data(None);
    other.to = Address::from_string("t17uoq6tp427uzv7fztkbsnn64iwotfrristwpryy").unwrap();
    assert_eq!(compute_proposal_hash(other).unwrap(), base);
}
