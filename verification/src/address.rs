//! Addresses: a network tag, a protocol tag and the payload bytes.
//!
//! An address is kept in its binary form, the protocol byte followed by the
//! payload. The network is not part of that form: it only selects the first
//! letter of the text form.

use vstd::prelude::*;
use crate::error::SignerError;
use crate::utils::{blake2b_digest, bytes_eq};

verus! {

/// The network an address is written for.
#[derive(Clone, Copy, Debug, PartialEq, Eq, Structural)]
pub enum Network {
    Mainnet,
    Testnet,
}

/// How the payload of an address is to be read.
#[derive(Clone, Copy, Debug, PartialEq, Eq, Structural)]
pub enum Protocol {
    /// The payload is an actor id.
    ID,
    /// The payload is the hash of an elliptic-curve public key.
    Secp256k1,
    /// The payload is the hash of actor data.
    Actor,
    /// The payload is a whole pairing-scheme public key.
    BLS,
    /// The payload is a namespace and a sub-address.
    Delegated,
}

/// Number of bytes of an uncompressed elliptic-curve public key.
pub const SECP_PUB_LEN: usize = 65;

/// Number of bytes of a pairing-scheme public key.
pub const BLS_PUB_LEN: usize = 48;

/// Whether `fvm_shared` accepts `payload` as the payload of an address with
/// the protocol byte `protocol`.
pub uninterp spec fn payload_accepted(protocol: u8, payload: Seq<u8>) -> bool;

/// The text form of the address with the binary form `bytes`, without its
/// leading network letter: the protocol digit and the encoded payload.
pub uninterp spec fn address_text_tail(bytes: Seq<u8>) -> Seq<char>;

/// The binary form of the address that `text` denotes on `network`, if it
/// denotes one there.
pub uninterp spec fn parsed_address(network: Network, text: Seq<char>) -> Option<Seq<u8>>;

/// Whether `bytes` is the binary form of an address: a known protocol byte
/// followed by a payload that fits it.
pub open spec fn address_bytes_valid(bytes: Seq<u8>) -> bool {
    &&& bytes.len() >= 2
    &&& bytes[0] <= 4
    &&& payload_accepted(bytes[0], bytes.skip(1))
}

/// The protocol that a protocol byte stands for.
pub open spec fn protocol_of_byte(b: u8) -> Protocol {
    if b == 0 {
        Protocol::ID
    } else if b == 1 {
        Protocol::Secp256k1
    } else if b == 2 {
        Protocol::Actor
    } else if b == 3 {
        Protocol::BLS
    } else {
        Protocol::Delegated
    }
}

/// The letter that opens the text form of an address on `network`.
pub open spec fn network_letter(network: Network) -> char {
    match network {
        Network::Mainnet => 'f',
        Network::Testnet => 't',
    }
}

/// The binary form of the address of an elliptic-curve public key: the
/// protocol byte 1 and the 20-byte hash of the key.
pub open spec fn secp256k1_address_bytes(pubkey: Seq<u8>) -> Seq<u8> {
    seq![1u8] + blake2b_digest(20, pubkey)
}

/// The binary form of the address of a pairing-scheme public key: the
/// protocol byte 3 and the key itself.
pub open spec fn bls_address_bytes(pubkey: Seq<u8>) -> Seq<u8> {
    seq![3u8] + pubkey
}

/// What an address is, as a mathematical value.
pub struct AddressView {
    pub network: Network,
    pub bytes: Seq<u8>,
}

impl AddressView {
    /// The protocol tag.
    pub open spec fn protocol(self) -> Protocol {
        protocol_of_byte(self.bytes[0])
    }

    /// The payload: everything after the protocol byte.
    pub open spec fn payload(self) -> Seq<u8> {
        self.bytes.skip(1)
    }

    /// The same address on another network.
    pub open spec fn on(self, network: Network) -> AddressView {
        AddressView { network, bytes: self.bytes }
    }

    /// The text form: the network letter, then the rest.
    pub open spec fn text(self) -> Seq<char> {
        seq![network_letter(self.network)] + address_text_tail(self.bytes)
    }
}

/// The address that `text` denotes: the one it denotes on the main network,
/// or else the one it denotes on the test network.
pub open spec fn address_of_text(text: Seq<char>) -> Option<AddressView> {
    match parsed_address(Network::Mainnet, text) {
        Some(bytes) => Some(AddressView { network: Network::Mainnet, bytes }),
        None => match parsed_address(Network::Testnet, text) {
            Some(bytes) => Some(AddressView { network: Network::Testnet, bytes }),
            None => None,
        },
    }
}

/// A network-tagged address. Its binary form is always one that
/// `fvm_shared` accepts.
#[derive(Debug)]
pub struct Address {
    pub(crate) network: Network,
    pub(crate) bytes: Vec<u8>,
}

/// Calls `fvm_shared::address::Address::from_bytes`, which succeeds exactly on
/// the binary forms of addresses: at least two bytes, a protocol byte from 0
/// to 4, and a payload that `Payload::new` takes for that protocol.
#[verifier::external_body]
fn check_address_bytes(bytes: &[u8]) -> (r: Result<(), fvm_shared::address::Error>)
    ensures
        r is Ok <==> (bytes@.len() >= 2 && bytes@[0] <= 4 && payload_accepted(
            bytes@[0],
            bytes@.skip(1),
        )),
{
    fvm_shared::address::Address::from_bytes(bytes).map(|_| ())
}

/// Calls `fvm_shared::address::Address::new_secp256k1` and `to_bytes`. The
/// first takes keys of 65 bytes only and hashes the key to 20 bytes with
/// BLAKE2b; the second puts the protocol byte 1 in front.
#[verifier::external_body]
fn secp256k1_address(pubkey: &[u8]) -> (r: Result<Vec<u8>, fvm_shared::address::Error>)
    ensures
        r is Ok <==> pubkey@.len() == 65,
        r matches Ok(bytes) ==> bytes@ == secp256k1_address_bytes(pubkey@) && address_bytes_valid(
            bytes@,
        ),
{
    fvm_shared::address::Address::new_secp256k1(pubkey).map(|a| a.to_bytes())
}

/// Calls `fvm_shared::address::Address::new_bls` and `to_bytes`. The first
/// takes keys of 48 bytes only and keeps the key as the payload; the second
/// puts the protocol byte 3 in front.
#[verifier::external_body]
fn bls_address(pubkey: &[u8]) -> (r: Result<Vec<u8>, fvm_shared::address::Error>)
    ensures
        r is Ok <==> pubkey@.len() == 48,
        r matches Ok(bytes) ==> bytes@ == bls_address_bytes(pubkey@) && address_bytes_valid(
            bytes@,
        ),
{
    fvm_shared::address::Address::new_bls(pubkey).map(|a| a.to_bytes())
}

/// Calls `fvm_shared::address::Address::from_bytes` and `to_string`, and
/// leaves out the first character of the text, which `fvm_shared` takes from
/// a process-wide setting and not from the address.
#[verifier::external_body]
fn text_tail(bytes: &[u8]) -> (r: String)
    requires
        address_bytes_valid(bytes@),
    ensures
        r@ == address_text_tail(bytes@),
{
    let text = fvm_shared::address::Address::from_bytes(bytes).map(|a| a.to_string());
    text.map(|t| t[1..].to_string()).unwrap_or_default()
}

/// Calls `fvm_shared::address::Network::parse_address` and `to_bytes`: the
/// binary form of the address that `text` denotes, provided that `text` is
/// written for `network`.
#[verifier::external_body]
fn parse_on(network: Network, text: &str) -> (r: Result<Vec<u8>, fvm_shared::address::Error>)
    ensures
        r is Ok <==> parsed_address(network, text@) is Some,
        r matches Ok(bytes) ==> parsed_address(network, text@) == Some(bytes@)
            && address_bytes_valid(bytes@),
{
    let outside = match network {
        Network::Mainnet => fvm_shared::address::Network::Mainnet,
        Network::Testnet => fvm_shared::address::Network::Testnet,
    };
    outside.parse_address(text).map(|a| a.to_bytes())
}

impl View for Address {
    type V = AddressView;

    closed spec fn view(&self) -> AddressView {
        AddressView { network: self.network, bytes: self.bytes@ }
    }
}

impl Address {
    #[verifier::type_invariant]
    spec fn well_formed(self) -> bool {
        address_bytes_valid(self.bytes@)
    }

    /// The address with the binary form `bytes` on `network`. Fails exactly
    /// when `bytes` is not the binary form of an address.
    pub fn from_bytes(network: Network, bytes: Vec<u8>) -> (r: Result<Address, SignerError>)
        ensures
            r is Ok <==> address_bytes_valid(bytes@),
            r matches Ok(a) ==> a@ == (AddressView { network, bytes: bytes@ }),
            r matches Err(e) ==> e is Address,
    {
        match check_address_bytes(bytes.as_slice()) {
            Ok(()) => Ok(Address { network, bytes }),
            Err(e) => Err(SignerError::Address(e)),
        }
    }

    /// The address of an uncompressed elliptic-curve public key: its payload
    /// is a hash of the key. Fails exactly when the key is not 65 bytes long.
    pub fn new_secp256k1(network: Network, pubkey: &[u8]) -> (r: Result<Address, SignerError>)
        ensures
            r is Ok <==> pubkey@.len() == SECP_PUB_LEN,
            r matches Ok(a) ==> a@ == (AddressView {
                network,
                bytes: secp256k1_address_bytes(pubkey@),
            }),
            r matches Err(e) ==> e is Address,
    {
        match secp256k1_address(pubkey) {
            Ok(bytes) => Ok(Address { network, bytes }),
            Err(e) => Err(SignerError::Address(e)),
        }
    }

    /// The address of a pairing-scheme public key: its payload is the key
    /// itself. Fails exactly when the key is not 48 bytes long.
    pub fn new_bls(network: Network, pubkey: &[u8]) -> (r: Result<Address, SignerError>)
        ensures
            r is Ok <==> pubkey@.len() == BLS_PUB_LEN,
            r matches Ok(a) ==> a@ == (AddressView { network, bytes: bls_address_bytes(pubkey@) }),
            r matches Err(e) ==> e is Address,
    {
        match bls_address(pubkey) {
            Ok(bytes) => Ok(Address { network, bytes }),
            Err(e) => Err(SignerError::Address(e)),
        }
    }

    /// Reads the text form of an address. The first letter decides the
    /// network. Fails exactly when `text` denotes no address on either
    /// network.
    pub fn from_string(text: &str) -> (r: Result<Address, SignerError>)
        ensures
            r is Ok <==> address_of_text(text@) is Some,
            r matches Ok(a) ==> address_of_text(text@) == Some(a@),
            r matches Err(e) ==> e is Address,
    {
        match parse_on(Network::Mainnet, text) {
            Ok(bytes) => Ok(Address { network: Network::Mainnet, bytes }),
            Err(_) => match parse_on(Network::Testnet, text) {
                Ok(bytes) => Ok(Address { network: Network::Testnet, bytes }),
                Err(e) => Err(SignerError::Address(e)),
            },
        }
    }

    /// The text form: `f` or `t` for the network, then the protocol digit and
    /// the encoded payload.
    pub fn to_string(&self) -> (text: String)
        ensures
            text@ == self@.text(),
    {
        proof {
            use_type_invariant(self);
            reveal_strlit("f");
            reveal_strlit("t");
        }
        let tail = text_tail(self.bytes.as_slice());
        let mut text = match self.network {
            Network::Mainnet => "f".to_string(),
            Network::Testnet => "t".to_string(),
        };
        text.append(tail.as_str());
        assert(text@ =~= self@.text());
        text
    }

    /// The binary form, borrowed: the protocol byte followed by the payload.
    /// It is always one that stands for an address.
    pub fn as_bytes(&self) -> (bytes: &[u8])
        ensures
            bytes@ == self@.bytes,
            address_bytes_valid(bytes@),
    {
        proof {
            use_type_invariant(self);
        }
        self.bytes.as_slice()
    }

    /// The network tag.
    pub fn network(&self) -> (n: Network)
        ensures
            n == self@.network,
    {
        self.network
    }

    /// Sets the network tag and leaves the rest as it is.
    pub fn set_network(&mut self, network: Network)
        ensures
            final(self)@ == old(self)@.on(network),
    {
        proof {
            use_type_invariant(&*self);
        }
        self.network = network;
    }

    /// The protocol tag.
    pub fn protocol(&self) -> (p: Protocol)
        ensures
            p == self@.protocol(),
    {
        proof {
            use_type_invariant(self);
        }
        let b = self.bytes[0];
        if b == 0 {
            Protocol::ID
        } else if b == 1 {
            Protocol::Secp256k1
        } else if b == 2 {
            Protocol::Actor
        } else if b == 3 {
            Protocol::BLS
        } else {
            Protocol::Delegated
        }
    }

    /// The payload bytes.
    pub fn payload_bytes(&self) -> (payload: Vec<u8>)
        ensures
            payload@ == self@.payload(),
    {
        proof {
            use_type_invariant(self);
        }
        let mut payload: Vec<u8> = Vec::new();
        let n = self.bytes.len();
        let mut i: usize = 1;
        while i < n
            invariant
                1 <= i <= n,
                n == self.bytes@.len(),
                payload@ == self.bytes@.subrange(1, i as int),
            decreases n - i,
        {
            payload.push(self.bytes[i]);
            i = i + 1;
        }
        assert(self.bytes@.subrange(1, n as int) =~= self.bytes@.skip(1));
        payload
    }

    /// The binary form: the protocol byte followed by the payload.
    pub fn to_bytes(&self) -> (bytes: Vec<u8>)
        ensures
            bytes@ == self@.bytes,
    {
        self.bytes.clone()
    }

    /// A copy of this address.
    pub fn duplicate(&self) -> (a: Address)
        ensures
            a@ == self@,
    {
        proof {
            use_type_invariant(self);
        }
        Address { network: self.network, bytes: self.bytes.clone() }
    }

    /// Whether two addresses agree in network and binary form.
    pub fn same_as(&self, other: &Address) -> (b: bool)
        ensures
            b == (self@ == other@),
    {
        let same_network = match (self.network, other.network) {
            (Network::Mainnet, Network::Mainnet) => true,
            (Network::Testnet, Network::Testnet) => true,
            _ => false,
        };
        let same_bytes = bytes_eq(self.bytes.as_slice(), other.bytes.as_slice());
        same_network && same_bytes
    }
}

} // verus!
