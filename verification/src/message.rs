//! Messages (unsigned transactions), signatures and signed messages, and
//! their canonical binary encoding.

use vstd::prelude::*;
use fvm_ipld_encoding::{from_slice, to_vec, RawBytes};
use fvm_shared::address as fvm_address;
use fvm_shared::bigint::BigInt;
use fvm_shared::crypto::signature as fvm_signature;
use fvm_shared::econ;
use fvm_shared::message as fvm_message;
use crate::address::{address_bytes_valid, Address, AddressView, Network};
use crate::amount::TokenAmount;
use crate::error::SignerError;
use crate::utils::{cid_bytes, cid_bytes_of};

verus! {

/// An unsigned transaction.
#[derive(Debug)]
pub struct Message {
    pub version: u64,
    pub from: Address,
    pub to: Address,
    pub sequence: u64,
    pub value: TokenAmount,
    pub method_num: u64,
    pub params: Vec<u8>,
    pub gas_limit: u64,
    pub gas_fee_cap: TokenAmount,
    pub gas_premium: TokenAmount,
}

/// What a message is, as a mathematical value.
pub struct MessageView {
    pub version: u64,
    pub from: AddressView,
    pub to: AddressView,
    pub sequence: u64,
    pub value: int,
    pub method_num: u64,
    pub params: Seq<u8>,
    pub gas_limit: u64,
    pub gas_fee_cap: int,
    pub gas_premium: int,
}

/// What a message is in its binary form, where addresses carry no network.
pub struct WireMessage {
    pub version: u64,
    pub from: Seq<u8>,
    pub to: Seq<u8>,
    pub sequence: u64,
    pub value: int,
    pub method_num: u64,
    pub params: Seq<u8>,
    pub gas_limit: u64,
    pub gas_fee_cap: int,
    pub gas_premium: int,
}

impl MessageView {
    /// The same message with both addresses on `network`.
    pub open spec fn on(self, network: Network) -> MessageView {
        MessageView { from: self.from.on(network), to: self.to.on(network), ..self }
    }

    /// The message without the network tags of its addresses.
    pub open spec fn wire(self) -> WireMessage {
        WireMessage {
            version: self.version,
            from: self.from.bytes,
            to: self.to.bytes,
            sequence: self.sequence,
            value: self.value,
            method_num: self.method_num,
            params: self.params,
            gas_limit: self.gas_limit,
            gas_fee_cap: self.gas_fee_cap,
            gas_premium: self.gas_premium,
        }
    }
}

impl WireMessage {
    /// The message with both addresses tagged with `network`.
    pub open spec fn on(self, network: Network) -> MessageView {
        MessageView {
            version: self.version,
            from: AddressView { network, bytes: self.from },
            to: AddressView { network, bytes: self.to },
            sequence: self.sequence,
            value: self.value,
            method_num: self.method_num,
            params: self.params,
            gas_limit: self.gas_limit,
            gas_fee_cap: self.gas_fee_cap,
            gas_premium: self.gas_premium,
        }
    }
}

impl View for Message {
    type V = MessageView;

    open spec fn view(&self) -> MessageView {
        MessageView {
            version: self.version,
            from: self.from@,
            to: self.to@,
            sequence: self.sequence,
            value: self.value@,
            method_num: self.method_num,
            params: self.params@,
            gas_limit: self.gas_limit,
            gas_fee_cap: self.gas_fee_cap@,
            gas_premium: self.gas_premium@,
        }
    }
}

impl Message {
    /// A copy of this message.
    pub fn duplicate(&self) -> (m: Message)
        ensures
            m@ == self@,
    {
        Message {
            version: self.version,
            from: self.from.duplicate(),
            to: self.to.duplicate(),
            sequence: self.sequence,
            value: self.value.duplicate(),
            method_num: self.method_num,
            params: self.params.clone(),
            gas_limit: self.gas_limit,
            gas_fee_cap: self.gas_fee_cap.duplicate(),
            gas_premium: self.gas_premium.duplicate(),
        }
    }
}

/// The scheme of a signature.
#[derive(Clone, Copy, Debug, PartialEq, Eq, Structural)]
pub enum SignatureType {
    /// Elliptic curve, with public-key recovery.
    Secp256k1,
    /// Pairing based.
    BLS,
}

impl SignatureType {
    /// The scheme that a scheme number stands for: 1 for the elliptic curve,
    /// 2 for the pairing scheme, and none for any other number.
    pub open spec fn of_byte(b: u8) -> Option<SignatureType> {
        if b == 1 {
            Some(SignatureType::Secp256k1)
        } else if b == 2 {
            Some(SignatureType::BLS)
        } else {
            None
        }
    }

    /// The number of a scheme.
    pub open spec fn byte_of(self) -> u8 {
        match self {
            SignatureType::Secp256k1 => 1,
            SignatureType::BLS => 2,
        }
    }

    /// The scheme with the number `b`. A number that stands for no scheme is
    /// refused as an unsupported signing protocol.
    pub fn from_byte(b: u8) -> (r: Result<SignatureType, SignerError>)
        ensures
            r matches Ok(t) ==> SignatureType::of_byte(b) == Some(t),
            r matches Err(e) ==> SignatureType::of_byte(b) is None
                && e is UnsupportedSigningProtocol,
    {
        if b == 1 {
            Ok(SignatureType::Secp256k1)
        } else if b == 2 {
            Ok(SignatureType::BLS)
        } else {
            Err(SignerError::UnsupportedSigningProtocol)
        }
    }

    /// The number of the scheme, which `from_byte` takes back.
    pub fn to_byte(self) -> (b: u8)
        ensures
            b == self.byte_of(),
            SignatureType::of_byte(b) == Some(self),
    {
        match self {
            SignatureType::Secp256k1 => 1,
            SignatureType::BLS => 2,
        }
    }
}

/// A signature: its scheme and its bytes.
#[derive(Debug)]
pub struct Signature {
    pub sig_type: SignatureType,
    pub bytes: Vec<u8>,
}

/// What a signature is, as a mathematical value.
pub struct SignatureView {
    pub sig_type: SignatureType,
    pub bytes: Seq<u8>,
}

impl View for Signature {
    type V = SignatureView;

    open spec fn view(&self) -> SignatureView {
        SignatureView { sig_type: self.sig_type, bytes: self.bytes@ }
    }
}

impl Signature {
    /// An elliptic-curve signature with the given bytes.
    pub fn new_secp256k1(bytes: Vec<u8>) -> (s: Signature)
        ensures
            s@ == (SignatureView { sig_type: SignatureType::Secp256k1, bytes: bytes@ }),
    {
        Signature { sig_type: SignatureType::Secp256k1, bytes }
    }

    /// A pairing-scheme signature with the given bytes.
    pub fn new_bls(bytes: Vec<u8>) -> (s: Signature)
        ensures
            s@ == (SignatureView { sig_type: SignatureType::BLS, bytes: bytes@ }),
    {
        Signature { sig_type: SignatureType::BLS, bytes }
    }
}

/// A message together with a signature over it.
#[derive(Debug)]
pub struct SignedMessage {
    pub message: Message,
    pub signature: Signature,
}

/// What a signed message is, as a mathematical value.
pub struct SignedMessageView {
    pub message: MessageView,
    pub signature: SignatureView,
}

impl View for SignedMessage {
    type V = SignedMessageView;

    open spec fn view(&self) -> SignedMessageView {
        SignedMessageView { message: self.message@, signature: self.signature@ }
    }
}

/// A transaction as it is handed around: with or without a signature.
#[derive(Debug)]
pub enum MessageTxAPI {
    Message(Message),
    SignedMessage(SignedMessage),
}

/// What a transaction is, as a mathematical value.
pub enum MessageTxView {
    Message(MessageView),
    SignedMessage(SignedMessageView),
}

impl MessageTxView {
    /// The message inside, signed or not.
    pub open spec fn message(self) -> MessageView {
        match self {
            MessageTxView::Message(m) => m,
            MessageTxView::SignedMessage(s) => s.message,
        }
    }
}

impl View for MessageTxAPI {
    type V = MessageTxView;

    open spec fn view(&self) -> MessageTxView {
        match self {
            MessageTxAPI::Message(m) => MessageTxView::Message(m@),
            MessageTxAPI::SignedMessage(s) => MessageTxView::SignedMessage(s@),
        }
    }
}

impl MessageTxAPI {
    /// The message inside, signed or not.
    pub fn get_message(&self) -> (m: &Message)
        ensures
            m@ == self@.message(),
    {
        match self {
            MessageTxAPI::Message(m) => m,
            MessageTxAPI::SignedMessage(s) => &s.message,
        }
    }
}

/// The canonical encoding of a message; `None` if it has none because an
/// amount is too large to encode.
pub uninterp spec fn message_encoding(message: WireMessage) -> Option<Seq<u8>>;

/// The message that `encoded` is an encoding of; `None` if it is no encoding
/// of a message.
pub uninterp spec fn decoded_message(encoded: Seq<u8>) -> Option<WireMessage>;

/// The canonical encoding of the pair of the message with the encoding
/// `message` and the signature `signature`; `None` if there is none.
pub uninterp spec fn signed_message_encoding(message: Seq<u8>, signature: SignatureView) -> Option<
    Seq<u8>,
>;

/// The two parts of an encoded signed message: the encoding of the message
/// and the signature; `None` if `encoded` is no encoding of a signed message.
pub uninterp spec fn signed_message_parts(encoded: Seq<u8>) -> Option<(Seq<u8>, SignatureView)>;

/// The text form of the content identifier with the binary form `bytes`;
/// `None` if `bytes` is no content identifier.
pub uninterp spec fn cid_text(bytes: Seq<u8>) -> Option<Seq<char>>;

/// Builds the `fvm_shared::message::Message` with the same fields and calls
/// `fvm_ipld_encoding::to_vec` on it.
#[verifier::external_body]
fn encode_message(m: &Message) -> (r: Result<Vec<u8>, fvm_ipld_encoding::Error>)
    requires
        address_bytes_valid(m@.from.bytes),
        address_bytes_valid(m@.to.bytes),
    ensures
        r is Ok <==> message_encoding(m@.wire()) is Some,
        r matches Ok(bytes) ==> message_encoding(m@.wire()) == Some(bytes@),
{
    let address = |a: &Address| fvm_address::Address::from_bytes(&a.bytes).unwrap();
    let amount = |a: &TokenAmount|
        econ::TokenAmount::from_atto(BigInt::from_signed_bytes_be(&a.atto));
    to_vec(&fvm_message::Message {
        version: m.version, from: address(&m.from), to: address(&m.to),
        sequence: m.sequence, value: amount(&m.value), method_num: m.method_num,
        params: RawBytes::new(m.params.clone()), gas_limit: m.gas_limit,
        gas_fee_cap: amount(&m.gas_fee_cap), gas_premium: amount(&m.gas_premium),
    })
}

/// Calls `fvm_ipld_encoding::from_slice` for a
/// `fvm_shared::message::Message` and copies its fields; both addresses get
/// the tag `network`, and their binary forms, which `Address::to_bytes`
/// writes, are ones that `Address::from_bytes` takes back.
#[verifier::external_body]
fn decode_message(encoded: &[u8], network: Network) -> (r: Result<
    Message,
    fvm_ipld_encoding::Error,
>)
    ensures
        r is Ok <==> decoded_message(encoded@) is Some,
        r matches Ok(m) ==> decoded_message(encoded@) == Some(m@.wire()) && m@.from.network
            == network && m@.to.network == network && address_bytes_valid(m@.from.bytes)
            && address_bytes_valid(m@.to.bytes),
{
    let m: fvm_message::Message = from_slice(encoded)?;
    let address = |a: fvm_address::Address| Address { network, bytes: a.to_bytes() };
    let amount = |a: econ::TokenAmount| TokenAmount { atto: a.atto().to_signed_bytes_be() };
    Ok(Message {
        version: m.version, from: address(m.from), to: address(m.to),
        sequence: m.sequence, value: amount(m.value), method_num: m.method_num,
        params: m.params.to_vec(), gas_limit: m.gas_limit,
        gas_fee_cap: amount(m.gas_fee_cap), gas_premium: amount(m.gas_premium),
    })
}

/// Calls `fvm_ipld_encoding::from_slice` for the message, builds the
/// `fvm_signature::Signature` with the same scheme and bytes,
/// and calls `fvm_ipld_encoding::to_vec` on the pair of the two.
#[verifier::external_body]
fn encode_signed_message(message: &[u8], signature: &Signature) -> (r: Result<
    Vec<u8>,
    fvm_ipld_encoding::Error,
>)
    ensures
        r is Ok <==> signed_message_encoding(message@, signature@) is Some,
        r matches Ok(bytes) ==> signed_message_encoding(message@, signature@) == Some(bytes@),
{
    let m: fvm_message::Message = from_slice(message)?;
    let sig_type = match signature.sig_type {
        SignatureType::Secp256k1 => fvm_signature::SignatureType::Secp256k1,
        SignatureType::BLS => fvm_signature::SignatureType::BLS,
    };
    let bytes = signature.bytes.clone();
    to_vec(&(m, fvm_signature::Signature { sig_type, bytes }))
}

/// Calls `fvm_ipld_encoding::from_slice` for a pair of a
/// `fvm_shared::message::Message` and a
/// `fvm_shared::crypto::signature::Signature`, and `fvm_ipld_encoding::to_vec`
/// on the message: the encoding of the message alone, and the signature.
#[verifier::external_body]
fn split_signed_message(encoded: &[u8]) -> (r: Result<
    (Vec<u8>, Signature),
    fvm_ipld_encoding::Error,
>)
    ensures
        r is Ok <==> signed_message_parts(encoded@) is Some,
        r matches Ok(parts) ==> signed_message_parts(encoded@) == Some((parts.0@, parts.1@)),
{
    let (m, s): (fvm_message::Message, fvm_signature::Signature) = from_slice(encoded)?;
    let sig_type = match s.sig_type {
        fvm_signature::SignatureType::Secp256k1 => SignatureType::Secp256k1,
        fvm_signature::SignatureType::BLS => SignatureType::BLS,
    };
    Ok((to_vec(&m)?, Signature { sig_type, bytes: s.bytes }))
}

/// Calls `cid::Cid::try_from` on the bytes and `to_string` on the result: the
/// text form of a content identifier.
#[verifier::external_body]
pub(crate) fn cid_to_text(bytes: &[u8]) -> (r: Result<String, cid::Error>)
    ensures
        r is Ok <==> cid_text(bytes@) is Some,
        r matches Ok(text) ==> cid_text(bytes@) == Some(text@),
{
    cid::Cid::try_from(bytes).map(|c| c.to_string())
}

/// The network that a flag selects.
pub open spec fn network_of(testnet: bool) -> Network {
    if testnet {
        Network::Testnet
    } else {
        Network::Mainnet
    }
}

/// The signed message that `encoded` is an encoding of, on `network`:
/// its two parts, with the first decoded as a message.
pub open spec fn decoded_signed_message(encoded: Seq<u8>, network: Network) -> Option<
    SignedMessageView,
> {
    match signed_message_parts(encoded) {
        Some((message, signature)) => match decoded_message(message) {
            Some(m) => Some(SignedMessageView { message: m.on(network), signature }),
            None => None,
        },
        None => None,
    }
}

/// The transaction that `encoded` is an encoding of, on `network`: a message
/// if it decodes as one, else a signed message if it decodes as one.
pub open spec fn decoded_transaction(encoded: Seq<u8>, network: Network) -> Option<MessageTxView> {
    match decoded_message(encoded) {
        Some(m) => Some(MessageTxView::Message(m.on(network))),
        None => match decoded_signed_message(encoded, network) {
            Some(s) => Some(MessageTxView::SignedMessage(s)),
            None => None,
        },
    }
}

/// The canonical encoding of a signed message: its message is encoded first,
/// then the pair.
pub open spec fn signed_encoding(signed: SignedMessageView) -> Option<Seq<u8>> {
    match message_encoding(signed.message.wire()) {
        Some(message) => signed_message_encoding(message, signed.signature),
        None => None,
    }
}

/// The canonical encoding of a transaction.
pub open spec fn transaction_encoding(tx: MessageTxView) -> Option<Seq<u8>> {
    match tx {
        MessageTxView::Message(m) => message_encoding(m.wire()),
        MessageTxView::SignedMessage(s) => signed_encoding(s),
    }
}

/// The text of the content identifier of a transaction: that of the bytes
/// made of the fixed head and the hash of its encoding.
pub open spec fn transaction_cid(tx: MessageTxView) -> Option<Seq<char>> {
    match transaction_encoding(tx) {
        Some(encoded) => cid_text(cid_bytes_of(encoded)),
        None => None,
    }
}

/// Encodes a message in its canonical binary form, in which the addresses
/// carry no network. Fails exactly when the message has no encoding.
pub fn transaction_serialize(message: &Message) -> (r: Result<Vec<u8>, SignerError>)
    ensures
        r is Ok <==> message_encoding(message@.wire()) is Some,
        r matches Ok(bytes) ==> message_encoding(message@.wire()) == Some(bytes@),
        r matches Err(e) ==> e is Encoding,
{
    let _ = message.from.as_bytes();
    let _ = message.to.as_bytes();
    match encode_message(message) {
        Ok(bytes) => Ok(bytes),
        Err(e) => Err(SignerError::Encoding(e)),
    }
}

/// Encodes a signed message in its canonical binary form.
pub fn signed_message_serialize(signed: &SignedMessage) -> (r: Result<Vec<u8>, SignerError>)
    ensures
        r is Ok <==> signed_encoding(signed@) is Some,
        r matches Ok(bytes) ==> signed_encoding(signed@) == Some(bytes@),
        r matches Err(e) ==> e is Encoding,
{
    let message = transaction_serialize(&signed.message)?;
    match encode_signed_message(message.as_slice(), &signed.signature) {
        Ok(bytes) => Ok(bytes),
        Err(e) => Err(SignerError::Encoding(e)),
    }
}

/// Decodes a transaction, signed or unsigned. The binary form holds no
/// network: `testnet` says which one the addresses are tagged with. Fails
/// exactly when the bytes decode neither as a message nor as a signed
/// message.
pub fn transaction_parse(cbor: &[u8], testnet: bool) -> (r: Result<MessageTxAPI, SignerError>)
    ensures
        r is Ok <==> decoded_transaction(cbor@, network_of(testnet)) is Some,
        r matches Ok(tx) ==> decoded_transaction(cbor@, network_of(testnet)) == Some(tx@),
        r matches Ok(tx) ==> tx@.message().from.network == network_of(testnet)
            && tx@.message().to.network == network_of(testnet),
        r matches Err(e) ==> e is Encoding,
{
    let network = if testnet {
        Network::Testnet
    } else {
        Network::Mainnet
    };
    match decode_message(cbor, network) {
        Ok(message) => Ok(MessageTxAPI::Message(message)),
        Err(_) => match split_signed_message(cbor) {
            Ok((inner, signature)) => match decode_message(inner.as_slice(), network) {
                Ok(message) => Ok(
                    MessageTxAPI::SignedMessage(SignedMessage { message, signature }),
                ),
                Err(e) => Err(SignerError::Encoding(e)),
            },
            Err(e) => Err(SignerError::Encoding(e)),
        },
    }
}

/// The text of the content identifier of a transaction.
pub fn get_cid(message_api: MessageTxAPI) -> (r: Result<String, SignerError>)
    ensures
        r is Ok <==> transaction_cid(message_api@) is Some,
        r matches Ok(text) ==> transaction_cid(message_api@) == Some(text@),
        r matches Err(e) ==> (if transaction_encoding(message_api@) is None {
            e is Encoding
        } else {
            e is Cid
        }),
{
    let encoded = match &message_api {
        MessageTxAPI::Message(message) => transaction_serialize(message)?,
        MessageTxAPI::SignedMessage(signed_message) => signed_message_serialize(signed_message)?,
    };
    let bytes = cid_bytes(encoded.as_slice());
    match cid_to_text(bytes.as_slice()) {
        Ok(text) => Ok(text),
        Err(e) => Err(SignerError::Cid(e)),
    }
}

/// The network tags take no part in the encoding of a message: the same
/// message on another network has the same encoding.
pub proof fn lemma_encoding_ignores_network(m: MessageView, network: Network)
    ensures
        transaction_encoding(MessageTxView::Message(m.on(network))) == transaction_encoding(
            MessageTxView::Message(m),
        ),
        m.on(network).wire() == m.wire(),
{
}

/// The network is a parameter of parsing and not a content of the bytes:
/// bytes that parse on one network parse on the other, to the same message
/// but for the tags, and the tags are those of the call.
pub proof fn lemma_parse_tags_the_network(cbor: Seq<u8>, a: Network, b: Network)
    ensures
        decoded_transaction(cbor, a) is Some <==> decoded_transaction(cbor, b) is Some,
        decoded_transaction(cbor, a) matches Some(tx) ==> tx.message().from.network == a
            && tx.message().to.network == a && decoded_transaction(cbor, b).unwrap().message()
            == tx.message().on(b),
{
}

/// Whether the binary codec reads back the message that it wrote. Nothing
/// in this library proves or assumes that it does.
pub open spec fn codec_inverts(m: WireMessage) -> bool {
    match message_encoding(m) {
        Some(encoded) => decoded_message(encoded) == Some(m),
        None => false,
    }
}

/// Serializing and then parsing gives the message back, with its addresses
/// on the network of the call, wherever the binary codec reads back the
/// message that it wrote.
pub proof fn lemma_round_trip_where_the_codec_inverts(m: MessageView, testnet: bool)
    requires
        codec_inverts(m.wire()),
    ensures
        decoded_transaction(message_encoding(m.wire()).unwrap(), network_of(testnet)) == Some(
            MessageTxView::Message(m.on(network_of(testnet))),
        ),
{
}

} // verus!
