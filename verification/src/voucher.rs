//! Payment-channel vouchers: building, encoding, signing and verifying.

use vstd::prelude::*;
use fvm_ipld_encoding::{from_slice, to_vec, RawBytes};
use fvm_shared::address::Address as FvmAddress;
use fvm_shared::bigint::bigint_ser::BigIntDe;
use fvm_shared::bigint::BigInt;
use fvm_shared::crypto::signature as fvm_signature;
use crate::address::{
    address_bytes_valid, address_of_text, bls_address_bytes, secp256k1_address_bytes, Address,
    AddressView, Network, Protocol,
};
use crate::amount::{decimal_value, TokenAmount};
use crate::bls::{
    bls_public_key_valid, bls_signature_valid, bls_verified, verify_message,
};
use crate::codec::{base64_bytes, base64_decode, base64_encode, base64_text};
use crate::error::{ErrorKind, SignerError};
use crate::keys::PrivateKey;
use crate::message::{Signature, SignatureType, SignatureView};
use crate::secp256k1::{
    check_secret_key, recover_public_key, secp256k1_public_key, secp256k1_recovered,
    secp256k1_secret_valid, secp256k1_signature, secp256k1_stands_by, secp256k1_verified,
    sign_digest, verify_digest, SIGNATURE_RECOVERY_SIZE, SIGNATURE_SIZE,
};
use crate::signing::secp256k1_signature_bytes;
use crate::utils::{copy_range, get_digest_voucher, vec_of, voucher_digest};

verus! {

/// A voucher as the binary codec sees it, field by field.
pub(crate) type WireVoucher = (
    FvmAddress,
    i64,
    i64,
    RawBytes,
    Option<(FvmAddress, u64, RawBytes)>,
    u64,
    u64,
    BigIntDe,
    i64,
    Vec<(u64, u64)>,
    Option<fvm_signature::Signature>,
);

/// An extra verification that the sender asks for: a method of an actor and
/// the data for it.
#[derive(Debug)]
pub struct ModVerifyParams {
    pub actor: Address,
    pub method: u64,
    pub data: Vec<u8>,
}

/// What an extra verification is, as a mathematical value.
pub struct ModVerifyParamsView {
    pub actor: AddressView,
    pub method: u64,
    pub data: Seq<u8>,
}

impl View for ModVerifyParams {
    type V = ModVerifyParamsView;

    open spec fn view(&self) -> ModVerifyParamsView {
        ModVerifyParamsView { actor: self.actor@, method: self.method, data: self.data@ }
    }
}

/// A lane to be merged into the lane of a voucher, with its nonce.
#[derive(Clone, Copy, Debug, PartialEq, Eq, Structural)]
pub struct Merge {
    pub lane: u64,
    pub nonce: u64,
}

/// A voucher of a payment channel, signed or not.
#[derive(Debug)]
pub struct SignedVoucher {
    pub channel_addr: Address,
    pub time_lock_min: i64,
    pub time_lock_max: i64,
    pub secret_pre_image: Vec<u8>,
    pub extra: Option<ModVerifyParams>,
    pub lane: u64,
    pub nonce: u64,
    pub amount: TokenAmount,
    pub min_settle_height: i64,
    pub merges: Vec<Merge>,
    pub signature: Option<Signature>,
}

/// What a voucher is, as a mathematical value.
pub struct SignedVoucherView {
    pub channel_addr: AddressView,
    pub time_lock_min: i64,
    pub time_lock_max: i64,
    pub secret_pre_image: Seq<u8>,
    pub extra: Option<ModVerifyParamsView>,
    pub lane: u64,
    pub nonce: u64,
    pub amount: int,
    pub min_settle_height: i64,
    pub merges: Seq<Merge>,
    pub signature: Option<SignatureView>,
}

/// The fields of a voucher that are plain values, in its binary form, where
/// addresses carry no network.
pub struct VoucherFields {
    pub channel_addr: Seq<u8>,
    pub time_lock_min: i64,
    pub time_lock_max: i64,
    pub secret_pre_image: Seq<u8>,
    pub lane: u64,
    pub nonce: u64,
    pub amount: int,
    pub min_settle_height: i64,
    pub merges: Seq<Merge>,
}

/// An extra verification in its binary form: the actor's address, the method
/// and the data.
pub type WireExtra = (Seq<u8>, u64, Seq<u8>);

impl ModVerifyParamsView {
    /// The extra verification without the network tag of its address.
    pub open spec fn wire(self) -> WireExtra {
        (self.actor.bytes, self.method, self.data)
    }
}

/// An optional extra verification without the network tag of its address.
pub open spec fn wire_extra(extra: Option<ModVerifyParamsView>) -> Option<WireExtra> {
    match extra {
        Some(x) => Some(x.wire()),
        None => None,
    }
}

/// An optional extra verification with its address tagged with `network`.
pub open spec fn tagged_extra(extra: Option<WireExtra>, network: Network) -> Option<
    ModVerifyParamsView,
> {
    match extra {
        Some(x) => Some(
            ModVerifyParamsView {
                actor: AddressView { network, bytes: x.0 },
                method: x.1,
                data: x.2,
            },
        ),
        None => None,
    }
}

impl SignedVoucherView {
    /// The plain fields of the voucher: all but the extra verification and
    /// the signature.
    pub open spec fn fields(self) -> VoucherFields {
        VoucherFields {
            channel_addr: self.channel_addr.bytes,
            time_lock_min: self.time_lock_min,
            time_lock_max: self.time_lock_max,
            secret_pre_image: self.secret_pre_image,
            lane: self.lane,
            nonce: self.nonce,
            amount: self.amount,
            min_settle_height: self.min_settle_height,
            merges: self.merges,
        }
    }

    /// The same voucher with another signature, or none.
    pub open spec fn with_signature(self, signature: Option<SignatureView>) -> SignedVoucherView {
        SignedVoucherView { signature, ..self }
    }
}

/// What an optional extra verification is, as a mathematical value.
pub open spec fn extra_view(extra: Option<ModVerifyParams>) -> Option<ModVerifyParamsView> {
    match extra {
        Some(x) => Some(x@),
        None => None,
    }
}

/// What an optional signature is, as a mathematical value.
pub open spec fn signature_view(signature: Option<Signature>) -> Option<SignatureView> {
    match signature {
        Some(s) => Some(s@),
        None => None,
    }
}

impl View for SignedVoucher {
    type V = SignedVoucherView;

    open spec fn view(&self) -> SignedVoucherView {
        SignedVoucherView {
            channel_addr: self.channel_addr@,
            time_lock_min: self.time_lock_min,
            time_lock_max: self.time_lock_max,
            secret_pre_image: self.secret_pre_image@,
            extra: extra_view(self.extra),
            lane: self.lane,
            nonce: self.nonce,
            amount: self.amount@,
            min_settle_height: self.min_settle_height,
            merges: self.merges@,
            signature: signature_view(self.signature),
        }
    }
}

/// A voucher as it is handed in and out.
#[derive(Debug)]
pub struct SignedVoucherWrapper(pub SignedVoucher);

impl View for SignedVoucherWrapper {
    type V = SignedVoucherView;

    open spec fn view(&self) -> SignedVoucherView {
        self.0@
    }
}

/// The encoding of the extra verification of a voucher, or of its absence.
pub uninterp spec fn extra_encoding(extra: Option<WireExtra>) -> Option<Seq<u8>>;

/// The extra verification, or its absence, that `encoded` is an encoding of.
pub uninterp spec fn decoded_extra(encoded: Seq<u8>) -> Option<Option<WireExtra>>;

/// The encoding of the signature of a voucher, or of its absence.
pub uninterp spec fn optional_signature_encoding(signature: Option<SignatureView>) -> Option<
    Seq<u8>,
>;

/// The signature, or its absence, that `encoded` is an encoding of.
pub uninterp spec fn decoded_optional_signature(encoded: Seq<u8>) -> Option<Option<SignatureView>>;

/// The encoding of the voucher with the plain fields `fields`, the extra
/// verification encoded as `extra` and the signature encoded as `signature`.
pub uninterp spec fn voucher_encoding(
    fields: VoucherFields,
    extra: Seq<u8>,
    signature: Seq<u8>,
) -> Option<Seq<u8>>;

/// The three parts of an encoded voucher: its plain fields, the encoding of
/// its extra verification and the encoding of its signature.
pub uninterp spec fn voucher_parts(encoded: Seq<u8>) -> Option<(VoucherFields, Seq<u8>, Seq<u8>)>;

/// Calls `fvm_ipld_encoding::to_vec` on the optional triple of the actor's
/// `fvm_shared::address::Address`, the method number and the data as
/// `RawBytes`.
#[verifier::external_body]
fn encode_extra(extra: &Option<ModVerifyParams>) -> (r: Result<Vec<u8>, fvm_ipld_encoding::Error>)
    requires
        extra matches Some(x) ==> address_bytes_valid(x@.actor.bytes),
    ensures
        r is Ok <==> extra_encoding(wire_extra(extra_view(*extra))) is Some,
        r matches Ok(bytes) ==> extra_encoding(wire_extra(extra_view(*extra))) == Some(bytes@),
{
    let address = |a: &Address| FvmAddress::from_bytes(&a.bytes).unwrap();
    let wire = extra.as_ref().map(|x| (address(&x.actor), x.method, RawBytes::new(x.data.clone())));
    to_vec(&wire)
}

/// Calls `fvm_ipld_encoding::from_slice` for an optional triple of a
/// `fvm_shared::address::Address`, a method number and `RawBytes`; the
/// address gets the tag `network`.
#[verifier::external_body]
fn decode_extra(encoded: &[u8], network: Network) -> (r: Result<
    Option<ModVerifyParams>,
    fvm_ipld_encoding::Error,
>)
    ensures
        r is Ok <==> decoded_extra(encoded@) is Some,
        r matches Ok(extra) ==> decoded_extra(encoded@) == Some(wire_extra(extra_view(extra))),
        r matches Ok(Some(x)) ==> x@.actor.network == network && address_bytes_valid(
            x@.actor.bytes,
        ),
{
    let wire: Option<(FvmAddress, u64, RawBytes)> = from_slice(encoded)?;
    Ok(wire.map(|(a, method, d)| ModVerifyParams {
        actor: Address { network, bytes: a.to_bytes() }, method, data: d.to_vec(),
    }))
}

/// Calls `fvm_ipld_encoding::to_vec` on the optional
/// `fvm_shared::crypto::signature::Signature` with the same scheme and
/// bytes.
#[verifier::external_body]
fn encode_optional_signature(signature: &Option<Signature>) -> (r: Result<
    Vec<u8>,
    fvm_ipld_encoding::Error,
>)
    ensures
        r is Ok <==> optional_signature_encoding(signature_view(*signature)) is Some,
        r matches Ok(bytes) ==> optional_signature_encoding(signature_view(*signature)) == Some(
            bytes@,
        ),
{
    to_vec(&signature.as_ref().map(|s| fvm_signature::Signature {
        sig_type: match s.sig_type {
            SignatureType::Secp256k1 => fvm_signature::SignatureType::Secp256k1,
            SignatureType::BLS => fvm_signature::SignatureType::BLS,
        },
        bytes: s.bytes.clone(),
    }))
}

/// Calls `fvm_ipld_encoding::from_slice` for an optional
/// `fvm_shared::crypto::signature::Signature` and copies its scheme and
/// bytes.
#[verifier::external_body]
fn decode_optional_signature(encoded: &[u8]) -> (r: Result<
    Option<Signature>,
    fvm_ipld_encoding::Error,
>)
    ensures
        r is Ok <==> decoded_optional_signature(encoded@) is Some,
        r matches Ok(signature) ==> decoded_optional_signature(encoded@) == Some(
            signature_view(signature),
        ),
{
    let wire: Option<fvm_signature::Signature> = from_slice(encoded)?;
    Ok(wire.map(|s| Signature {
        sig_type: match s.sig_type {
            fvm_signature::SignatureType::Secp256k1 => SignatureType::Secp256k1,
            fvm_signature::SignatureType::BLS => SignatureType::BLS,
        },
        bytes: s.bytes,
    }))
}

/// Calls `fvm_ipld_encoding::from_slice` on the two encoded parts and
/// `fvm_ipld_encoding::to_vec` on the eleven fields of the voucher in their
/// order, the amount as `BigIntDe` and the byte strings as `RawBytes`.
#[verifier::external_body]
fn encode_voucher(v: &SignedVoucher, extra: &[u8], signature: &[u8]) -> (r: Result<
    Vec<u8>,
    fvm_ipld_encoding::Error,
>)
    requires
        address_bytes_valid(v@.channel_addr.bytes),
    ensures
        r is Ok <==> voucher_encoding(v@.fields(), extra@, signature@) is Some,
        r matches Ok(bytes) ==> voucher_encoding(v@.fields(), extra@, signature@) == Some(bytes@),
{
    let extra: Option<(FvmAddress, u64, RawBytes)> = from_slice(extra)?;
    let signature: Option<fvm_signature::Signature> = from_slice(signature)?;
    let wire: WireVoucher = (
        FvmAddress::from_bytes(&v.channel_addr.bytes).unwrap(), v.time_lock_min, v.time_lock_max,
        RawBytes::new(v.secret_pre_image.clone()), extra, v.lane, v.nonce,
        BigIntDe(BigInt::from_signed_bytes_be(&v.amount.atto)), v.min_settle_height,
        v.merges.iter().map(|m| (m.lane, m.nonce)).collect(), signature,
    );
    to_vec(&wire)
}

/// Calls `fvm_ipld_encoding::from_slice` for the eleven fields of a voucher
/// and `fvm_ipld_encoding::to_vec` on the fifth and the last: the plain
/// fields, and the encodings of the extra verification and of the
/// signature. The voucher handed back has neither of the two.
#[verifier::external_body]
fn split_voucher(encoded: &[u8], network: Network) -> (r: Result<
    (SignedVoucher, Vec<u8>, Vec<u8>),
    fvm_ipld_encoding::Error,
>)
    ensures
        r is Ok <==> voucher_parts(encoded@) is Some,
        r matches Ok(parts) ==> voucher_parts(encoded@) == Some(
            (parts.0@.fields(), parts.1@, parts.2@),
        ) && parts.0@.extra is None && parts.0@.signature is None && parts.0@.channel_addr.network
            == network && address_bytes_valid(parts.0@.channel_addr.bytes),
{
    let w: WireVoucher = from_slice(encoded)?;
    let (extra, signature) = (to_vec(&w.4)?, to_vec(&w.10)?);
    let v = SignedVoucher {
        channel_addr: Address { network, bytes: w.0.to_bytes() }, time_lock_min: w.1,
        time_lock_max: w.2, secret_pre_image: w.3.to_vec(), extra: None, lane: w.5, nonce: w.6,
        amount: TokenAmount { atto: w.7.0.to_signed_bytes_be() }, min_settle_height: w.8,
        merges: w.9.into_iter().map(|(lane, nonce)| Merge { lane, nonce }).collect(),
        signature: None,
    };
    Ok((v, extra, signature))
}

/// The canonical encoding of a voucher: its extra verification and its
/// signature are encoded first, then the whole.
pub open spec fn voucher_encoded(v: SignedVoucherView) -> Option<Seq<u8>> {
    match (extra_encoding(wire_extra(v.extra)), optional_signature_encoding(v.signature)) {
        (Some(extra), Some(signature)) => voucher_encoding(v.fields(), extra, signature),
        _ => None,
    }
}

/// The voucher with the given parts, with its addresses tagged with
/// `network`.
pub open spec fn tagged_voucher(
    fields: VoucherFields,
    extra: Option<WireExtra>,
    signature: Option<SignatureView>,
    network: Network,
) -> SignedVoucherView {
    SignedVoucherView {
        channel_addr: AddressView { network, bytes: fields.channel_addr },
        time_lock_min: fields.time_lock_min,
        time_lock_max: fields.time_lock_max,
        secret_pre_image: fields.secret_pre_image,
        extra: tagged_extra(extra, network),
        lane: fields.lane,
        nonce: fields.nonce,
        amount: fields.amount,
        min_settle_height: fields.min_settle_height,
        merges: fields.merges,
        signature,
    }
}

/// The voucher that `encoded` is an encoding of, with its addresses on
/// `network`: the three parts, and the last two decoded in turn.
pub open spec fn voucher_decoded(encoded: Seq<u8>, network: Network) -> Option<SignedVoucherView> {
    match voucher_parts(encoded) {
        None => None,
        Some((fields, extra, signature)) => match (
            decoded_extra(extra),
            decoded_optional_signature(signature),
        ) {
            (Some(extra), Some(signature)) => Some(
                tagged_voucher(fields, extra, signature, network),
            ),
            _ => None,
        },
    }
}

/// The bytes that a voucher is signed over: its own encoding with the
/// signature left out.
pub open spec fn voucher_signing_bytes(v: SignedVoucherView) -> Option<Seq<u8>> {
    voucher_encoded(v.with_signature(None))
}

/// A fresh voucher: no secret, no extra verification, nothing to merge, no
/// signature.
pub open spec fn fresh_voucher(
    channel_addr: AddressView,
    time_lock_min: i64,
    time_lock_max: i64,
    amount: int,
    lane: u64,
    nonce: u64,
    min_settle_height: i64,
) -> SignedVoucherView {
    SignedVoucherView {
        channel_addr,
        time_lock_min,
        time_lock_max,
        secret_pre_image: Seq::empty(),
        extra: None,
        lane,
        nonce,
        amount,
        min_settle_height,
        merges: Seq::empty(),
        signature: None,
    }
}

impl SignedVoucher {
    /// The canonical encoding of the voucher.
    pub fn encode(&self) -> (r: Result<Vec<u8>, SignerError>)
        ensures
            r is Ok <==> voucher_encoded(self@) is Some,
            r matches Ok(bytes) ==> voucher_encoded(self@) == Some(bytes@),
            r matches Err(e) ==> e.kind() == ErrorKind::Encoding,
    {
        let _ = self.channel_addr.as_bytes();
        match &self.extra {
            Some(x) => {
                let _ = x.actor.as_bytes();
            },
            None => {},
        }
        let extra = match encode_extra(&self.extra) {
            Ok(bytes) => bytes,
            Err(e) => {
                return Err(SignerError::Encoding(e));
            },
        };
        let signature = match encode_optional_signature(&self.signature) {
            Ok(bytes) => bytes,
            Err(e) => {
                return Err(SignerError::Encoding(e));
            },
        };
        match encode_voucher(self, extra.as_slice(), signature.as_slice()) {
            Ok(bytes) => Ok(bytes),
            Err(e) => Err(SignerError::Encoding(e)),
        }
    }

    /// Decodes a voucher. The binary form holds no network: the addresses are
    /// tagged with `network`.
    pub fn decode(encoded: &[u8], network: Network) -> (r: Result<SignedVoucher, SignerError>)
        ensures
            r is Ok <==> voucher_decoded(encoded@, network) is Some,
            r matches Ok(v) ==> voucher_decoded(encoded@, network) == Some(v@),
            r matches Err(e) ==> e.kind() == ErrorKind::Encoding,
    {
        let (plain, extra_bytes, signature_bytes) = match split_voucher(encoded, network) {
            Ok(parts) => parts,
            Err(e) => {
                return Err(SignerError::Encoding(e));
            },
        };
        let extra = match decode_extra(extra_bytes.as_slice(), network) {
            Ok(extra) => extra,
            Err(e) => {
                return Err(SignerError::Encoding(e));
            },
        };
        let signature = match decode_optional_signature(signature_bytes.as_slice()) {
            Ok(signature) => signature,
            Err(e) => {
                return Err(SignerError::Encoding(e));
            },
        };
        let mut voucher = plain;
        voucher.extra = extra;
        voucher.signature = signature;
        Ok(voucher)
    }

    /// The bytes that the voucher is signed over: its encoding with the
    /// signature left out.
    pub fn signing_bytes(&self) -> (r: Result<Vec<u8>, SignerError>)
        ensures
            r is Ok <==> voucher_signing_bytes(self@) is Some,
            r matches Ok(bytes) ==> voucher_signing_bytes(self@) == Some(bytes@),
            r matches Err(e) ==> e.kind() == ErrorKind::Encoding,
    {
        let _ = self.channel_addr.as_bytes();
        match &self.extra {
            Some(x) => {
                let _ = x.actor.as_bytes();
            },
            None => {},
        }
        let extra = match encode_extra(&self.extra) {
            Ok(bytes) => bytes,
            Err(e) => {
                return Err(SignerError::Encoding(e));
            },
        };
        let unsigned: Option<Signature> = None;
        let signature = match encode_optional_signature(&unsigned) {
            Ok(bytes) => bytes,
            Err(e) => {
                return Err(SignerError::Encoding(e));
            },
        };
        assert(self@.with_signature(None).fields() == self@.fields());
        match encode_voucher(self, extra.as_slice(), signature.as_slice()) {
            Ok(bytes) => Ok(bytes),
            Err(e) => Err(SignerError::Encoding(e)),
        }
    }
}

/// What creating a voucher gives: the text-safe encoding of a fresh voucher
/// with the given fields. The channel address must be the text of an
/// address and the amount a decimal integer that is not below zero.
pub open spec fn created_voucher(
    payment_channel_address: Seq<char>,
    time_lock_min: i64,
    time_lock_max: i64,
    amount: Seq<char>,
    lane: u64,
    nonce: u64,
    min_settle_height: i64,
) -> Result<Seq<char>, ErrorKind> {
    match address_of_text(payment_channel_address) {
        None => Err(ErrorKind::Address),
        Some(channel) => match decimal_value(amount) {
            None => Err(ErrorKind::InvalidAmount),
            Some(value) => if value < 0 {
                Err(ErrorKind::InvalidAmount)
            } else {
                match voucher_encoded(
                    fresh_voucher(
                        channel,
                        time_lock_min,
                        time_lock_max,
                        value,
                        lane,
                        nonce,
                        min_settle_height,
                    ),
                ) {
                    None => Err(ErrorKind::Encoding),
                    Some(encoded) => Ok(base64_text(encoded)),
                }
            },
        },
    }
}

/// Builds an unsigned voucher for a payment channel and returns its
/// text-safe encoding. An amount below zero is refused like one that is no
/// number: the amount of a voucher is never negative.
pub fn create_voucher(
    payment_channel_address: String,
    time_lock_min: i64,
    time_lock_max: i64,
    amount: String,
    lane: u64,
    nonce: u64,
    min_settle_height: i64,
) -> (r: Result<String, SignerError>)
    ensures
        r matches Ok(text) ==> created_voucher(
            payment_channel_address@,
            time_lock_min,
            time_lock_max,
            amount@,
            lane,
            nonce,
            min_settle_height,
        ) == Ok::<_, ErrorKind>(text@),
        r matches Err(e) ==> created_voucher(
            payment_channel_address@,
            time_lock_min,
            time_lock_max,
            amount@,
            lane,
            nonce,
            min_settle_height,
        ) == Err::<Seq<char>, _>(e.kind()),
{
    let pch = Address::from_string(payment_channel_address.as_str())?;
    let amount = match TokenAmount::from_decimal(amount.as_str()) {
        Some(value) => value,
        None => {
            return Err(SignerError::InvalidAmount);
        },
    };
    if amount.is_negative() {
        return Err(SignerError::InvalidAmount);
    }
    let voucher = SignedVoucher {
        channel_addr: pch,
        time_lock_min,
        time_lock_max,
        secret_pre_image: Vec::new(),
        extra: None,
        lane,
        nonce,
        amount,
        min_settle_height,
        merges: Vec::new(),
        signature: None,
    };
    let encoded = voucher.encode()?;
    Ok(base64_encode(encoded.as_slice()))
}

/// The voucher that a text-safe encoding holds.
pub open spec fn voucher_of_text(text: Seq<char>) -> Result<SignedVoucherView, ErrorKind> {
    match base64_bytes(text) {
        None => Err(ErrorKind::Base64),
        Some(bytes) => match voucher_decoded(bytes, Network::Mainnet) {
            None => Err(ErrorKind::Encoding),
            Some(v) => Ok(v),
        },
    }
}

/// The text-safe encoding of a voucher.
pub open spec fn text_of_voucher(v: SignedVoucherView) -> Result<Seq<char>, ErrorKind> {
    match voucher_encoded(v) {
        None => Err(ErrorKind::Encoding),
        Some(encoded) => Ok(base64_text(encoded)),
    }
}

/// The voucher as signing leaves it: with the elliptic-curve signature of
/// the hash of its signing bytes in place of any older signature.
pub open spec fn voucher_signed_with(v: SignedVoucherView, key: Seq<u8>) -> SignedVoucherView {
    v.with_signature(
        Some(
            SignatureView {
                sig_type: SignatureType::Secp256k1,
                bytes: secp256k1_signature_bytes(
                    voucher_digest(voucher_signing_bytes(v).unwrap()),
                    key,
                ),
            },
        ),
    )
}

/// What signing a voucher gives. The voucher is decoded; the key is
/// checked; the hash of the signing bytes is signed with the elliptic-curve
/// scheme, whatever the protocol of any address; the signature takes the
/// place of the old one, and the voucher is encoded again.
pub open spec fn signed_voucher(text: Seq<char>, key: Seq<u8>) -> Result<Seq<char>, ErrorKind> {
    match voucher_of_text(text) {
        Err(e) => Err(e),
        Ok(v) => if !secp256k1_secret_valid(key) {
            Err(ErrorKind::Secp256k1)
        } else {
            match voucher_signing_bytes(v) {
                None => Err(ErrorKind::Encoding),
                Some(_) => text_of_voucher(voucher_signed_with(v, key)),
            }
        },
    }
}

/// Signs a voucher given in its text-safe encoding and returns the signed
/// voucher in the same encoding. The signature that it attaches is always
/// one of the elliptic-curve scheme: 65 bytes, the last a recovery index
/// below 4.
pub fn sign_voucher(voucher_string: String, private_key: &PrivateKey) -> (r: Result<
    String,
    SignerError,
>)
    ensures
        r matches Ok(text) ==> signed_voucher(voucher_string@, private_key@) == Ok::<
            _,
            ErrorKind,
        >(text@),
        r matches Err(e) ==> signed_voucher(voucher_string@, private_key@) == Err::<Seq<char>, _>(
            e.kind(),
        ),
        r is Ok ==> secp256k1_signature_bytes(
            voucher_digest(
                voucher_signing_bytes(voucher_of_text(voucher_string@).unwrap()).unwrap(),
            ),
            private_key@,
        ).len() == 65,
        r is Ok ==> secp256k1_signature_bytes(
            voucher_digest(
                voucher_signing_bytes(voucher_of_text(voucher_string@).unwrap()).unwrap(),
            ),
            private_key@,
        )[64] < 4,
{
    let decoded_voucher = match base64_decode(voucher_string.as_str()) {
        Ok(bytes) => bytes,
        Err(e) => {
            return Err(SignerError::Base64(e));
        },
    };
    let mut voucher = SignedVoucher::decode(decoded_voucher.as_slice(), Network::Mainnet)?;
    let secret = vec_of::<32>(&private_key.0);
    match check_secret_key(secret.as_slice()) {
        Ok(()) => {},
        Err(e) => {
            return Err(SignerError::Secp256k1(e));
        },
    }
    let svb = voucher.signing_bytes()?;
    let digest = get_digest_voucher(svb.as_slice());
    let (signature_rs, recovery_id) = match sign_digest(digest.as_slice(), secret.as_slice()) {
        Ok(pair) => pair,
        Err(e) => {
            return Err(SignerError::Secp256k1(e));
        },
    };
    let mut sig = signature_rs;
    sig.push(recovery_id);
    let ghost before = voucher@;
    voucher.signature = Some(Signature::new_secp256k1(sig));
    assert(voucher@ == before.with_signature(signature_view(voucher.signature)));
    let binary_voucher = voucher.encode()?;
    Ok(base64_encode(binary_voucher.as_slice()))
}

/// What checking an elliptic-curve signature of a voucher against a signer
/// gives: a key is recovered from the signature, its address on the signer's
/// network must be the signer's, and only then is the signature itself
/// checked.
pub open spec fn secp256k1_voucher_check(
    signature: Seq<u8>,
    digest: Seq<u8>,
    signer: AddressView,
) -> Result<bool, ErrorKind> {
    if signature.len() != 65 {
        Err(ErrorKind::InvalidLength)
    } else {
        match secp256k1_recovered(digest, signature.subrange(0, 64), signature[64]) {
            None => Err(ErrorKind::Secp256k1),
            Some(public_key) => if secp256k1_address_bytes(public_key) != signer.bytes {
                Err(ErrorKind::AddressMismatch)
            } else {
                match secp256k1_verified(digest, signature.subrange(0, 64), public_key) {
                    None => Err(ErrorKind::Secp256k1),
                    Some(valid) => Ok(valid),
                }
            },
        }
    }
}

/// What checking a pairing-scheme signature of a voucher against a signer
/// gives: the payload of the signer's address is the key, and the signature
/// is checked against the digest.
pub open spec fn bls_voucher_check(signature: Seq<u8>, digest: Seq<u8>, signer: AddressView) -> Result<
    bool,
    ErrorKind,
> {
    if !bls_public_key_valid(signer.payload()) || !bls_signature_valid(signature) {
        Err(ErrorKind::Bls)
    } else {
        Ok(bls_verified(signer.payload(), signature, digest))
    }
}

/// What verifying the signature of a voucher against a signer gives. The
/// voucher is decoded, then the signer's address is read, then the digest of
/// the signing bytes is computed; a voucher without a signature is refused;
/// the protocol of the signer's address picks the check.
pub open spec fn voucher_verification(text: Seq<char>, signer: Seq<char>) -> Result<
    bool,
    ErrorKind,
> {
    match voucher_of_text(text) {
        Err(e) => Err(e),
        Ok(v) => match address_of_text(signer) {
            None => Err(ErrorKind::Address),
            Some(address) => match voucher_signing_bytes(v) {
                None => Err(ErrorKind::Encoding),
                Some(signing_bytes) => match v.signature {
                    None => Err(ErrorKind::VoucherNotSigned),
                    Some(signature) => match address.protocol() {
                        Protocol::Secp256k1 => secp256k1_voucher_check(
                            signature.bytes,
                            voucher_digest(signing_bytes),
                            address,
                        ),
                        Protocol::BLS => bls_voucher_check(
                            signature.bytes,
                            voucher_digest(signing_bytes),
                            address,
                        ),
                        _ => Err(ErrorKind::UnsupportedSigningProtocol),
                    },
                },
            },
        },
    }
}

/// Verifies the signature of a voucher, given in its text-safe encoding,
/// against the address of the signer.
pub fn verify_voucher_signature(voucher_base64_string: String, address_signer: String) -> (r:
    Result<bool, SignerError>)
    ensures
        r matches Ok(valid) ==> voucher_verification(voucher_base64_string@, address_signer@)
            == Ok::<_, ErrorKind>(valid),
        r matches Err(e) ==> voucher_verification(voucher_base64_string@, address_signer@) == Err::<
            bool,
            _,
        >(e.kind()),
{
    let decoded_voucher = match base64_decode(voucher_base64_string.as_str()) {
        Ok(bytes) => bytes,
        Err(e) => {
            return Err(SignerError::Base64(e));
        },
    };
    let signed_voucher = SignedVoucher::decode(decoded_voucher.as_slice(), Network::Mainnet)?;
    let address = Address::from_string(address_signer.as_str())?;
    let sv_bytes = signed_voucher.signing_bytes()?;
    let digest = get_digest_voucher(sv_bytes.as_slice());
    match &signed_voucher.signature {
        Some(signature) => match address.protocol() {
            Protocol::Secp256k1 => {
                if signature.bytes.len() != SIGNATURE_RECOVERY_SIZE {
                    return Err(SignerError::InvalidLength);
                }
                let sig = copy_range(signature.bytes.as_slice(), 0, SIGNATURE_SIZE);
                let recovery_id = signature.bytes[SIGNATURE_SIZE];
                let public_key = match recover_public_key(
                    digest.as_slice(),
                    sig.as_slice(),
                    recovery_id,
                ) {
                    Ok(key) => key,
                    Err(e) => {
                        return Err(SignerError::Secp256k1(e));
                    },
                };
                let signer = Address::new_secp256k1(address.network(), public_key.as_slice())?;
                if !signer.same_as(&address) {
                    Err(SignerError::AddressMismatch)
                } else {
                    match verify_digest(digest.as_slice(), sig.as_slice(), public_key.as_slice()) {
                        Ok(valid) => Ok(valid),
                        Err(e) => Err(SignerError::Secp256k1(e)),
                    }
                }
            },
            Protocol::BLS => {
                let pk = address.payload_bytes();
                match verify_message(pk.as_slice(), signature.bytes.as_slice(), digest.as_slice()) {
                    Ok(valid) => Ok(valid),
                    Err(e) => Err(SignerError::Bls(e)),
                }
            },
            _ => Err(SignerError::UnsupportedSigningProtocol),
        },
        None => Err(SignerError::VoucherNotSigned),
    }
}

/// The text-safe encoding of a voucher.
pub fn serialize_voucher(voucher: SignedVoucherWrapper) -> (r: Result<String, SignerError>)
    ensures
        r matches Ok(text) ==> text_of_voucher(voucher@) == Ok::<_, ErrorKind>(text@),
        r matches Err(e) ==> text_of_voucher(voucher@) == Err::<Seq<char>, _>(e.kind()),
{
    let serialized_voucher = voucher.0.encode()?;
    Ok(base64_encode(serialized_voucher.as_slice()))
}

/// The voucher that a text-safe encoding holds. Its addresses are tagged
/// with the main network.
pub fn deserialize_voucher(voucher_base64_string: String) -> (r: Result<
    SignedVoucherWrapper,
    SignerError,
>)
    ensures
        r matches Ok(v) ==> voucher_of_text(voucher_base64_string@) == Ok::<_, ErrorKind>(v@),
        r matches Err(e) ==> voucher_of_text(voucher_base64_string@) == Err::<
            SignedVoucherView,
            _,
        >(e.kind()),
{
    let serialized_voucher = match base64_decode(voucher_base64_string.as_str()) {
        Ok(bytes) => bytes,
        Err(e) => {
            return Err(SignerError::Base64(e));
        },
    };
    let signed_voucher = SignedVoucher::decode(serialized_voucher.as_slice(), Network::Mainnet)?;
    Ok(SignedVoucherWrapper(signed_voucher))
}

/// Whether the codecs read back from its text the voucher that they wrote.
/// Nothing in this library proves or assumes that they do.
pub open spec fn voucher_codec_inverts(v: SignedVoucherView) -> bool {
    match text_of_voucher(v) {
        Ok(text) => voucher_of_text(text) == Ok::<_, ErrorKind>(v),
        Err(_) => false,
    }
}

/// What is signed does not depend on a signature that is already there.
pub proof fn lemma_signing_bytes_ignore_the_signature(
    v: SignedVoucherView,
    signature: Option<SignatureView>,
)
    ensures
        voucher_signing_bytes(v.with_signature(signature)) == voucher_signing_bytes(v),
{
    assert(v.with_signature(signature).with_signature(None) == v.with_signature(None));
}

/// Signing and verifying a voucher agree on what is signed and on how a
/// signature is laid out. A voucher signed with an elliptic-curve key is one
/// that verification accepts against the address of that key, on either
/// network, wherever the codecs read back the signed voucher that they wrote
/// and the curve library stands by its own signature of the digest.
pub proof fn lemma_voucher_verify_accepts_signed(
    text: Seq<char>,
    key: Seq<u8>,
    signer: Seq<char>,
    v: SignedVoucherView,
)
    requires
        voucher_of_text(text) == Ok::<_, ErrorKind>(v),
        voucher_signing_bytes(v) is Some,
        secp256k1_secret_valid(key),
        address_of_text(signer) is Some,
        address_of_text(signer).unwrap().bytes == secp256k1_address_bytes(
            secp256k1_public_key(key),
        ),
        voucher_codec_inverts(voucher_signed_with(v, key)),
        secp256k1_stands_by(voucher_digest(voucher_signing_bytes(v).unwrap()), key),
    ensures
        signed_voucher(text, key) == text_of_voucher(voucher_signed_with(v, key)),
        signed_voucher(text, key) is Ok,
        voucher_verification(signed_voucher(text, key).unwrap(), signer) == Ok::<_, ErrorKind>(
            true,
        ),
{
    let signing_bytes = voucher_signing_bytes(v).unwrap();
    let digest = voucher_digest(signing_bytes);
    let pair = secp256k1_signature(digest, key);
    let signed = voucher_signed_with(v, key);
    let signature = signed.signature.unwrap();
    lemma_signing_bytes_ignore_the_signature(v, signed.signature);
    assert(signature.bytes.len() == 65);
    assert(signature.bytes.subrange(0, 64) == pair.0);
    assert(signature.bytes[64] == pair.1);
    assert(address_of_text(signer).unwrap().bytes[0] == 1u8);
}

/// A voucher whose elliptic-curve signature commits to another key than the
/// given signer's is refused with an address mismatch: wherever the
/// signature has 65 bytes and a key is recovered whose address is not the
/// signer's, the check fails in that way, whatever the curve library would
/// say of the signature itself.
pub proof fn lemma_voucher_mismatch_is_refused(
    signature: Seq<u8>,
    digest: Seq<u8>,
    signer: AddressView,
)
    requires
        signature.len() == 65,
        secp256k1_recovered(digest, signature.subrange(0, 64), signature[64]) is Some,
        secp256k1_address_bytes(
            secp256k1_recovered(digest, signature.subrange(0, 64), signature[64]).unwrap(),
        ) != signer.bytes,
    ensures
        secp256k1_voucher_check(signature, digest, signer) == Err::<bool, _>(
            ErrorKind::AddressMismatch,
        ),
{
}

} // verus!
