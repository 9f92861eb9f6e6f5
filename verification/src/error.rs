//! The error type shared by every fallible operation of the signer.

use vstd::prelude::*;

verus! {

/// Failure of the base64 text codec.
#[verifier::external_type_specification]
#[verifier::external_body]
pub struct ExBase64DecodeError(base64::DecodeError);

/// Failure of the binary-object codec.
#[verifier::external_type_specification]
#[verifier::external_body]
pub struct ExEncodingError(fvm_ipld_encoding::Error);

/// Failure while parsing or building an address.
#[verifier::external_type_specification]
#[verifier::external_body]
pub struct ExAddressError(fvm_shared::address::Error);

/// Failure of the elliptic-curve primitive.
#[verifier::external_type_specification]
#[verifier::external_body]
pub struct ExSecp256k1Error(libsecp256k1::Error);

/// Failure of the pairing-based primitive.
#[verifier::external_type_specification]
#[verifier::external_body]
pub struct ExBlsError(bls_signatures::Error);

/// Failure while reading a derivation path.
#[verifier::external_type_specification]
#[verifier::external_body]
pub struct ExBip44PathError(zx_bip44::errors::BIP44PathError);

/// Failure while reading a content identifier.
#[verifier::external_type_specification]
#[verifier::external_body]
pub struct ExCidError(cid::Error);

/// Everything that can go wrong in the signer. Failures of the underlying
/// primitives are carried unchanged inside the variant that names their origin.
#[derive(Debug)]
pub enum SignerError {
    /// A text that should be base64 is not.
    Base64(base64::DecodeError),
    /// A binary object could not be encoded or decoded.
    Encoding(fvm_ipld_encoding::Error),
    /// A key or signature buffer has the wrong number of bytes.
    InvalidLength,
    /// The language code names no known word list.
    UnsupportedLanguage,
    /// The mnemonic fails validation against its word list; the text says why.
    InvalidMnemonic(String),
    /// The derivation path is malformed.
    InvalidPath(zx_bip44::errors::BIP44PathError),
    /// The address protocol or signature scheme cannot sign or verify.
    UnsupportedSigningProtocol,
    /// The actor kind is not one of the supported ones.
    UnknownActor,
    /// The method number is not one the given actor kind supports.
    UnknownMethod,
    /// The code tag names no known constructor.
    UnknownCode,
    /// The address recovered from a signature is not the expected one.
    AddressMismatch,
    /// The voucher carries no signature.
    VoucherNotSigned,
    /// A decimal amount could not be read, or is below zero where it must
    /// not be.
    InvalidAmount,
    /// An address is malformed.
    Address(fvm_shared::address::Error),
    /// The elliptic-curve primitive rejected its input.
    Secp256k1(libsecp256k1::Error),
    /// The pairing-based primitive rejected its input.
    Bls(bls_signatures::Error),
    /// A content identifier could not be built.
    Cid(cid::Error),
}

/// The category of a failure, without what the primitive reported.
#[derive(Clone, Copy, Debug, PartialEq, Eq, Structural)]
pub enum ErrorKind {
    Base64,
    Encoding,
    InvalidLength,
    UnsupportedLanguage,
    InvalidMnemonic,
    InvalidPath,
    UnsupportedSigningProtocol,
    UnknownActor,
    UnknownMethod,
    UnknownCode,
    AddressMismatch,
    VoucherNotSigned,
    InvalidAmount,
    Address,
    Secp256k1,
    Bls,
    Cid,
}

impl SignerError {
    /// The category of this failure.
    pub open spec fn spec_kind(&self) -> ErrorKind {
        match self {
            SignerError::Base64(_) => ErrorKind::Base64,
            SignerError::Encoding(_) => ErrorKind::Encoding,
            SignerError::InvalidLength => ErrorKind::InvalidLength,
            SignerError::UnsupportedLanguage => ErrorKind::UnsupportedLanguage,
            SignerError::InvalidMnemonic(_) => ErrorKind::InvalidMnemonic,
            SignerError::InvalidPath(_) => ErrorKind::InvalidPath,
            SignerError::UnsupportedSigningProtocol => ErrorKind::UnsupportedSigningProtocol,
            SignerError::UnknownActor => ErrorKind::UnknownActor,
            SignerError::UnknownMethod => ErrorKind::UnknownMethod,
            SignerError::UnknownCode => ErrorKind::UnknownCode,
            SignerError::AddressMismatch => ErrorKind::AddressMismatch,
            SignerError::VoucherNotSigned => ErrorKind::VoucherNotSigned,
            SignerError::InvalidAmount => ErrorKind::InvalidAmount,
            SignerError::Address(_) => ErrorKind::Address,
            SignerError::Secp256k1(_) => ErrorKind::Secp256k1,
            SignerError::Bls(_) => ErrorKind::Bls,
            SignerError::Cid(_) => ErrorKind::Cid,
        }
    }

    /// The category of this failure.
    #[verifier::when_used_as_spec(spec_kind)]
    pub fn kind(&self) -> (k: ErrorKind)
        ensures
            k == self.spec_kind(),
    {
        match self {
            SignerError::Base64(_) => ErrorKind::Base64,
            SignerError::Encoding(_) => ErrorKind::Encoding,
            SignerError::InvalidLength => ErrorKind::InvalidLength,
            SignerError::UnsupportedLanguage => ErrorKind::UnsupportedLanguage,
            SignerError::InvalidMnemonic(_) => ErrorKind::InvalidMnemonic,
            SignerError::InvalidPath(_) => ErrorKind::InvalidPath,
            SignerError::UnsupportedSigningProtocol => ErrorKind::UnsupportedSigningProtocol,
            SignerError::UnknownActor => ErrorKind::UnknownActor,
            SignerError::UnknownMethod => ErrorKind::UnknownMethod,
            SignerError::UnknownCode => ErrorKind::UnknownCode,
            SignerError::AddressMismatch => ErrorKind::AddressMismatch,
            SignerError::VoucherNotSigned => ErrorKind::VoucherNotSigned,
            SignerError::InvalidAmount => ErrorKind::InvalidAmount,
            SignerError::Address(_) => ErrorKind::Address,
            SignerError::Secp256k1(_) => ErrorKind::Secp256k1,
            SignerError::Bls(_) => ErrorKind::Bls,
            SignerError::Cid(_) => ErrorKind::Cid,
        }
    }
}

} // verus!
