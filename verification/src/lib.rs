//! Signing and verification core of a Filecoin wallet: key derivation,
//! transaction and voucher signatures under two schemes, actor parameter
//! dispatch and proposal hashing.

pub mod address;
pub mod amount;
pub mod bls;
pub mod codec;
pub mod error;
pub mod extended_key;
pub mod keys;
pub mod message;
pub mod params;
pub mod proposal;
pub mod secp256k1;
pub mod signing;
pub mod utils;
pub mod voucher;

pub use crate::error::SignerError;
pub use crate::keys::{
    key_derive, key_derive_from_seed, key_generate_mnemonic, key_recover, key_recover_bls,
    ExtendedKey, Mnemonic, PrivateKey, PublicKey, PublicKeyCompressed,
};
pub use crate::message::{get_cid, transaction_parse, transaction_serialize};
pub use crate::params::{deserialize_constructor_params, deserialize_params, serialize_params};
pub use crate::proposal::{compute_proposal_hash, ProposalHashDataAPI};
pub use crate::secp256k1::SIGNATURE_RECOVERY_SIZE;
pub use crate::signing::{
    transaction_sign, transaction_sign_raw, verify_aggregated_signature, verify_signature,
};
pub use crate::voucher::{
    create_voucher, deserialize_voucher, serialize_voucher, sign_voucher,
    verify_voucher_signature, SignedVoucherWrapper,
};
