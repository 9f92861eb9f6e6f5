//! The hash of a multisig proposal, which approvals are matched against.

use vstd::prelude::*;
use fvm_ipld_encoding::{to_vec, RawBytes};
use fvm_shared::address::Address as FvmAddress;
use fvm_shared::bigint::bigint_ser::BigIntDe;
use fvm_shared::bigint::BigInt;
use crate::address::{address_bytes_valid, Address, AddressView};
use crate::amount::TokenAmount;
use crate::codec::{base64_encode, base64_text};
use crate::error::{ErrorKind, SignerError};
use crate::utils::{blake2b_256, blake2b_256_digest};

verus! {

/// The fields of a proposal that its hash is made of.
#[derive(Debug)]
pub struct ProposalHashDataAPI {
    pub requester: Option<Address>,
    pub to: Address,
    pub value: TokenAmount,
    pub method: u64,
    pub params: Vec<u8>,
}

/// What the fields of a proposal are, as a mathematical value.
pub struct ProposalHashDataView {
    pub requester: Option<AddressView>,
    pub to: AddressView,
    pub value: int,
    pub method: u64,
    pub params: Seq<u8>,
}

/// What an optional address is, as a mathematical value.
pub open spec fn optional_address_view(address: Option<Address>) -> Option<AddressView> {
    match address {
        Some(a) => Some(a@),
        None => None,
    }
}

impl View for ProposalHashDataAPI {
    type V = ProposalHashDataView;

    open spec fn view(&self) -> ProposalHashDataView {
        ProposalHashDataView {
            requester: optional_address_view(self.requester),
            to: self.to@,
            value: self.value@,
            method: self.method,
            params: self.params@,
        }
    }
}

/// The binary form of an optional address.
pub open spec fn optional_address_bytes(address: Option<AddressView>) -> Option<Seq<u8>> {
    match address {
        Some(a) => Some(a.bytes),
        None => None,
    }
}

/// The canonical encoding of the five fields of a proposal, in the order
/// requester, target, amount, method, parameters; the addresses in their
/// binary form.
pub uninterp spec fn proposal_encoding(
    requester: Option<Seq<u8>>,
    to: Seq<u8>,
    value: int,
    method: u64,
    params: Seq<u8>,
) -> Option<Seq<u8>>;

impl ProposalHashDataView {
    /// The canonical encoding of the proposal, in which the addresses carry
    /// no network.
    pub open spec fn encoding(self) -> Option<Seq<u8>> {
        proposal_encoding(
            optional_address_bytes(self.requester),
            self.to.bytes,
            self.value,
            self.method,
            self.params,
        )
    }
}

/// Calls `fvm_ipld_encoding::to_vec` on the list of the optional requester
/// and the target as `fvm_shared::address::Address`, the amount as
/// `BigIntDe`, the method number and the parameters as `RawBytes`, in this
/// order.
#[verifier::external_body]
fn encode_proposal(p: &ProposalHashDataAPI) -> (r: Result<Vec<u8>, fvm_ipld_encoding::Error>)
    requires
        address_bytes_valid(p@.to.bytes),
        p@.requester matches Some(a) ==> address_bytes_valid(a.bytes),
    ensures
        r is Ok <==> proposal_encoding(
            optional_address_bytes(p@.requester),
            p@.to.bytes,
            p@.value,
            p@.method,
            p@.params,
        ) is Some,
        r matches Ok(bytes) ==> proposal_encoding(
            optional_address_bytes(p@.requester),
            p@.to.bytes,
            p@.value,
            p@.method,
            p@.params,
        ) == Some(bytes@),
{
    let address = |a: &Address| FvmAddress::from_bytes(&a.bytes).unwrap();
    let value = BigIntDe(BigInt::from_signed_bytes_be(&p.value.atto));
    let params = RawBytes::new(p.params.clone());
    to_vec(&(p.requester.as_ref().map(address), address(&p.to), value, p.method, params))
}

/// The hash of a proposal: the text-safe encoding of the 256-bit hash of the
/// canonical encoding of its fields.
pub open spec fn proposal_hash(proposal: ProposalHashDataView) -> Result<Seq<char>, ErrorKind> {
    match proposal.encoding() {
        Some(encoded) => Ok(base64_text(blake2b_256_digest(encoded))),
        None => Err(ErrorKind::Encoding),
    }
}

/// Computes the hash of a proposal.
pub fn compute_proposal_hash(proposal_hash_data: ProposalHashDataAPI) -> (r: Result<
    String,
    SignerError,
>)
    ensures
        r matches Ok(text) ==> proposal_hash(proposal_hash_data@) == Ok::<_, ErrorKind>(text@),
        r matches Err(e) ==> proposal_hash(proposal_hash_data@) == Err::<Seq<char>, _>(e.kind()),
{
    let _ = proposal_hash_data.to.as_bytes();
    match &proposal_hash_data.requester {
        Some(a) => {
            let _ = a.as_bytes();
        },
        None => {},
    }
    let serialize_proposal_data = match encode_proposal(&proposal_hash_data) {
        Ok(bytes) => bytes,
        Err(e) => {
            return Err(SignerError::Encoding(e));
        },
    };
    let proposal_hash = blake2b_256(serialize_proposal_data.as_slice());
    Ok(base64_encode(proposal_hash.as_slice()))
}

} // verus!
