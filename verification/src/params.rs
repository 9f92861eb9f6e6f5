//! The parameters of actor methods: the closed table from actor kind and
//! method number to the shape of the payload, and the payloads themselves.

use vstd::prelude::*;
use fvm_ipld_encoding::{from_slice, to_vec, RawBytes};
use fvm_shared::address::Address as FvmAddress;
use fvm_shared::bigint::bigint_ser::BigIntDe;
use fvm_shared::bigint::BigInt;
use crate::address::{address_bytes_valid, Address, AddressView, Network};
use crate::amount::TokenAmount;
use crate::codec::{base64_bytes, base64_decode};
use crate::error::{ErrorKind, SignerError};
use crate::message::{cid_text, cid_to_text};
use crate::voucher::{
    voucher_decoded, voucher_encoded, SignedVoucher, SignedVoucherView, WireVoucher,
};

verus! {

/// Parameters of the `Exec` method of the init actor.
#[derive(Debug)]
pub struct ExecParams {
    /// The binary form of the content identifier of the code to run.
    pub code_cid: Vec<u8>,
    pub constructor_params: Vec<u8>,
}

/// Parameters of the `Propose` method of a multisig actor.
#[derive(Debug)]
pub struct ProposeParams {
    pub to: Address,
    pub value: TokenAmount,
    pub method: u64,
    pub params: Vec<u8>,
}

/// Parameters of the `Approve` and `Cancel` methods of a multisig actor.
#[derive(Debug)]
pub struct TxnIDParams {
    pub id: i64,
    pub proposal_hash: Vec<u8>,
}

/// Parameters of the `AddSigner` method of a multisig actor.
#[derive(Debug)]
pub struct AddSignerParams {
    pub signer: Address,
    pub increase: bool,
}

/// Parameters of the `RemoveSigner` method of a multisig actor.
#[derive(Debug)]
pub struct RemoveSignerParams {
    pub signer: Address,
    pub decrease: bool,
}

/// Parameters of the `SwapSigner` method of a multisig actor.
#[derive(Debug)]
pub struct SwapSignerParams {
    pub from: Address,
    pub to: Address,
}

/// Parameters of the `ChangeNumApprovalsThreshold` method of a multisig
/// actor.
#[derive(Debug)]
pub struct ChangeNumApprovalsThresholdParams {
    pub new_threshold: u64,
}

/// Parameters of the `LockBalance` method of a multisig actor.
#[derive(Debug)]
pub struct LockBalanceParams {
    pub start_epoch: i64,
    pub unlock_duration: i64,
    pub amount: TokenAmount,
}

/// Parameters of the constructor of a multisig actor.
#[derive(Debug)]
pub struct ConstructorParams {
    pub signers: Vec<Address>,
    pub num_approvals_threshold: u64,
    pub unlock_duration: i64,
    pub start_epoch: i64,
}

/// Parameters of the constructor of a multisig actor in their older shape,
/// which has no start epoch.
#[derive(Debug)]
pub struct ConstructorParamsV1 {
    pub signers: Vec<Address>,
    pub num_approvals_threshold: u64,
    pub unlock_duration: i64,
}

/// Parameters of the constructor of a payment-channel actor.
#[derive(Debug)]
pub struct PaychConstructorParams {
    pub from: Address,
    pub to: Address,
}

/// Parameters of the `UpdateChannelState` method of a payment-channel actor.
#[derive(Debug)]
pub struct UpdateChannelStateParams {
    pub sv: SignedVoucher,
    pub secret: Vec<u8>,
}

/// The parameters of a method, in one of the known shapes, or not decoded.
#[derive(Debug)]
pub enum MessageParams {
    /// Parameters left in their text-safe encoding; the empty text for a
    /// method that takes none.
    MessageParamsSerialized(String),
    ExecParams(ExecParams),
    ProposeParams(ProposeParams),
    TxnIDParams(TxnIDParams),
    AddSignerParams(AddSignerParams),
    RemoveSignerParams(RemoveSignerParams),
    SwapSignerParams(SwapSignerParams),
    ChangeNumApprovalsThresholdParams(ChangeNumApprovalsThresholdParams),
    LockBalanceParams(LockBalanceParams),
    MultisigConstructorParams(ConstructorParams),
    PaychConstructorParams(PaychConstructorParams),
    UpdateChannelStateParams(UpdateChannelStateParams),
}

/// What a list of addresses is, as a mathematical value.
pub open spec fn address_views(list: Seq<Address>) -> Seq<AddressView> {
    Seq::new(list.len(), |i: int| list[i]@)
}

/// The binary forms of a list of addresses.
pub open spec fn address_bytes(list: Seq<Address>) -> Seq<Seq<u8>> {
    Seq::new(list.len(), |i: int| list[i]@.bytes)
}

/// Whether every address of a list is tagged with `network` and has a binary
/// form that stands for an address.
pub open spec fn all_on(list: Seq<Address>, network: Network) -> bool {
    forall|i: int|
        0 <= i < list.len() ==> (#[trigger] list[i])@.network == network && address_bytes_valid(
            list[i]@.bytes,
        )
}

/// The address with the binary form `bytes` on `network`.
pub open spec fn tagged(bytes: Seq<u8>, network: Network) -> AddressView {
    AddressView { network, bytes }
}

/// The addresses with the given binary forms, all on `network`.
pub open spec fn tagged_list(list: Seq<Seq<u8>>, network: Network) -> Seq<AddressView> {
    Seq::new(list.len(), |i: int| tagged(list[i], network))
}

/// The binary forms of a list of addresses, as mathematical values.
pub open spec fn untagged_list(list: Seq<AddressView>) -> Seq<Seq<u8>> {
    Seq::new(list.len(), |i: int| list[i].bytes)
}

/// A list of addresses that are all on one network is its binary forms
/// tagged with that network; and the binary forms of a list are those of its
/// mathematical values.
pub proof fn lemma_address_lists(list: Seq<Address>, network: Network)
    ensures
        all_on(list, network) ==> address_views(list) == tagged_list(address_bytes(list), network),
        untagged_list(address_views(list)) == address_bytes(list),
{
    if all_on(list, network) {
        assert forall|i: int| 0 <= i < list.len() implies address_views(list)[i] == tagged_list(
            address_bytes(list),
            network,
        )[i] by {
            assert(list[i]@.network == network);
        }
        assert(address_views(list) =~= tagged_list(address_bytes(list), network));
    }
    assert(untagged_list(address_views(list)) =~= address_bytes(list));
}

/// What the parameters of a method are, as a mathematical value.
pub enum MessageParamsView {
    MessageParamsSerialized(Seq<char>),
    ExecParams { code_cid: Seq<u8>, constructor_params: Seq<u8> },
    ProposeParams { to: AddressView, value: int, method: u64, params: Seq<u8> },
    TxnIDParams { id: i64, proposal_hash: Seq<u8> },
    AddSignerParams { signer: AddressView, increase: bool },
    RemoveSignerParams { signer: AddressView, decrease: bool },
    SwapSignerParams { from: AddressView, to: AddressView },
    ChangeNumApprovalsThresholdParams { new_threshold: u64 },
    LockBalanceParams { start_epoch: i64, unlock_duration: i64, amount: int },
    MultisigConstructorParams {
        signers: Seq<AddressView>,
        num_approvals_threshold: u64,
        unlock_duration: i64,
        start_epoch: i64,
    },
    PaychConstructorParams { from: AddressView, to: AddressView },
    UpdateChannelStateParams { sv: SignedVoucherView, secret: Seq<u8> },
}

impl View for MessageParams {
    type V = MessageParamsView;

    open spec fn view(&self) -> MessageParamsView {
        match self {
            MessageParams::MessageParamsSerialized(text) => {
                MessageParamsView::MessageParamsSerialized(text@)
            },
            MessageParams::ExecParams(p) => MessageParamsView::ExecParams {
                code_cid: p.code_cid@,
                constructor_params: p.constructor_params@,
            },
            MessageParams::ProposeParams(p) => MessageParamsView::ProposeParams {
                to: p.to@,
                value: p.value@,
                method: p.method,
                params: p.params@,
            },
            MessageParams::TxnIDParams(p) => MessageParamsView::TxnIDParams {
                id: p.id,
                proposal_hash: p.proposal_hash@,
            },
            MessageParams::AddSignerParams(p) => MessageParamsView::AddSignerParams {
                signer: p.signer@,
                increase: p.increase,
            },
            MessageParams::RemoveSignerParams(p) => MessageParamsView::RemoveSignerParams {
                signer: p.signer@,
                decrease: p.decrease,
            },
            MessageParams::SwapSignerParams(p) => MessageParamsView::SwapSignerParams {
                from: p.from@,
                to: p.to@,
            },
            MessageParams::ChangeNumApprovalsThresholdParams(p) => {
                MessageParamsView::ChangeNumApprovalsThresholdParams {
                    new_threshold: p.new_threshold,
                }
            },
            MessageParams::LockBalanceParams(p) => MessageParamsView::LockBalanceParams {
                start_epoch: p.start_epoch,
                unlock_duration: p.unlock_duration,
                amount: p.amount@,
            },
            MessageParams::MultisigConstructorParams(p) => {
                MessageParamsView::MultisigConstructorParams {
                    signers: address_views(p.signers@),
                    num_approvals_threshold: p.num_approvals_threshold,
                    unlock_duration: p.unlock_duration,
                    start_epoch: p.start_epoch,
                }
            },
            MessageParams::PaychConstructorParams(p) => MessageParamsView::PaychConstructorParams {
                from: p.from@,
                to: p.to@,
            },
            MessageParams::UpdateChannelStateParams(p) => {
                MessageParamsView::UpdateChannelStateParams { sv: p.sv@, secret: p.secret@ }
            },
        }
    }
}

/// The content identifier and the byte string that `encoded` holds as a
/// pair, the identifier in its binary form.
pub uninterp spec fn decoded_cid_bytes(encoded: Seq<u8>) -> Option<(Seq<u8>, Seq<u8>)>;

/// The address, amount, number and byte string that `encoded` holds as a
/// list of four.
pub uninterp spec fn decoded_address_amount_number_bytes(encoded: Seq<u8>) -> Option<
    (Seq<u8>, int, u64, Seq<u8>),
>;

/// The signed number and the byte string that `encoded` holds as a pair.
pub uninterp spec fn decoded_number_bytes(encoded: Seq<u8>) -> Option<(i64, Seq<u8>)>;

/// The address and the flag that `encoded` holds as a pair.
pub uninterp spec fn decoded_address_flag(encoded: Seq<u8>) -> Option<(Seq<u8>, bool)>;

/// The two addresses that `encoded` holds as a pair.
pub uninterp spec fn decoded_address_pair(encoded: Seq<u8>) -> Option<(Seq<u8>, Seq<u8>)>;

/// The number that `encoded` holds as a list of one.
pub uninterp spec fn decoded_number(encoded: Seq<u8>) -> Option<u64>;

/// The two signed numbers and the amount that `encoded` holds as a list of
/// three.
pub uninterp spec fn decoded_epochs_amount(encoded: Seq<u8>) -> Option<(i64, i64, int)>;

/// The addresses, the number and the signed numbers that `encoded` holds as
/// a list of four.
pub uninterp spec fn decoded_signers_four(encoded: Seq<u8>) -> Option<
    (Seq<Seq<u8>>, u64, i64, i64),
>;

/// The addresses, the number and the signed number that `encoded` holds as a
/// list of three.
pub uninterp spec fn decoded_signers_three(encoded: Seq<u8>) -> Option<(Seq<Seq<u8>>, u64, i64)>;

/// The encoding of a voucher and the byte string that `encoded` holds as a
/// pair.
pub uninterp spec fn decoded_voucher_bytes(encoded: Seq<u8>) -> Option<(Seq<u8>, Seq<u8>)>;

/// Calls `fvm_ipld_encoding::from_slice` for a pair of a `cid::Cid` and
/// `RawBytes`, and `Cid::to_bytes`.
#[verifier::external_body]
fn decode_cid_bytes(encoded: &[u8]) -> (r: Result<(Vec<u8>, Vec<u8>), fvm_ipld_encoding::Error>)
    ensures
        r is Ok <==> decoded_cid_bytes(encoded@) is Some,
        r matches Ok(p) ==> decoded_cid_bytes(encoded@) == Some((p.0@, p.1@)),
{
    let (cid, bytes): (cid::Cid, RawBytes) = from_slice(encoded)?;
    Ok((cid.to_bytes(), bytes.to_vec()))
}

/// Calls `fvm_ipld_encoding::from_slice` for a list of a
/// `fvm_shared::address::Address`, an amount as `BigIntDe`, a number and
/// `RawBytes`; the address gets the tag `network`.
#[verifier::external_body]
fn decode_address_amount_number_bytes(encoded: &[u8], network: Network) -> (r: Result<
    (Address, TokenAmount, u64, Vec<u8>),
    fvm_ipld_encoding::Error,
>)
    ensures
        r is Ok <==> decoded_address_amount_number_bytes(encoded@) is Some,
        r matches Ok(p) ==> decoded_address_amount_number_bytes(encoded@) == Some(
            (p.0@.bytes, p.1@, p.2, p.3@),
        ) && p.0@.network == network && address_bytes_valid(p.0@.bytes),
{
    let (a, v, n, b): (FvmAddress, BigIntDe, u64, RawBytes) = from_slice(encoded)?;
    let amount = TokenAmount { atto: v.0.to_signed_bytes_be() };
    Ok((Address { network, bytes: a.to_bytes() }, amount, n, b.to_vec()))
}

/// Calls `fvm_ipld_encoding::from_slice` for a pair of a signed number and
/// `RawBytes`.
#[verifier::external_body]
fn decode_number_bytes(encoded: &[u8]) -> (r: Result<(i64, Vec<u8>), fvm_ipld_encoding::Error>)
    ensures
        r is Ok <==> decoded_number_bytes(encoded@) is Some,
        r matches Ok(p) ==> decoded_number_bytes(encoded@) == Some((p.0, p.1@)),
{
    let (n, bytes): (i64, RawBytes) = from_slice(encoded)?;
    Ok((n, bytes.to_vec()))
}

/// Calls `fvm_ipld_encoding::from_slice` for a pair of a
/// `fvm_shared::address::Address` and a flag; the address gets the tag
/// `network`.
#[verifier::external_body]
fn decode_address_flag(encoded: &[u8], network: Network) -> (r: Result<
    (Address, bool),
    fvm_ipld_encoding::Error,
>)
    ensures
        r is Ok <==> decoded_address_flag(encoded@) is Some,
        r matches Ok(p) ==> decoded_address_flag(encoded@) == Some((p.0@.bytes, p.1))
            && p.0@.network == network && address_bytes_valid(p.0@.bytes),
{
    let (a, flag): (FvmAddress, bool) = from_slice(encoded)?;
    Ok((Address { network, bytes: a.to_bytes() }, flag))
}

/// Calls `fvm_ipld_encoding::from_slice` for a pair of
/// `fvm_shared::address::Address`; both get the tag `network`.
#[verifier::external_body]
fn decode_address_pair(encoded: &[u8], network: Network) -> (r: Result<
    (Address, Address),
    fvm_ipld_encoding::Error,
>)
    ensures
        r is Ok <==> decoded_address_pair(encoded@) is Some,
        r matches Ok(p) ==> decoded_address_pair(encoded@) == Some((p.0@.bytes, p.1@.bytes))
            && p.0@.network == network && p.1@.network == network && address_bytes_valid(
            p.0@.bytes,
        ) && address_bytes_valid(p.1@.bytes),
{
    let (a, b): (FvmAddress, FvmAddress) = from_slice(encoded)?;
    Ok((Address { network, bytes: a.to_bytes() }, Address { network, bytes: b.to_bytes() }))
}

/// Calls `fvm_ipld_encoding::from_slice` for a list of one number.
#[verifier::external_body]
fn decode_number(encoded: &[u8]) -> (r: Result<u64, fvm_ipld_encoding::Error>)
    ensures
        r is Ok <==> decoded_number(encoded@) is Some,
        r matches Ok(n) ==> decoded_number(encoded@) == Some(n),
{
    let (n,): (u64,) = from_slice(encoded)?;
    Ok(n)
}

/// Calls `fvm_ipld_encoding::from_slice` for a list of two signed numbers
/// and an amount as `BigIntDe`.
#[verifier::external_body]
fn decode_epochs_amount(encoded: &[u8]) -> (r: Result<
    (i64, i64, TokenAmount),
    fvm_ipld_encoding::Error,
>)
    ensures
        r is Ok <==> decoded_epochs_amount(encoded@) is Some,
        r matches Ok(p) ==> decoded_epochs_amount(encoded@) == Some((p.0, p.1, p.2@)),
{
    let (start, duration, v): (i64, i64, BigIntDe) = from_slice(encoded)?;
    Ok((start, duration, TokenAmount { atto: v.0.to_signed_bytes_be() }))
}

/// Calls `fvm_ipld_encoding::from_slice` for a list of a list of
/// `fvm_shared::address::Address`, a number and two signed numbers; the
/// addresses get the tag `network`.
#[verifier::external_body]
fn decode_signers_four(encoded: &[u8], network: Network) -> (r: Result<
    (Vec<Address>, u64, i64, i64),
    fvm_ipld_encoding::Error,
>)
    ensures
        r is Ok <==> decoded_signers_four(encoded@) is Some,
        r matches Ok(p) ==> decoded_signers_four(encoded@) == Some(
            (address_bytes(p.0@), p.1, p.2, p.3),
        ) && all_on(p.0@, network),
{
    let (signers, n, duration, start): (Vec<FvmAddress>, u64, i64, i64) = from_slice(encoded)?;
    let address = |a: FvmAddress| Address { network, bytes: a.to_bytes() };
    Ok((signers.into_iter().map(address).collect(), n, duration, start))
}

/// Calls `fvm_ipld_encoding::from_slice` for a list of a list of
/// `fvm_shared::address::Address`, a number and a signed number; the
/// addresses get the tag `network`.
#[verifier::external_body]
fn decode_signers_three(encoded: &[u8], network: Network) -> (r: Result<
    (Vec<Address>, u64, i64),
    fvm_ipld_encoding::Error,
>)
    ensures
        r is Ok <==> decoded_signers_three(encoded@) is Some,
        r matches Ok(p) ==> decoded_signers_three(encoded@) == Some(
            (address_bytes(p.0@), p.1, p.2),
        ) && all_on(p.0@, network),
{
    let (signers, n, duration): (Vec<FvmAddress>, u64, i64) = from_slice(encoded)?;
    let address = |a: FvmAddress| Address { network, bytes: a.to_bytes() };
    Ok((signers.into_iter().map(address).collect(), n, duration))
}

/// Calls `fvm_ipld_encoding::from_slice` for a pair of the eleven fields of
/// a voucher and `RawBytes`, and `fvm_ipld_encoding::to_vec` on the first:
/// the encoding of the voucher alone, and the byte string.
#[verifier::external_body]
fn decode_voucher_bytes(encoded: &[u8]) -> (r: Result<
    (Vec<u8>, Vec<u8>),
    fvm_ipld_encoding::Error,
>)
    ensures
        r is Ok <==> decoded_voucher_bytes(encoded@) is Some,
        r matches Ok(p) ==> decoded_voucher_bytes(encoded@) == Some((p.0@, p.1@)),
{
    let (voucher, bytes): (WireVoucher, RawBytes) = from_slice(encoded)?;
    Ok((to_vec(&voucher)?, bytes.to_vec()))
}

/// The methods of the init actor.
#[derive(Clone, Copy, Debug, PartialEq, Eq, Structural)]
pub enum MethodInit {
    Constructor,
    Exec,
}

/// The methods of a multisig actor.
#[derive(Clone, Copy, Debug, PartialEq, Eq, Structural)]
pub enum MethodMultisig {
    Constructor,
    Propose,
    Approve,
    Cancel,
    AddSigner,
    RemoveSigner,
    SwapSigner,
    ChangeNumApprovalsThreshold,
    LockBalance,
}

/// The methods of a payment-channel actor.
#[derive(Clone, Copy, Debug, PartialEq, Eq, Structural)]
pub enum MethodPaych {
    Constructor,
    UpdateChannelState,
    Settle,
    Collect,
}

impl MethodInit {
    /// The method with the number `n`, if there is one.
    pub open spec fn of(n: u64) -> Option<MethodInit> {
        if n == 1 {
            Some(MethodInit::Constructor)
        } else if n == 2 {
            Some(MethodInit::Exec)
        } else {
            None
        }
    }

    /// The method with the number `n`, if there is one.
    pub fn from_u64(n: u64) -> (m: Option<MethodInit>)
        ensures
            m == MethodInit::of(n),
    {
        if n == 1 {
            Some(MethodInit::Constructor)
        } else if n == 2 {
            Some(MethodInit::Exec)
        } else {
            None
        }
    }
}

impl MethodMultisig {
    /// The method with the number `n`, if there is one.
    pub open spec fn of(n: u64) -> Option<MethodMultisig> {
        if n == 1 {
            Some(MethodMultisig::Constructor)
        } else if n == 2 {
            Some(MethodMultisig::Propose)
        } else if n == 3 {
            Some(MethodMultisig::Approve)
        } else if n == 4 {
            Some(MethodMultisig::Cancel)
        } else if n == 5 {
            Some(MethodMultisig::AddSigner)
        } else if n == 6 {
            Some(MethodMultisig::RemoveSigner)
        } else if n == 7 {
            Some(MethodMultisig::SwapSigner)
        } else if n == 8 {
            Some(MethodMultisig::ChangeNumApprovalsThreshold)
        } else if n == 9 {
            Some(MethodMultisig::LockBalance)
        } else {
            None
        }
    }

    /// The method with the number `n`, if there is one.
    pub fn from_u64(n: u64) -> (m: Option<MethodMultisig>)
        ensures
            m == MethodMultisig::of(n),
    {
        if n == 1 {
            Some(MethodMultisig::Constructor)
        } else if n == 2 {
            Some(MethodMultisig::Propose)
        } else if n == 3 {
            Some(MethodMultisig::Approve)
        } else if n == 4 {
            Some(MethodMultisig::Cancel)
        } else if n == 5 {
            Some(MethodMultisig::AddSigner)
        } else if n == 6 {
            Some(MethodMultisig::RemoveSigner)
        } else if n == 7 {
            Some(MethodMultisig::SwapSigner)
        } else if n == 8 {
            Some(MethodMultisig::ChangeNumApprovalsThreshold)
        } else if n == 9 {
            Some(MethodMultisig::LockBalance)
        } else {
            None
        }
    }
}

impl MethodPaych {
    /// The method with the number `n`, if there is one.
    pub open spec fn of(n: u64) -> Option<MethodPaych> {
        if n == 1 {
            Some(MethodPaych::Constructor)
        } else if n == 2 {
            Some(MethodPaych::UpdateChannelState)
        } else if n == 3 {
            Some(MethodPaych::Settle)
        } else if n == 4 {
            Some(MethodPaych::Collect)
        } else {
            None
        }
    }

    /// The method with the number `n`, if there is one.
    pub fn from_u64(n: u64) -> (m: Option<MethodPaych>)
        ensures
            m == MethodPaych::of(n),
    {
        if n == 1 {
            Some(MethodPaych::Constructor)
        } else if n == 2 {
            Some(MethodPaych::UpdateChannelState)
        } else if n == 3 {
            Some(MethodPaych::Settle)
        } else if n == 4 {
            Some(MethodPaych::Collect)
        } else {
            None
        }
    }
}

/// What the parameters of a method of the init actor decode to. Only `Exec`
/// is known.
pub open spec fn init_params(bytes: Seq<u8>, method: u64) -> Result<MessageParamsView, ErrorKind> {
    match MethodInit::of(method) {
        Some(MethodInit::Exec) => match decoded_cid_bytes(bytes) {
            Some((code_cid, constructor_params)) => Ok(
                MessageParamsView::ExecParams { code_cid, constructor_params },
            ),
            None => Err(ErrorKind::Encoding),
        },
        _ => Err(ErrorKind::UnknownMethod),
    }
}

/// What the parameters of a method of a multisig actor decode to. Every
/// method but the constructor is known; `Approve` and `Cancel` share a shape.
/// Addresses are tagged with the main network.
pub open spec fn multisig_params(bytes: Seq<u8>, method: u64) -> Result<
    MessageParamsView,
    ErrorKind,
> {
    match MethodMultisig::of(method) {
        Some(MethodMultisig::Propose) => match decoded_address_amount_number_bytes(bytes) {
            Some((to, value, method, params)) => Ok(
                MessageParamsView::ProposeParams {
                    to: tagged(to, Network::Mainnet),
                    value,
                    method,
                    params,
                },
            ),
            None => Err(ErrorKind::Encoding),
        },
        Some(MethodMultisig::Approve) | Some(MethodMultisig::Cancel) => match decoded_number_bytes(
            bytes,
        ) {
            Some((id, proposal_hash)) => Ok(MessageParamsView::TxnIDParams { id, proposal_hash }),
            None => Err(ErrorKind::Encoding),
        },
        Some(MethodMultisig::AddSigner) => match decoded_address_flag(bytes) {
            Some((signer, increase)) => Ok(
                MessageParamsView::AddSignerParams {
                    signer: tagged(signer, Network::Mainnet),
                    increase,
                },
            ),
            None => Err(ErrorKind::Encoding),
        },
        Some(MethodMultisig::RemoveSigner) => match decoded_address_flag(bytes) {
            Some((signer, decrease)) => Ok(
                MessageParamsView::RemoveSignerParams {
                    signer: tagged(signer, Network::Mainnet),
                    decrease,
                },
            ),
            None => Err(ErrorKind::Encoding),
        },
        Some(MethodMultisig::SwapSigner) => match decoded_address_pair(bytes) {
            Some((from, to)) => Ok(
                MessageParamsView::SwapSignerParams {
                    from: tagged(from, Network::Mainnet),
                    to: tagged(to, Network::Mainnet),
                },
            ),
            None => Err(ErrorKind::Encoding),
        },
        Some(MethodMultisig::ChangeNumApprovalsThreshold) => match decoded_number(bytes) {
            Some(new_threshold) => Ok(
                MessageParamsView::ChangeNumApprovalsThresholdParams { new_threshold },
            ),
            None => Err(ErrorKind::Encoding),
        },
        Some(MethodMultisig::LockBalance) => match decoded_epochs_amount(bytes) {
            Some((start_epoch, unlock_duration, amount)) => Ok(
                MessageParamsView::LockBalanceParams { start_epoch, unlock_duration, amount },
            ),
            None => Err(ErrorKind::Encoding),
        },
        _ => Err(ErrorKind::UnknownMethod),
    }
}

/// What the parameters of a method of a payment-channel actor decode to.
/// `Settle` and `Collect` take none: the answer is the empty text, and the
/// bytes are not looked at.
pub open spec fn paych_params(bytes: Seq<u8>, method: u64) -> Result<MessageParamsView, ErrorKind> {
    match MethodPaych::of(method) {
        Some(MethodPaych::UpdateChannelState) => match decoded_voucher_bytes(bytes) {
            Some((voucher, secret)) => match voucher_decoded(voucher, Network::Mainnet) {
                Some(sv) => Ok(MessageParamsView::UpdateChannelStateParams { sv, secret }),
                None => Err(ErrorKind::Encoding),
            },
            None => Err(ErrorKind::Encoding),
        },
        Some(MethodPaych::Settle) | Some(MethodPaych::Collect) => Ok(
            MessageParamsView::MessageParamsSerialized(Seq::empty()),
        ),
        _ => Err(ErrorKind::UnknownMethod),
    }
}

/// What the parameters of a method decode to: the text is decoded to bytes
/// first; then the actor kind picks the table, and any kind but the three
/// known ones is refused.
pub open spec fn method_params(text: Seq<char>, actor: Seq<char>, method: u64) -> Result<
    MessageParamsView,
    ErrorKind,
> {
    match base64_bytes(text) {
        None => Err(ErrorKind::Base64),
        Some(bytes) => if actor == "init"@ {
            init_params(bytes, method)
        } else if actor == "multisig"@ {
            multisig_params(bytes, method)
        } else if actor == "paymentchannel"@ {
            paych_params(bytes, method)
        } else {
            Err(ErrorKind::UnknownActor)
        },
    }
}

/// Whether two texts are the same.
fn same_text(a: &str, b: &str) -> (same: bool)
    ensures
        same == (a@ == b@),
{
    a.to_string() == b.to_string()
}

/// Decodes the parameters of a method of the init actor.
fn deserialize_init_params(bytes: &[u8], method: u64) -> (r: Result<MessageParams, SignerError>)
    ensures
        r matches Ok(p) ==> init_params(bytes@, method) == Ok::<_, ErrorKind>(p@),
        r matches Err(e) ==> init_params(bytes@, method) == Err::<MessageParamsView, _>(e.kind()),
{
    match MethodInit::from_u64(method) {
        Some(MethodInit::Exec) => match decode_cid_bytes(bytes) {
            Ok((code_cid, constructor_params)) => Ok(
                MessageParams::ExecParams(ExecParams { code_cid, constructor_params }),
            ),
            Err(e) => Err(SignerError::Encoding(e)),
        },
        _ => Err(SignerError::UnknownMethod),
    }
}

/// Decodes the parameters of a method of a multisig actor.
fn deserialize_multisig_params(bytes: &[u8], method: u64) -> (r: Result<
    MessageParams,
    SignerError,
>)
    ensures
        r matches Ok(p) ==> multisig_params(bytes@, method) == Ok::<_, ErrorKind>(p@),
        r matches Err(e) ==> multisig_params(bytes@, method) == Err::<MessageParamsView, _>(
            e.kind(),
        ),
{
    match MethodMultisig::from_u64(method) {
        Some(MethodMultisig::Propose) => match decode_address_amount_number_bytes(
            bytes,
            Network::Mainnet,
        ) {
            Ok((to, value, method, params)) => Ok(
                MessageParams::ProposeParams(ProposeParams { to, value, method, params }),
            ),
            Err(e) => Err(SignerError::Encoding(e)),
        },
        Some(MethodMultisig::Approve) | Some(MethodMultisig::Cancel) => match decode_number_bytes(
            bytes,
        ) {
            Ok((id, proposal_hash)) => Ok(
                MessageParams::TxnIDParams(TxnIDParams { id, proposal_hash }),
            ),
            Err(e) => Err(SignerError::Encoding(e)),
        },
        Some(MethodMultisig::AddSigner) => match decode_address_flag(bytes, Network::Mainnet) {
            Ok((signer, increase)) => Ok(
                MessageParams::AddSignerParams(AddSignerParams { signer, increase }),
            ),
            Err(e) => Err(SignerError::Encoding(e)),
        },
        Some(MethodMultisig::RemoveSigner) => match decode_address_flag(bytes, Network::Mainnet) {
            Ok((signer, decrease)) => Ok(
                MessageParams::RemoveSignerParams(RemoveSignerParams { signer, decrease }),
            ),
            Err(e) => Err(SignerError::Encoding(e)),
        },
        Some(MethodMultisig::SwapSigner) => match decode_address_pair(bytes, Network::Mainnet) {
            Ok((from, to)) => Ok(MessageParams::SwapSignerParams(SwapSignerParams { from, to })),
            Err(e) => Err(SignerError::Encoding(e)),
        },
        Some(MethodMultisig::ChangeNumApprovalsThreshold) => match decode_number(bytes) {
            Ok(new_threshold) => Ok(
                MessageParams::ChangeNumApprovalsThresholdParams(
                    ChangeNumApprovalsThresholdParams { new_threshold },
                ),
            ),
            Err(e) => Err(SignerError::Encoding(e)),
        },
        Some(MethodMultisig::LockBalance) => match decode_epochs_amount(bytes) {
            Ok((start_epoch, unlock_duration, amount)) => Ok(
                MessageParams::LockBalanceParams(
                    LockBalanceParams { start_epoch, unlock_duration, amount },
                ),
            ),
            Err(e) => Err(SignerError::Encoding(e)),
        },
        _ => Err(SignerError::UnknownMethod),
    }
}

/// Decodes the parameters of a method of a payment-channel actor.
fn deserialize_paych_params(bytes: &[u8], method: u64) -> (r: Result<MessageParams, SignerError>)
    ensures
        r matches Ok(p) ==> paych_params(bytes@, method) == Ok::<_, ErrorKind>(p@),
        r matches Err(e) ==> paych_params(bytes@, method) == Err::<MessageParamsView, _>(e.kind()),
{
    match MethodPaych::from_u64(method) {
        Some(MethodPaych::UpdateChannelState) => match decode_voucher_bytes(bytes) {
            Ok((voucher, secret)) => {
                let sv = SignedVoucher::decode(voucher.as_slice(), Network::Mainnet)?;
                Ok(MessageParams::UpdateChannelStateParams(UpdateChannelStateParams { sv, secret }))
            },
            Err(e) => Err(SignerError::Encoding(e)),
        },
        Some(MethodPaych::Settle) | Some(MethodPaych::Collect) => Ok(
            MessageParams::MessageParamsSerialized(String::new()),
        ),
        _ => Err(SignerError::UnknownMethod),
    }
}

/// Decodes the parameters of a method. `params_b64_string` is their
/// text-safe encoding, `actor_type` one of `init`, `multisig` and
/// `paymentchannel`, and `method` the number of the method. Addresses in the
/// result are tagged with the main network. A pair of actor kind and method
/// outside the table is refused, never answered with a default.
pub fn deserialize_params(params_b64_string: String, actor_type: String, method: u64) -> (r: Result<
    MessageParams,
    SignerError,
>)
    ensures
        r matches Ok(p) ==> method_params(params_b64_string@, actor_type@, method) == Ok::<
            _,
            ErrorKind,
        >(p@),
        r matches Err(e) ==> method_params(params_b64_string@, actor_type@, method) == Err::<
            MessageParamsView,
            _,
        >(e.kind()),
{
    let params_decode = match base64_decode(params_b64_string.as_str()) {
        Ok(bytes) => bytes,
        Err(e) => {
            return Err(SignerError::Base64(e));
        },
    };
    let serialized_params = params_decode.as_slice();
    if same_text(actor_type.as_str(), "init") {
        return deserialize_init_params(serialized_params, method);
    }
    if same_text(actor_type.as_str(), "multisig") {
        return deserialize_multisig_params(serialized_params, method);
    }
    if same_text(actor_type.as_str(), "paymentchannel") {
        return deserialize_paych_params(serialized_params, method);
    }
    Err(SignerError::UnknownActor)
}

/// The current shape of constructor parameters that came in the older one:
/// the same signers, threshold and unlock duration, and a start epoch of
/// zero.
pub open spec fn migrated(legacy: (Seq<Seq<u8>>, u64, i64)) -> MessageParamsView {
    MessageParamsView::MultisigConstructorParams {
        signers: tagged_list(legacy.0, Network::Mainnet),
        num_approvals_threshold: legacy.1,
        unlock_duration: legacy.2,
        start_epoch: 0,
    }
}

/// What the parameters of a constructor decode to: the text is decoded to
/// bytes first; then the code tag picks the shape, and any tag but the three
/// known ones is refused.
pub open spec fn constructor_params(text: Seq<char>, code: Seq<char>) -> Result<
    MessageParamsView,
    ErrorKind,
> {
    match base64_bytes(text) {
        None => Err(ErrorKind::Base64),
        Some(bytes) => if code == "multisig"@ {
            match decoded_signers_four(bytes) {
                Some((signers, num_approvals_threshold, unlock_duration, start_epoch)) => Ok(
                    MessageParamsView::MultisigConstructorParams {
                        signers: tagged_list(signers, Network::Mainnet),
                        num_approvals_threshold,
                        unlock_duration,
                        start_epoch,
                    },
                ),
                None => Err(ErrorKind::Encoding),
            }
        } else if code == "paymentchannel"@ {
            match decoded_address_pair(bytes) {
                Some((from, to)) => Ok(
                    MessageParamsView::PaychConstructorParams {
                        from: tagged(from, Network::Mainnet),
                        to: tagged(to, Network::Mainnet),
                    },
                ),
                None => Err(ErrorKind::Encoding),
            }
        } else if code == "fil/1/multisig"@ {
            match decoded_signers_three(bytes) {
                Some(legacy) => Ok(migrated(legacy)),
                None => Err(ErrorKind::Encoding),
            }
        } else {
            Err(ErrorKind::UnknownCode)
        },
    }
}

/// Decodes the parameters of a constructor. `code_cid` is `multisig` or
/// `paymentchannel` for the current shapes, or `fil/1/multisig` for the
/// older shape of the multisig constructor, which is brought to the current
/// one.
pub fn deserialize_constructor_params(params_b64_string: String, code_cid: String) -> (r: Result<
    MessageParams,
    SignerError,
>)
    ensures
        r matches Ok(p) ==> constructor_params(params_b64_string@, code_cid@) == Ok::<
            _,
            ErrorKind,
        >(p@),
        r matches Err(e) ==> constructor_params(params_b64_string@, code_cid@) == Err::<
            MessageParamsView,
            _,
        >(e.kind()),
{
    let params_decode = match base64_decode(params_b64_string.as_str()) {
        Ok(bytes) => bytes,
        Err(e) => {
            return Err(SignerError::Base64(e));
        },
    };
    let serialized_params = params_decode.as_slice();
    if same_text(code_cid.as_str(), "multisig") {
        return match decode_signers_four(serialized_params, Network::Mainnet) {
            Ok((signers, num_approvals_threshold, unlock_duration, start_epoch)) => {
                proof {
                    lemma_address_lists(signers@, Network::Mainnet);
                }
                Ok(
                    MessageParams::MultisigConstructorParams(
                        ConstructorParams {
                            signers,
                            num_approvals_threshold,
                            unlock_duration,
                            start_epoch,
                        },
                    ),
                )
            },
            Err(e) => Err(SignerError::Encoding(e)),
        };
    }
    if same_text(code_cid.as_str(), "paymentchannel") {
        return match decode_address_pair(serialized_params, Network::Mainnet) {
            Ok((from, to)) => Ok(
                MessageParams::PaychConstructorParams(PaychConstructorParams { from, to }),
            ),
            Err(e) => Err(SignerError::Encoding(e)),
        };
    }
    if same_text(code_cid.as_str(), "fil/1/multisig") {
        return match decode_signers_three(serialized_params, Network::Mainnet) {
            Ok((signers, num_approvals_threshold, unlock_duration)) => {
                proof {
                    lemma_address_lists(signers@, Network::Mainnet);
                }
                let deprecated_multisig_params = ConstructorParamsV1 {
                    signers,
                    num_approvals_threshold,
                    unlock_duration,
                };
                let params = ConstructorParams {
                    signers: deprecated_multisig_params.signers,
                    num_approvals_threshold: deprecated_multisig_params.num_approvals_threshold,
                    unlock_duration: deprecated_multisig_params.unlock_duration,
                    start_epoch: 0,
                };
                Ok(MessageParams::MultisigConstructorParams(params))
            },
            Err(e) => Err(SignerError::Encoding(e)),
        };
    }
    Err(SignerError::UnknownCode)
}

/// The shapes that parameters come in.
#[derive(Clone, Copy, Debug, PartialEq, Eq, Structural)]
pub enum ParamsShape {
    Serialized,
    Exec,
    Propose,
    TxnID,
    AddSigner,
    RemoveSigner,
    SwapSigner,
    ChangeNumApprovalsThreshold,
    LockBalance,
    MultisigConstructor,
    PaychConstructor,
    UpdateChannelState,
}

/// The shape of given parameters.
pub open spec fn shape_of(p: MessageParamsView) -> ParamsShape {
    match p {
        MessageParamsView::MessageParamsSerialized(_) => ParamsShape::Serialized,
        MessageParamsView::ExecParams { .. } => ParamsShape::Exec,
        MessageParamsView::ProposeParams { .. } => ParamsShape::Propose,
        MessageParamsView::TxnIDParams { .. } => ParamsShape::TxnID,
        MessageParamsView::AddSignerParams { .. } => ParamsShape::AddSigner,
        MessageParamsView::RemoveSignerParams { .. } => ParamsShape::RemoveSigner,
        MessageParamsView::SwapSignerParams { .. } => ParamsShape::SwapSigner,
        MessageParamsView::ChangeNumApprovalsThresholdParams { .. } => {
            ParamsShape::ChangeNumApprovalsThreshold
        },
        MessageParamsView::LockBalanceParams { .. } => ParamsShape::LockBalance,
        MessageParamsView::MultisigConstructorParams { .. } => ParamsShape::MultisigConstructor,
        MessageParamsView::PaychConstructorParams { .. } => ParamsShape::PaychConstructor,
        MessageParamsView::UpdateChannelStateParams { .. } => ParamsShape::UpdateChannelState,
    }
}

/// The table of supported methods: the shape of the parameters of the method
/// `method` of the actor kind `actor`, if the pair is supported.
pub open spec fn documented_shape(actor: Seq<char>, method: u64) -> Option<ParamsShape> {
    if actor == "init"@ {
        if method == 2 {
            Some(ParamsShape::Exec)
        } else {
            None
        }
    } else if actor == "multisig"@ {
        if method == 2 {
            Some(ParamsShape::Propose)
        } else if method == 3 || method == 4 {
            Some(ParamsShape::TxnID)
        } else if method == 5 {
            Some(ParamsShape::AddSigner)
        } else if method == 6 {
            Some(ParamsShape::RemoveSigner)
        } else if method == 7 {
            Some(ParamsShape::SwapSigner)
        } else if method == 8 {
            Some(ParamsShape::ChangeNumApprovalsThreshold)
        } else if method == 9 {
            Some(ParamsShape::LockBalance)
        } else {
            None
        }
    } else if actor == "paymentchannel"@ {
        if method == 2 {
            Some(ParamsShape::UpdateChannelState)
        } else if method == 3 || method == 4 {
            Some(ParamsShape::Serialized)
        } else {
            None
        }
    } else {
        None
    }
}

/// The dispatch on actor kind and method is closed. Whatever decodes, decodes
/// to the shape that the table gives for the pair. A pair outside the table,
/// with parameters that are base64 text, is refused as an unknown actor or an
/// unknown method, whatever the parameters hold; and the two methods of the
/// payment channel that take no parameters are the only ones that answer
/// without looking at them.
pub proof fn lemma_dispatch_is_closed(text: Seq<char>, actor: Seq<char>, method: u64)
    ensures
        method_params(text, actor, method) matches Ok(p) ==> documented_shape(actor, method)
            == Some(shape_of(p)),
        documented_shape(actor, method) is None && base64_bytes(text) is Some ==> (method_params(
            text,
            actor,
            method,
        ) == Err::<MessageParamsView, _>(ErrorKind::UnknownActor) || method_params(
            text,
            actor,
            method,
        ) == Err::<MessageParamsView, _>(ErrorKind::UnknownMethod)),
        documented_shape(actor, method) is Some && base64_bytes(text) is Some ==> (method_params(
            text,
            actor,
            method,
        ) is Ok || method_params(text, actor, method) == Err::<MessageParamsView, _>(
            ErrorKind::Encoding,
        )),
        documented_shape(actor, method) == Some(ParamsShape::Serialized) && base64_bytes(text)
            is Some ==> method_params(text, actor, method) == Ok::<_, ErrorKind>(
            MessageParamsView::MessageParamsSerialized(Seq::empty()),
        ),
{
}

/// Constructor parameters in the older multisig shape come out in the
/// current shape, with the same signers, threshold and unlock duration, and
/// a start epoch of zero.
pub proof fn lemma_legacy_constructor_migration(text: Seq<char>)
    ensures
        match base64_bytes(text) {
            None => constructor_params(text, "fil/1/multisig"@) is Err,
            Some(bytes) => match decoded_signers_three(bytes) {
                None => constructor_params(text, "fil/1/multisig"@) is Err,
                Some(legacy) => constructor_params(text, "fil/1/multisig"@) == Ok::<_, ErrorKind>(
                    MessageParamsView::MultisigConstructorParams {
                        signers: tagged_list(legacy.0, Network::Mainnet),
                        num_approvals_threshold: legacy.1,
                        unlock_duration: legacy.2,
                        start_epoch: 0,
                    },
                ),
            },
        },
{
    reveal_strlit("fil/1/multisig");
    reveal_strlit("multisig");
    reveal_strlit("paymentchannel");
    assert("fil/1/multisig"@.len() == 14);
    assert("multisig"@.len() == 8);
    assert("fil/1/multisig"@[0] == 'f');
    assert("paymentchannel"@[0] == 'p');
}

/// The encoding of the pair of a content identifier, given in its binary
/// form, and a byte string.
pub uninterp spec fn cid_bytes_encoding(cid: Seq<u8>, bytes: Seq<u8>) -> Option<Seq<u8>>;

/// The encoding of the list of an address, an amount, a number and a byte
/// string.
pub uninterp spec fn address_amount_number_bytes_encoding(
    address: Seq<u8>,
    amount: int,
    number: u64,
    bytes: Seq<u8>,
) -> Option<Seq<u8>>;

/// The encoding of the pair of a signed number and a byte string.
pub uninterp spec fn number_bytes_encoding(number: i64, bytes: Seq<u8>) -> Option<Seq<u8>>;

/// The encoding of the pair of an address and a flag.
pub uninterp spec fn address_flag_encoding(address: Seq<u8>, flag: bool) -> Option<Seq<u8>>;

/// The encoding of the pair of two addresses.
pub uninterp spec fn address_pair_encoding(first: Seq<u8>, second: Seq<u8>) -> Option<Seq<u8>>;

/// The encoding of the list of one number.
pub uninterp spec fn number_encoding(number: u64) -> Option<Seq<u8>>;

/// The encoding of the list of two signed numbers and an amount.
pub uninterp spec fn epochs_amount_encoding(first: i64, second: i64, amount: int) -> Option<
    Seq<u8>,
>;

/// The encoding of the list of a list of addresses, a number and two signed
/// numbers.
pub uninterp spec fn signers_four_encoding(
    signers: Seq<Seq<u8>>,
    number: u64,
    first: i64,
    second: i64,
) -> Option<Seq<u8>>;

/// The encoding of the pair of a voucher, given by its encoding, and a byte
/// string.
pub uninterp spec fn voucher_bytes_encoding(voucher: Seq<u8>, bytes: Seq<u8>) -> Option<Seq<u8>>;

/// Calls `cid::Cid::try_from` on the binary form and
/// `fvm_ipld_encoding::to_vec` on the pair of the identifier and the bytes
/// as `RawBytes`.
#[verifier::external_body]
fn encode_cid_bytes(cid: &[u8], bytes: &[u8]) -> (r: Result<Vec<u8>, fvm_ipld_encoding::Error>)
    requires
        cid_text(cid@) is Some,
    ensures
        r is Ok <==> cid_bytes_encoding(cid@, bytes@) is Some,
        r matches Ok(encoded) ==> cid_bytes_encoding(cid@, bytes@) == Some(encoded@),
{
    to_vec(&(cid::Cid::try_from(cid).unwrap(), RawBytes::new(bytes.to_vec())))
}

/// Calls `fvm_ipld_encoding::to_vec` on the list of the
/// `fvm_shared::address::Address`, the amount as `BigIntDe`, the number and
/// the bytes as `RawBytes`.
#[verifier::external_body]
fn encode_address_amount_number_bytes(
    address: &Address,
    amount: &TokenAmount,
    number: u64,
    bytes: &[u8],
) -> (r: Result<Vec<u8>, fvm_ipld_encoding::Error>)
    requires
        address_bytes_valid(address@.bytes),
    ensures
        r is Ok <==> address_amount_number_bytes_encoding(address@.bytes, amount@, number, bytes@)
            is Some,
        r matches Ok(encoded) ==> address_amount_number_bytes_encoding(
            address@.bytes,
            amount@,
            number,
            bytes@,
        ) == Some(encoded@),
{
    let a = FvmAddress::from_bytes(&address.bytes).unwrap();
    let v = BigIntDe(BigInt::from_signed_bytes_be(&amount.atto));
    to_vec(&(a, v, number, RawBytes::new(bytes.to_vec())))
}

/// Calls `fvm_ipld_encoding::to_vec` on the pair of the number and the bytes
/// as `RawBytes`.
#[verifier::external_body]
fn encode_number_bytes(number: i64, bytes: &[u8]) -> (r: Result<Vec<u8>, fvm_ipld_encoding::Error>)
    ensures
        r is Ok <==> number_bytes_encoding(number, bytes@) is Some,
        r matches Ok(encoded) ==> number_bytes_encoding(number, bytes@) == Some(encoded@),
{
    to_vec(&(number, RawBytes::new(bytes.to_vec())))
}

/// Calls `fvm_ipld_encoding::to_vec` on the pair of the
/// `fvm_shared::address::Address` and the flag.
#[verifier::external_body]
fn encode_address_flag(address: &Address, flag: bool) -> (r: Result<
    Vec<u8>,
    fvm_ipld_encoding::Error,
>)
    requires
        address_bytes_valid(address@.bytes),
    ensures
        r is Ok <==> address_flag_encoding(address@.bytes, flag) is Some,
        r matches Ok(encoded) ==> address_flag_encoding(address@.bytes, flag) == Some(encoded@),
{
    to_vec(&(FvmAddress::from_bytes(&address.bytes).unwrap(), flag))
}

/// Calls `fvm_ipld_encoding::to_vec` on the pair of the two
/// `fvm_shared::address::Address`.
#[verifier::external_body]
fn encode_address_pair(first: &Address, second: &Address) -> (r: Result<
    Vec<u8>,
    fvm_ipld_encoding::Error,
>)
    requires
        address_bytes_valid(first@.bytes),
        address_bytes_valid(second@.bytes),
    ensures
        r is Ok <==> address_pair_encoding(first@.bytes, second@.bytes) is Some,
        r matches Ok(encoded) ==> address_pair_encoding(first@.bytes, second@.bytes) == Some(
            encoded@,
        ),
{
    let a = FvmAddress::from_bytes(&first.bytes).unwrap();
    to_vec(&(a, FvmAddress::from_bytes(&second.bytes).unwrap()))
}

/// Calls `fvm_ipld_encoding::to_vec` on the list of the one number.
#[verifier::external_body]
fn encode_number(number: u64) -> (r: Result<Vec<u8>, fvm_ipld_encoding::Error>)
    ensures
        r is Ok <==> number_encoding(number) is Some,
        r matches Ok(encoded) ==> number_encoding(number) == Some(encoded@),
{
    to_vec(&(number,))
}

/// Calls `fvm_ipld_encoding::to_vec` on the list of the two numbers and the
/// amount as `BigIntDe`.
#[verifier::external_body]
fn encode_epochs_amount(first: i64, second: i64, amount: &TokenAmount) -> (r: Result<
    Vec<u8>,
    fvm_ipld_encoding::Error,
>)
    ensures
        r is Ok <==> epochs_amount_encoding(first, second, amount@) is Some,
        r matches Ok(encoded) ==> epochs_amount_encoding(first, second, amount@) == Some(encoded@),
{
    to_vec(&(first, second, BigIntDe(BigInt::from_signed_bytes_be(&amount.atto))))
}

/// Calls `fvm_ipld_encoding::to_vec` on the list of the list of
/// `fvm_shared::address::Address`, the number and the two signed numbers.
#[verifier::external_body]
fn encode_signers_four(signers: &Vec<Address>, number: u64, first: i64, second: i64) -> (r: Result<
    Vec<u8>,
    fvm_ipld_encoding::Error,
>)
    requires
        forall|i: int| 0 <= i < signers@.len() ==> address_bytes_valid(#[trigger] signers@[i]@.bytes),
    ensures
        r is Ok <==> signers_four_encoding(address_bytes(signers@), number, first, second) is Some,
        r matches Ok(encoded) ==> signers_four_encoding(
            address_bytes(signers@),
            number,
            first,
            second,
        ) == Some(encoded@),
{
    let address = |a: &Address| FvmAddress::from_bytes(&a.bytes).unwrap();
    to_vec(&(signers.iter().map(address).collect::<Vec<_>>(), number, first, second))
}

/// Calls `fvm_ipld_encoding::from_slice` for the eleven fields of a voucher
/// and `fvm_ipld_encoding::to_vec` on the pair of them and the bytes as
/// `RawBytes`.
#[verifier::external_body]
fn encode_voucher_bytes(voucher: &[u8], bytes: &[u8]) -> (r: Result<
    Vec<u8>,
    fvm_ipld_encoding::Error,
>)
    ensures
        r is Ok <==> voucher_bytes_encoding(voucher@, bytes@) is Some,
        r matches Ok(encoded) ==> voucher_bytes_encoding(voucher@, bytes@) == Some(encoded@),
{
    let wire: WireVoucher = from_slice(voucher)?;
    to_vec(&(wire, RawBytes::new(bytes.to_vec())))
}

/// An answer of the binary codec, as an answer of the signer.
pub open spec fn encoded_or_refused(encoded: Option<Seq<u8>>) -> Result<Seq<u8>, ErrorKind> {
    match encoded {
        Some(bytes) => Ok(bytes),
        None => Err(ErrorKind::Encoding),
    }
}

/// The canonical encoding of parameters. Parameters that were left in their
/// text-safe encoding are decoded from it; those of a known shape are encoded
/// field by field.
pub open spec fn params_encoding(p: MessageParamsView) -> Result<Seq<u8>, ErrorKind> {
    match p {
        MessageParamsView::MessageParamsSerialized(text) => match base64_bytes(text) {
            Some(bytes) => Ok(bytes),
            None => Err(ErrorKind::Base64),
        },
        MessageParamsView::ExecParams { code_cid, constructor_params } => if cid_text(code_cid)
            is None {
            Err(ErrorKind::Cid)
        } else {
            encoded_or_refused(cid_bytes_encoding(code_cid, constructor_params))
        },
        MessageParamsView::ProposeParams { to, value, method, params } => encoded_or_refused(
            address_amount_number_bytes_encoding(to.bytes, value, method, params),
        ),
        MessageParamsView::TxnIDParams { id, proposal_hash } => encoded_or_refused(
            number_bytes_encoding(id, proposal_hash),
        ),
        MessageParamsView::AddSignerParams { signer, increase } => encoded_or_refused(
            address_flag_encoding(signer.bytes, increase),
        ),
        MessageParamsView::RemoveSignerParams { signer, decrease } => encoded_or_refused(
            address_flag_encoding(signer.bytes, decrease),
        ),
        MessageParamsView::SwapSignerParams { from, to } => encoded_or_refused(
            address_pair_encoding(from.bytes, to.bytes),
        ),
        MessageParamsView::ChangeNumApprovalsThresholdParams { new_threshold } => {
            encoded_or_refused(number_encoding(new_threshold))
        },
        MessageParamsView::LockBalanceParams { start_epoch, unlock_duration, amount } => {
            encoded_or_refused(epochs_amount_encoding(start_epoch, unlock_duration, amount))
        },
        MessageParamsView::MultisigConstructorParams {
            signers,
            num_approvals_threshold,
            unlock_duration,
            start_epoch,
        } => encoded_or_refused(
            signers_four_encoding(
                untagged_list(signers),
                num_approvals_threshold,
                unlock_duration,
                start_epoch,
            ),
        ),
        MessageParamsView::PaychConstructorParams { from, to } => encoded_or_refused(
            address_pair_encoding(from.bytes, to.bytes),
        ),
        MessageParamsView::UpdateChannelStateParams { sv, secret } => match voucher_encoded(sv) {
            Some(voucher) => encoded_or_refused(voucher_bytes_encoding(voucher, secret)),
            None => Err(ErrorKind::Encoding),
        },
    }
}

/// Looks at every address of a list, which makes known that each has a
/// binary form that stands for an address.
fn check_addresses(list: &Vec<Address>)
    ensures
        forall|i: int| 0 <= i < list@.len() ==> address_bytes_valid(#[trigger] list@[i]@.bytes),
{
    let n = list.len();
    let mut i: usize = 0;
    while i < n
        invariant
            i <= n,
            n == list@.len(),
            forall|j: int| 0 <= j < i ==> address_bytes_valid(#[trigger] list@[j]@.bytes),
        decreases n - i,
    {
        let _ = list[i].as_bytes();
        i = i + 1;
    }
}

/// An answer of the binary codec, as an answer of the signer.
fn encoded(r: Result<Vec<u8>, fvm_ipld_encoding::Error>) -> (out: Result<Vec<u8>, SignerError>)
    ensures
        r matches Ok(bytes) ==> (out matches Ok(b) && b@ == bytes@),
        r is Err ==> (out matches Err(e) && e.kind() == ErrorKind::Encoding),
{
    match r {
        Ok(bytes) => Ok(bytes),
        Err(e) => Err(SignerError::Encoding(e)),
    }
}

/// Encodes the parameters of a message in their canonical binary form.
pub fn serialize_params(params: MessageParams) -> (r: Result<Vec<u8>, SignerError>)
    ensures
        r matches Ok(bytes) ==> params_encoding(params@) == Ok::<_, ErrorKind>(bytes@),
        r matches Err(e) ==> params_encoding(params@) == Err::<Seq<u8>, _>(e.kind()),
{
    match &params {
        MessageParams::MessageParamsSerialized(text) => match base64_decode(text.as_str()) {
            Ok(bytes) => Ok(bytes),
            Err(e) => Err(SignerError::Base64(e)),
        },
        MessageParams::ExecParams(p) => {
            match cid_to_text(p.code_cid.as_slice()) {
                Ok(_) => {},
                Err(e) => {
                    return Err(SignerError::Cid(e));
                },
            }
            encoded(encode_cid_bytes(p.code_cid.as_slice(), p.constructor_params.as_slice()))
        },
        MessageParams::ProposeParams(p) => {
            let _ = p.to.as_bytes();
            encoded(
                encode_address_amount_number_bytes(&p.to, &p.value, p.method, p.params.as_slice()),
            )
        },
        MessageParams::TxnIDParams(p) => encoded(
            encode_number_bytes(p.id, p.proposal_hash.as_slice()),
        ),
        MessageParams::AddSignerParams(p) => {
            let _ = p.signer.as_bytes();
            encoded(encode_address_flag(&p.signer, p.increase))
        },
        MessageParams::RemoveSignerParams(p) => {
            let _ = p.signer.as_bytes();
            encoded(encode_address_flag(&p.signer, p.decrease))
        },
        MessageParams::SwapSignerParams(p) => {
            let _ = p.from.as_bytes();
            let _ = p.to.as_bytes();
            encoded(encode_address_pair(&p.from, &p.to))
        },
        MessageParams::ChangeNumApprovalsThresholdParams(p) => encoded(
            encode_number(p.new_threshold),
        ),
        MessageParams::LockBalanceParams(p) => encoded(
            encode_epochs_amount(p.start_epoch, p.unlock_duration, &p.amount),
        ),
        MessageParams::MultisigConstructorParams(p) => {
            proof {
                lemma_address_lists(p.signers@, Network::Mainnet);
            }
            check_addresses(&p.signers);
            encoded(
                encode_signers_four(
                    &p.signers,
                    p.num_approvals_threshold,
                    p.unlock_duration,
                    p.start_epoch,
                ),
            )
        },
        MessageParams::PaychConstructorParams(p) => {
            let _ = p.from.as_bytes();
            let _ = p.to.as_bytes();
            encoded(encode_address_pair(&p.from, &p.to))
        },
        MessageParams::UpdateChannelStateParams(p) => {
            let voucher = p.sv.encode()?;
            encoded(encode_voucher_bytes(voucher.as_slice(), p.secret.as_slice()))
        },
    }
}

} // verus!
