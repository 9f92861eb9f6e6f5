use filecoin_signer::address::Address;
use filecoin_signer::amount::TokenAmount;
use filecoin_signer::error::{ErrorKind, SignerError};
use filecoin_signer::params::{
    deserialize_constructor_params, deserialize_params, serialize_params, AddSignerParams,
    ConstructorParams, ExecParams, MessageParams, MethodInit, MethodMultisig, MethodPaych,
    ProposeParams,
};

fn unhex(text: &str) -> Vec<u8> {
    (0..text.len() / 2)
        .map(|i| u8::from_str_radix(&text[2 * i..2 * i + 2], 16).unwrap())
        .collect()
}

const A: &str = "01fd1d0f4dfcd7e99afcb99a8326b7dc459d32c628";
const A_TEXT: &str = "f17uoq6tp427uzv7fztkbsnn64iwotfrristwpryy";
const B: &str = "011eaf1c8a4bbfeeb0870b1745b1f57503470b7116";
const B_TEXT: &str = "f1d2xrzcslx7xlbbylc5c3d5lvandqw4iwl6epxba";

fn list(head: u8, parts: &[Vec<u8>]) -> Vec<u8> {
    let mut bytes = vec![head];
    for p in parts {
        bytes.extend(p);
    }
    bytes
}

fn address(hex: &str) -> Vec<u8> {
    list(0x55, &[unhex(hex)])
}

fn decode(bytes: &[u8], actor: &str, method: u64) -> Result<MessageParams, SignerError> {
    deserialize_params(base64::encode(bytes), actor.to_string(), method)
}

fn constructor(bytes: &[u8], code: &str) -> Result<MessageParams, SignerError> {
    deserialize_constructor_params(base64::encode(bytes), code.to_string())
}

fn voucher_bytes() -> Vec<u8> {
    let mut bytes = vec![0x8b];
    bytes.extend(address(A));
    bytes.extend([0x00, 0x00, 0x40, 0xf6, 0x00, 0x01, 0x42, 0x00, 0x64, 0x00, 0x80, 0xf6]);
    bytes
}

fn cid_bytes() -> Vec<u8> {
    let mut bytes = unhex("0171a0e40220");
    bytes.extend([0x11u8; 32]);
    bytes
}

fn exec_bytes() -> Vec<u8> {
    let mut link = vec![0xd8, 0x2a, 0x58, 0x27, 0x00];
    link.extend(cid_bytes());
    list(0x82, &[link, vec![0x43, 0x01, 0x02, 0x03]])
}

#[test]
fn method_numbers() {
    assert_eq!(MethodInit::from_u64(1), Some(MethodInit::Constructor));
    assert_eq!(MethodInit::from_u64(2), Some(MethodInit::Exec));
    assert_eq!(MethodInit::from_u64(0), None);
    assert_eq!(MethodInit::from_u64(3), None);
    let multisig = [
        MethodMultisig::Constructor,
        MethodMultisig::Propose,
        MethodMultisig::Approve,
        MethodMultisig::Cancel,
        MethodMultisig::AddSigner,
        MethodMultisig::RemoveSigner,
        MethodMultisig::SwapSigner,
        MethodMultisig::ChangeNumApprovalsThreshold,
        MethodMultisig::LockBalance,
    ];
    for (i, m) in multisig.iter().enumerate() {
        assert_eq!(MethodMultisig::from_u64(i as u64 + 1), Some(*m));
    }
    assert_eq!(MethodMultisig::from_u64(0), None);
    assert_eq!(MethodMultisig::from_u64(10), None);
    assert_eq!(MethodPaych::from_u64(1), Some(MethodPaych::Constructor));
    assert_eq!(MethodPaych::from_u64(2), Some(MethodPaych::UpdateChannelState));
    assert_eq!(MethodPaych::from_u64(3), Some(MethodPaych::Settle));
    assert_eq!(MethodPaych::from_u64(4), Some(MethodPaych::Collect));
    assert_eq!(MethodPaych::from_u64(5), None);
    assert_eq!(MethodPaych::from_u64(u64::MAX), None);
}

#[test]
fn init_exec() {
    match decode(&exec_bytes(), "init", 2).unwrap() {
        MessageParams::ExecParams(p) => {
            assert_eq!(p.code_cid, cid_bytes());
            assert_eq!(p.constructor_params, vec![1, 2, 3]);
        }
        other => panic!("{other:?}"),
    }
}

#[test]
fn multisig_propose() {
    let bytes = list(0x84, &[address(A), vec![0x42, 0x00, 0x64], vec![0x02], vec![0x41, 0xff]]);
    match decode(&bytes, "multisig", 2).unwrap() {
        MessageParams::ProposeParams(p) => {
            assert_eq!(p.to.to_string(), A_TEXT);
            assert_eq!(p.value.to_decimal(), "100");
            assert_eq!(p.method, 2);
            assert_eq!(p.params, vec![0xff]);
        }
        other => panic!("{other:?}"),
    }
}

#[test]
fn multisig_approve_and_cancel_share_a_shape() {
    let mut hash = vec![0x58, 0x20];
    hash.extend([0x22u8; 32]);
    let bytes = list(0x82, &[vec![0x20], hash]);
    for method in [3, 4] {
        match decode(&bytes, "multisig", method).unwrap() {
            MessageParams::TxnIDParams(p) => {
                assert_eq!(p.id, -1);
                assert_eq!(p.proposal_hash, vec![0x22u8; 32]);
            }
            other => panic!("{other:?}"),
        }
    }
}

#[test]
fn multisig_add_and_remove_signer() {
    let bytes = list(0x82, &[address(A), vec![0xf5]]);
    match decode(&bytes, "multisig", 5).unwrap() {
        MessageParams::AddSignerParams(p) => {
            assert_eq!(p.signer.to_string(), A_TEXT);
            assert!(p.increase);
        }
        other => panic!("{other:?}"),
    }
    let bytes = list(0x82, &[address(B), vec![0xf4]]);
    match decode(&bytes, "multisig", 6).unwrap() {
        MessageParams::RemoveSignerParams(p) => {
            assert_eq!(p.signer.to_string(), B_TEXT);
            assert!(!p.decrease);
        }
        other => panic!("{other:?}"),
    }
}

#[test]
fn multisig_swap_signer() {
    let bytes = list(0x82, &[address(A), address(B)]);
    match decode(&bytes, "multisig", 7).unwrap() {
        MessageParams::SwapSignerParams(p) => {
            assert_eq!(p.from.to_string(), A_TEXT);
            assert_eq!(p.to.to_string(), B_TEXT);
        }
        other => panic!("{other:?}"),
    }
}

#[test]
fn multisig_change_threshold_and_lock_balance() {
    match decode(&[0x81, 0x18, 0x2a], "multisig", 8).unwrap() {
        MessageParams::ChangeNumApprovalsThresholdParams(p) => assert_eq!(p.new_threshold, 42),
        other => panic!("{other:?}"),
    }
    match decode(&[0x83, 0x01, 0x21, 0x42, 0x01, 0x05], "multisig", 9).unwrap() {
        MessageParams::LockBalanceParams(p) => {
            assert_eq!(p.start_epoch, 1);
            assert_eq!(p.unlock_duration, -2);
            assert_eq!(p.amount.to_decimal(), "-5");
        }
        other => panic!("{other:?}"),
    }
}

#[test]
fn paych_update_channel_state() {
    let bytes = list(0x82, &[voucher_bytes(), vec![0x42, 0x09, 0x08]]);
    match decode(&bytes, "paymentchannel", 2).unwrap() {
        MessageParams::UpdateChannelStateParams(p) => {
            assert_eq!(p.sv.channel_addr.to_string(), A_TEXT);
            assert_eq!(p.sv.nonce, 1);
            assert_eq!(p.sv.amount.to_decimal(), "100");
            assert!(p.sv.signature.is_none());
            assert_eq!(p.secret, vec![9, 8]);
        }
        other => panic!("{other:?}"),
    }
}

#[test]
fn paych_settle_and_collect_take_no_parameters() {
    for method in [3, 4] {
        // Whatever the bytes are, they are not decoded.
        for bytes in [vec![], vec![0xff, 0xff], exec_bytes()] {
            match decode(&bytes, "paymentchannel", method).unwrap() {
                MessageParams::MessageParamsSerialized(text) => assert_eq!(text, ""),
                other => panic!("{other:?}"),
            }
        }
    }
}

#[test]
fn dispatch_is_closed() {
    let anything = exec_bytes();
    for method in [0u64, 1, 3, 4, 100, u64::MAX] {
        let e = decode(&anything, "init", method).unwrap_err();
        assert!(matches!(e, SignerError::UnknownMethod), "init {method}");
    }
    for method in [0u64, 1, 10, 11, u64::MAX] {
        let e = decode(&anything, "multisig", method).unwrap_err();
        assert_eq!(e.kind(), ErrorKind::UnknownMethod, "multisig {method}");
    }
    for method in [0u64, 1, 5, 6, u64::MAX] {
        let e = decode(&anything, "paymentchannel", method).unwrap_err();
        assert_eq!(e.kind(), ErrorKind::UnknownMethod, "paymentchannel {method}");
    }
    for actor in ["", "Init", "init ", "account", "fil/1/multisig", "paych", "MULTISIG"] {
        for method in 0..12 {
            let e = decode(&anything, actor, method).unwrap_err();
            assert!(matches!(e, SignerError::UnknownActor), "{actor} {method}");
        }
    }
}

#[test]
fn dispatch_never_answers_with_another_shape() {
    // The bytes of one shape under the method of another are refused.
    let swap = list(0x82, &[address(A), address(B)]);
    for (actor, method) in [("init", 2u64), ("multisig", 2), ("multisig", 3), ("multisig", 5),
        ("multisig", 8), ("multisig", 9), ("paymentchannel", 2)] {
        let e = decode(&swap, actor, method).unwrap_err();
        assert_eq!(e.kind(), ErrorKind::Encoding, "{actor} {method}");
    }
    for method in 2..=9 {
        let e = decode(&[], "multisig", method).unwrap_err();
        assert_eq!(e.kind(), ErrorKind::Encoding);
    }
}

#[test]
fn text_that_is_not_base64_is_refused_first() {
    for (actor, method) in [("init", 2u64), ("multisig", 2), ("paymentchannel", 3), ("nobody", 0)] {
        let e = deserialize_params("%%%".to_string(), actor.to_string(), method).unwrap_err();
        assert!(matches!(e, SignerError::Base64(_)), "{actor}");
    }
    let e = deserialize_constructor_params("%%%".to_string(), "nobody".to_string()).unwrap_err();
    assert_eq!(e.kind(), ErrorKind::Base64);
}

#[test]
fn constructor_of_a_multisig() {
    let signers = list(0x82, &[address(A), address(B)]);
    let bytes = list(0x84, &[signers, vec![0x02], vec![0x18, 0x64], vec![0x0a]]);
    match constructor(&bytes, "multisig").unwrap() {
        MessageParams::MultisigConstructorParams(p) => {
            assert_eq!(p.signers.len(), 2);
            assert_eq!(p.signers[0].to_string(), A_TEXT);
            assert_eq!(p.signers[1].to_string(), B_TEXT);
            assert_eq!(p.num_approvals_threshold, 2);
            assert_eq!(p.unlock_duration, 100);
            assert_eq!(p.start_epoch, 10);
        }
        other => panic!("{other:?}"),
    }
}

#[test]
fn constructor_of_a_payment_channel() {
    let bytes = list(0x82, &[address(A), address(B)]);
    match constructor(&bytes, "paymentchannel").unwrap() {
        MessageParams::PaychConstructorParams(p) => {
            assert_eq!(p.from.to_string(), A_TEXT);
            assert_eq!(p.to.to_string(), B_TEXT);
        }
        other => panic!("{other:?}"),
    }
}

#[test]
fn legacy_constructor_is_migrated() {
    let signers = list(0x82, &[address(A), address(B)]);
    let legacy = list(0x83, &[signers, vec![0x02], vec![0x18, 0x64]]);
    match constructor(&legacy, "fil/1/multisig").unwrap() {
        MessageParams::MultisigConstructorParams(p) => {
            assert_eq!(p.signers.len(), 2);
            assert_eq!(p.signers[0].to_string(), A_TEXT);
            assert_eq!(p.signers[1].to_string(), B_TEXT);
            assert_eq!(p.num_approvals_threshold, 2);
            assert_eq!(p.unlock_duration, 100);
            assert_eq!(p.start_epoch, 0);
        }
        other => panic!("{other:?}"),
    }
    // The two shapes are not taken for each other.
    assert_eq!(constructor(&legacy, "multisig").unwrap_err().kind(), ErrorKind::Encoding);
    let signers = list(0x80, &[]);
    let current = list(0x84, &[signers, vec![0x00], vec![0x00], vec![0x05]]);
    assert_eq!(constructor(&current, "fil/1/multisig").unwrap_err().kind(), ErrorKind::Encoding);
}

#[test]
fn constructor_code_tags_are_closed() {
    let bytes = list(0x82, &[address(A), address(B)]);
    for code in ["", "init", "Multisig", "fil/1/paymentchannel", "fil/2/multisig", "multisig "] {
        let e = constructor(&bytes, code).unwrap_err();
        assert!(matches!(e, SignerError::UnknownCode), "{code}");
    }
}

#[test]
fn serialize_params_gives_back_the_bytes() {
    let swap = list(0x82, &[address(A), address(B)]);
    let mut hash = vec![0x58, 0x20];
    hash.extend([0x22u8; 32]);
    let cases: Vec<(Vec<u8>, &str, u64)> = vec![
        (exec_bytes(), "init", 2),
        (list(0x84, &[address(A), vec![0x42, 0x00, 0x64], vec![0x02], vec![0x41, 0xff]]), "multisig", 2),
        (list(0x82, &[vec![0x20], hash]), "multisig", 3),
        (list(0x82, &[address(A), vec![0xf5]]), "multisig", 5),
        (list(0x82, &[address(B), vec![0xf4]]), "multisig", 6),
        (swap.clone(), "multisig", 7),
        (vec![0x81, 0x18, 0x2a], "multisig", 8),
        (vec![0x83, 0x01, 0x21, 0x42, 0x01, 0x05], "multisig", 9),
        (list(0x82, &[voucher_bytes(), vec![0x42, 0x09, 0x08]]), "paymentchannel", 2),
    ];
    for (bytes, actor, method) in cases {
        let params = decode(&bytes, actor, method).unwrap();
        assert_eq!(serialize_params(params).unwrap(), bytes, "{actor} {method}");
    }
    let signers = list(0x82, &[address(A), address(B)]);
    let bytes = list(0x84, &[signers, vec![0x02], vec![0x18, 0x64], vec![0x0a]]);
    assert_eq!(serialize_params(constructor(&bytes, "multisig").unwrap()).unwrap(), bytes);
    assert_eq!(serialize_params(constructor(&swap, "paymentchannel").unwrap()).unwrap(), swap);
}

#[test]
fn serialize_params_of_values_written_by_hand() {
    let add = MessageParams::AddSignerParams(AddSignerParams {
        signer: Address::from_string(A_TEXT).unwrap(),
        increase: true,
    });
    assert_eq!(serialize_params(add).unwrap(), list(0x82, &[address(A), vec![0xf5]]));
    let propose = MessageParams::ProposeParams(ProposeParams {
        to: Address::from_string(B_TEXT).unwrap(),
        value: TokenAmount::zero(),
        method: 0,
        params: vec![],
    });
    assert_eq!(
        serialize_params(propose).unwrap(),
        list(0x84, &[address(B), vec![0x40], vec![0x00], vec![0x40]])
    );
    let empty = MessageParams::MultisigConstructorParams(ConstructorParams {
        signers: vec![],
        num_approvals_threshold: 0,
        unlock_duration: 0,
        start_epoch: 0,
    });
    assert_eq!(serialize_params(empty).unwrap(), vec![0x84, 0x80, 0x00, 0x00, 0x00]);
}

#[test]
fn serialize_params_left_as_text() {
    let text = MessageParams::MessageParamsSerialized(base64::encode([1u8, 2, 3]));
    assert_eq!(serialize_params(text).unwrap(), vec![1, 2, 3]);
    let empty = MessageParams::MessageParamsSerialized(String::new());
    assert_eq!(serialize_params(empty).unwrap(), Vec::<u8>::new());
    let bad = MessageParams::MessageParamsSerialized("%%%".to_string());
    assert!(matches!(serialize_params(bad), Err(SignerError::Base64(_))));
}

#[test]
fn serialize_params_refuses_what_is_no_content_identifier() {
    let bad = MessageParams::ExecParams(ExecParams {
        code_cid: vec![0xff, 0xff],
        constructor_params: vec![],
    });
    assert!(matches!(serialize_params(bad), Err(SignerError::Cid(_))));
}
