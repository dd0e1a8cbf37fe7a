//! End-to-end behaviour of the three traversals, exercised against the
//! real ABI codec.

use alloy_sol_types::{sol_data, SolType};
use ucs03_zkgm::decode::{decode_instruction, decode_packet};
use ucs03_zkgm::execute::{execute_tree, required_tokens, Prediction};
use ucs03_zkgm::ledger::Ledger;
use ucs03_zkgm::settle::{acknowledge_tree, timeout_tree};
use ucs03_zkgm::types::{
    ack_err_only_maker, Effect, FungibleAssetOrder, Instruction, Multiplex, TraversalCtx, Tree,
    ZkgmError, FILL_TYPE_MARKETMAKER, FILL_TYPE_PROTOCOL, OP_BATCH, OP_FUNGIBLE_ASSET_ORDER,
    OP_MULTIPLEX, OP_TAG,
};
use ucs03_zkgm::u256::U256;

type SolOrder = (
    sol_data::Bytes,
    sol_data::Bytes,
    sol_data::Bytes,
    sol_data::Uint<256>,
    sol_data::String,
    sol_data::String,
    sol_data::Uint<8>,
    sol_data::Uint<256>,
    sol_data::Bytes,
    sol_data::Uint<256>,
);
type SolInstr = (sol_data::Uint<8>, sol_data::Uint<8>, sol_data::Bytes);
type SolAck = (sol_data::Uint<256>, sol_data::Bytes);

fn u(x: u128) -> U256 {
    U256::from_u128(x)
}

fn au(x: u128) -> alloy_primitives::U256 {
    alloy_primitives::U256::from(x)
}

fn ctx() -> TraversalCtx {
    TraversalCtx {
        source_channel_id: 1,
        destination_channel_id: 7,
        relayer: "relayer".to_string(),
    }
}

fn salt32(b: u8) -> Vec<u8> {
    vec![b; 32]
}

/// A basic order moving 1000 units, quoting 950, to be minted as
/// "wrapped/muno" on the destination.
fn mint_order(base_amount: u128, quote_amount: u128) -> FungibleAssetOrder {
    FungibleAssetOrder {
        sender: b"alice".to_vec(),
        receiver: b"bob".to_vec(),
        base_token: b"muno".to_vec(),
        base_amount: u(base_amount),
        base_token_symbol: "MUNO".to_string(),
        base_token_name: "muno token".to_string(),
        base_token_decimals: 6,
        base_token_path: U256::zero(),
        quote_token: b"wrapped/muno".to_vec(),
        quote_amount: u(quote_amount),
    }
}

fn mint_prediction() -> Vec<Prediction> {
    vec![Prediction {
        path: U256::zero(),
        channel_id: 7,
        token: b"muno".to_vec(),
        denom: "wrapped/muno".to_string(),
    }]
}

fn protocol_ack_bytes() -> Vec<u8> {
    <SolAck as SolType>::abi_encode_params(&(au(FILL_TYPE_PROTOCOL as u128), Vec::<u8>::new()))
}

fn plain_word() -> Vec<u8> {
    let mut w = vec![0u8; 32];
    w[31] = 1;
    w
}

#[test]
fn exec_mint_branch_with_fee() {
    let ledger = Ledger::new();
    let t = Tree::Order(mint_order(1000, 950));
    let (ack, effs, led1) = execute_tree(
        &t,
        &salt32(9),
        &U256::zero(),
        &ctx(),
        &mint_prediction(),
        &ledger,
    )
    .unwrap();
    assert_eq!(ack, protocol_ack_bytes());
    assert_eq!(effs.len(), 3);
    assert!(matches!(&effs[0], Effect::CreateDenom { denom, decimals, .. }
        if denom == "wrapped/muno" && *decimals == 6));
    assert_eq!(
        effs[1],
        Effect::Mint {
            denom: "wrapped/muno".to_string(),
            amount: 950,
            to: "bob".to_string()
        }
    );
    assert_eq!(
        effs[2],
        Effect::Mint {
            denom: "wrapped/muno".to_string(),
            amount: 50,
            to: "relayer".to_string()
        }
    );
    assert_eq!(led1.origins.len(), 1);
    assert_eq!(led1.foreign_tokens.len(), 1);
    assert_eq!(led1.origins[0].origin, U256::from_u32(7));
}

#[test]
fn exec_mint_registration_is_idempotent() {
    let ledger = Ledger::new();
    let t = Tree::Order(mint_order(1000, 950));
    let (_, _, led1) = execute_tree(
        &t,
        &salt32(9),
        &U256::zero(),
        &ctx(),
        &mint_prediction(),
        &ledger,
    )
    .unwrap();
    let (_, effs2, led2) = execute_tree(
        &t,
        &salt32(9),
        &U256::zero(),
        &ctx(),
        &mint_prediction(),
        &led1,
    )
    .unwrap();
    assert!(effs2
        .iter()
        .all(|e| !matches!(e, Effect::CreateDenom { .. })));
    assert_eq!(led2.origins, led1.origins);
    assert_eq!(led2.foreign_tokens, led1.foreign_tokens);
}

#[test]
fn exec_maker_only_sentinel_and_no_mutation() {
    let ledger = Ledger::new();
    let t = Tree::Order(mint_order(950, 1000));
    let (ack, effs, led1) = execute_tree(
        &t,
        &salt32(9),
        &U256::zero(),
        &ctx(),
        &mint_prediction(),
        &ledger,
    )
    .unwrap();
    assert_eq!(ack, vec![0xDE, 0xAD, 0xC0, 0xDE]);
    assert_eq!(ack, ack_err_only_maker());
    assert!(effs.is_empty());
    assert_eq!(led1, Ledger::new());
}

#[test]
fn exec_equal_amounts_no_fee_effect() {
    let ledger = Ledger::new();
    let t = Tree::Order(mint_order(1000, 1000));
    let (_, effs, _) = execute_tree(
        &t,
        &salt32(9),
        &U256::zero(),
        &ctx(),
        &mint_prediction(),
        &ledger,
    )
    .unwrap();
    assert_eq!(effs.len(), 2);
    assert!(matches!(&effs[0], Effect::CreateDenom { .. }));
    assert_eq!(
        effs[1],
        Effect::Mint {
            denom: "wrapped/muno".to_string(),
            amount: 1000,
            to: "bob".to_string()
        }
    );
}

fn unescrow_order(base_amount: u128, quote_amount: u128) -> FungibleAssetOrder {
    FungibleAssetOrder {
        sender: b"alice".to_vec(),
        receiver: b"bob".to_vec(),
        base_token: b"wrapped/other".to_vec(),
        base_amount: u(base_amount),
        base_token_symbol: "OTH".to_string(),
        base_token_name: "other".to_string(),
        base_token_decimals: 6,
        base_token_path: U256::from_u32(1),
        quote_token: b"muno".to_vec(),
        quote_amount: u(quote_amount),
    }
}

fn unescrow_prediction() -> Vec<Prediction> {
    vec![Prediction {
        path: U256::zero(),
        channel_id: 7,
        token: b"wrapped/other".to_vec(),
        denom: "does-not-match".to_string(),
    }]
}

#[test]
fn exec_unescrow_branch_decrements_balance() {
    let mut ledger = Ledger::new();
    ledger.store_balance(7, &"muno".to_string(), u(1000));
    let t = Tree::Order(unescrow_order(1000, 950));
    let (ack, effs, led1) = execute_tree(
        &t,
        &salt32(9),
        &U256::zero(),
        &ctx(),
        &unescrow_prediction(),
        &ledger,
    )
    .unwrap();
    assert_eq!(ack, protocol_ack_bytes());
    assert_eq!(effs.len(), 2);
    assert_eq!(
        effs[0],
        Effect::Unescrow {
            denom: "muno".to_string(),
            to: "bob".to_string(),
            amount: 950
        }
    );
    assert_eq!(
        effs[1],
        Effect::Unescrow {
            denom: "muno".to_string(),
            to: "relayer".to_string(),
            amount: 50
        }
    );
    assert_eq!(led1.balance_of(7, &"muno".to_string()), Some(u(50)));
}

#[test]
fn exec_unescrow_insufficient_balance_is_fatal() {
    let mut ledger = Ledger::new();
    ledger.store_balance(7, &"muno".to_string(), u(100));
    let t = Tree::Order(unescrow_order(1000, 950));
    let r = execute_tree(
        &t,
        &salt32(9),
        &U256::zero(),
        &ctx(),
        &unescrow_prediction(),
        &ledger,
    );
    assert_eq!(r.unwrap_err(), ZkgmError::InvalidChannelBalance);
}

#[test]
fn exec_unrecognized_order_is_maker_only() {
    let ledger = Ledger::new();
    let mut o = unescrow_order(1000, 950);
    o.base_token_path = U256::from_u32(3);
    let t = Tree::Order(o);
    let (ack, effs, _) = execute_tree(
        &t,
        &salt32(9),
        &U256::zero(),
        &ctx(),
        &unescrow_prediction(),
        &ledger,
    )
    .unwrap();
    assert_eq!(ack, ack_err_only_maker());
    assert!(effs.is_empty());
}

#[test]
fn exec_missing_prediction_is_fatal() {
    let ledger = Ledger::new();
    let t = Tree::Order(mint_order(1000, 950));
    let r = execute_tree(&t, &salt32(9), &U256::zero(), &ctx(), &vec![], &ledger);
    assert_eq!(r.unwrap_err(), ZkgmError::MissingWrappedDenom);
}

#[test]
fn exec_amount_overflow_is_fatal() {
    let ledger = Ledger::new();
    let mut o = mint_order(0, 0);
    o.base_amount = U256 {
        w0: 0,
        w1: 0,
        w2: 1,
        w3: 0,
    };
    o.quote_amount = o.base_amount;
    let t = Tree::Order(o);
    let r = execute_tree(
        &t,
        &salt32(9),
        &U256::zero(),
        &ctx(),
        &mint_prediction(),
        &ledger,
    );
    assert_eq!(r.unwrap_err(), ZkgmError::AmountOverflow);
}

#[test]
fn exec_invalid_receiver_is_fatal() {
    let ledger = Ledger::new();
    let mut o = mint_order(1000, 950);
    o.receiver = vec![0xFF, 0xFE];
    let t = Tree::Order(o);
    let r = execute_tree(
        &t,
        &salt32(9),
        &U256::zero(),
        &ctx(),
        &mint_prediction(),
        &ledger,
    );
    assert_eq!(r.unwrap_err(), ZkgmError::InvalidReceiver);
}

#[test]
fn exec_multiplex_eureka_calls_contract() {
    let ledger = Ledger::new();
    let t = Tree::Multiplex(Multiplex {
        sender: b"alice".to_vec(),
        contract_address: b"target".to_vec(),
        contract_calldata: vec![1, 2, 3],
        eureka: true,
    });
    let (ack, effs, _) =
        execute_tree(&t, &salt32(9), &U256::zero(), &ctx(), &vec![], &ledger).unwrap();
    assert_eq!(ack, plain_word());
    assert_eq!(
        effs,
        vec![Effect::CallContract {
            address: "target".to_string(),
            channel_id: 7,
            sender: b"alice".to_vec(),
            calldata: vec![1, 2, 3],
        }]
    );
}

#[test]
fn exec_multiplex_non_eureka_unimplemented() {
    let ledger = Ledger::new();
    let t = Tree::Multiplex(Multiplex {
        sender: b"alice".to_vec(),
        contract_address: b"target".to_vec(),
        contract_calldata: vec![],
        eureka: false,
    });
    let r = execute_tree(&t, &salt32(9), &U256::zero(), &ctx(), &vec![], &ledger);
    assert_eq!(r.unwrap_err(), ZkgmError::Unimplemented);
}

#[test]
fn exec_tag_is_noop() {
    let ledger = Ledger::new();
    let (ack, effs, led1) =
        execute_tree(&Tree::Tag, &salt32(9), &U256::zero(), &ctx(), &vec![], &ledger).unwrap();
    assert_eq!(ack, plain_word());
    assert!(effs.is_empty());
    assert_eq!(led1, Ledger::new());
}

#[test]
fn exec_batch_ack_has_one_entry_per_instruction() {
    let ledger = Ledger::new();
    let t = Tree::Batch(vec![Tree::Tag, Tree::Tag]);
    let (ack, effs, _) =
        execute_tree(&t, &salt32(9), &U256::zero(), &ctx(), &vec![], &ledger).unwrap();
    let expected = <(sol_data::Array<sol_data::Bytes>,) as SolType>::abi_encode_params(&(vec![
        plain_word(),
        plain_word(),
    ],));
    assert_eq!(ack, expected);
    assert!(effs.is_empty());
    let decoded =
        <(sol_data::Array<sol_data::Bytes>,) as SolType>::abi_decode_params_validate(&ack)
            .unwrap();
    assert_eq!(decoded.0.len(), 2);
}

#[test]
fn decode_unknown_opcode_aborts() {
    let instr = Instruction {
        version: 0,
        opcode: 0xFF,
        operand: vec![],
    };
    match decode_instruction(&instr) {
        Err(e) => assert_eq!(e, ZkgmError::UnknownOpcode { opcode: 0xFF }),
        Ok(_) => panic!("expected a decode error"),
    }
}

#[test]
fn decode_excessive_version_aborts() {
    let instr = Instruction {
        version: 1,
        opcode: OP_TAG,
        operand: vec![],
    };
    match decode_instruction(&instr) {
        Err(e) => assert_eq!(e, ZkgmError::UnsupportedVersion { version: 1 }),
        Ok(_) => panic!("expected a version error"),
    }
    let instr = Instruction {
        version: 2,
        opcode: OP_FUNGIBLE_ASSET_ORDER,
        operand: vec![],
    };
    match decode_instruction(&instr) {
        Err(e) => assert_eq!(e, ZkgmError::UnsupportedVersion { version: 2 }),
        Ok(_) => panic!("expected a version error"),
    }
}

fn order_operand(o: &FungibleAssetOrder) -> Vec<u8> {
    let path_limbs = [
        o.base_token_path.w0,
        o.base_token_path.w1,
        o.base_token_path.w2,
        o.base_token_path.w3,
    ];
    <SolOrder as SolType>::abi_encode_params(&(
        o.sender.clone(),
        o.receiver.clone(),
        o.base_token.clone(),
        alloy_primitives::U256::from_limbs([
            o.base_amount.w0,
            o.base_amount.w1,
            o.base_amount.w2,
            o.base_amount.w3,
        ]),
        o.base_token_symbol.clone(),
        o.base_token_name.clone(),
        o.base_token_decimals,
        alloy_primitives::U256::from_limbs(path_limbs),
        o.quote_token.clone(),
        alloy_primitives::U256::from_limbs([
            o.quote_amount.w0,
            o.quote_amount.w1,
            o.quote_amount.w2,
            o.quote_amount.w3,
        ]),
    ))
}

#[test]
fn decode_order_reads_the_wire_fields() {
    let o = mint_order(1000, 950);
    let instr = Instruction {
        version: 1,
        opcode: OP_FUNGIBLE_ASSET_ORDER,
        operand: order_operand(&o),
    };
    match decode_instruction(&instr).unwrap() {
        Tree::Order(d) => {
            assert_eq!(d, o);
        }
        _ => panic!("expected an order"),
    }
}

#[test]
fn decode_malformed_operand_aborts() {
    let instr = Instruction {
        version: 1,
        opcode: OP_FUNGIBLE_ASSET_ORDER,
        operand: vec![1, 2, 3],
    };
    match decode_instruction(&instr) {
        Err(e) => assert_eq!(e, ZkgmError::OperandDecode),
        Ok(_) => panic!("expected a decode error"),
    }
}

#[test]
fn decode_batch_recurses() {
    let o = mint_order(1000, 950);
    let batch_operand =
        <(sol_data::Array<SolInstr>,) as SolType>::abi_encode_params(&(vec![
            (0u8, OP_TAG, Vec::<u8>::new()),
            (1u8, OP_FUNGIBLE_ASSET_ORDER, order_operand(&o)),
        ],));
    let instr = Instruction {
        version: 0,
        opcode: OP_BATCH,
        operand: batch_operand,
    };
    match decode_instruction(&instr).unwrap() {
        Tree::Batch(subs) => {
            assert_eq!(subs.len(), 2);
            assert!(matches!(subs[0], Tree::Tag));
            assert!(matches!(&subs[1], Tree::Order(d) if *d == o));
        }
        _ => panic!("expected a batch"),
    }
}

#[test]
fn decode_multiplex_reads_the_wire_fields() {
    let operand =
        <(sol_data::Bytes, sol_data::Bytes, sol_data::Bytes, sol_data::Bool) as SolType>::abi_encode_params(
            &(b"alice".to_vec(), b"target".to_vec(), vec![9u8], true),
        );
    let instr = Instruction {
        version: 0,
        opcode: OP_MULTIPLEX,
        operand,
    };
    match decode_instruction(&instr).unwrap() {
        Tree::Multiplex(m) => {
            assert_eq!(m.sender, b"alice".to_vec());
            assert_eq!(m.contract_address, b"target".to_vec());
            assert_eq!(m.contract_calldata, vec![9u8]);
            assert!(m.eureka);
        }
        _ => panic!("expected a multiplex"),
    }
}

#[test]
fn decode_packet_reads_salt_path_instruction() {
    type SolPacket = (
        sol_data::FixedBytes<32>,
        sol_data::Uint<256>,
        (sol_data::Uint<8>, sol_data::Uint<8>, sol_data::Bytes),
    );
    let data = <SolPacket as SolType>::abi_encode_params(&(
        alloy_primitives::B256::from([3u8; 32]),
        au(5),
        (0u8, OP_TAG, Vec::<u8>::new()),
    ));
    let p = decode_packet(&data).unwrap();
    assert_eq!(p.salt, vec![3u8; 32]);
    assert_eq!(p.path, u(5));
    assert_eq!(p.instruction.opcode, OP_TAG);
    assert_eq!(p.instruction.version, 0);
    assert!(p.instruction.operand.is_empty());
    assert_eq!(
        decode_packet(&[1, 2, 3]).unwrap_err(),
        ZkgmError::OperandDecode
    );
}

#[test]
fn ack_protocol_fill_has_no_effects() {
    let t = Tree::Order(mint_order(1000, 950));
    let effs = acknowledge_tree(&t, &salt32(9), true, &protocol_ack_bytes(), &ctx()).unwrap();
    assert!(effs.is_empty());
}

#[test]
fn ack_marketmaker_fill_pays_the_maker() {
    let t = Tree::Order(mint_order(1000, 950));
    let ack =
        <SolAck as SolType>::abi_encode_params(&(au(FILL_TYPE_MARKETMAKER as u128), b"maker".to_vec()));
    let effs = acknowledge_tree(&t, &salt32(9), true, &ack, &ctx()).unwrap();
    assert_eq!(
        effs,
        vec![Effect::Unescrow {
            denom: "muno".to_string(),
            to: "maker".to_string(),
            amount: 1000,
        }]
    );
}

#[test]
fn ack_unknown_fill_type_is_fatal() {
    let t = Tree::Order(mint_order(1000, 950));
    let ack = <SolAck as SolType>::abi_encode_params(&(au(12345), Vec::<u8>::new()));
    let r = acknowledge_tree(&t, &salt32(9), true, &ack, &ctx());
    assert_eq!(r.unwrap_err(), ZkgmError::UnknownFillType);
}

#[test]
fn ack_undecodable_is_fatal() {
    let t = Tree::Order(mint_order(1000, 950));
    let r = acknowledge_tree(&t, &salt32(9), true, &vec![0, 1], &ctx());
    assert_eq!(r.unwrap_err(), ZkgmError::AckDecode);
}

#[test]
fn ack_failure_refunds_like_timeout() {
    let t = Tree::Order(mint_order(1000, 950));
    let refund = acknowledge_tree(&t, &salt32(9), false, &vec![], &ctx()).unwrap();
    let timed_out = timeout_tree(&t, &salt32(9), &ctx()).unwrap();
    assert_eq!(refund, timed_out);
    assert_eq!(
        refund,
        vec![Effect::Unescrow {
            denom: "muno".to_string(),
            to: "alice".to_string(),
            amount: 1000,
        }]
    );
}

#[test]
fn ack_failure_refunds_a_whole_batch_like_timeout() {
    let t = Tree::Batch(vec![
        Tree::Order(mint_order(1000, 950)),
        Tree::Tag,
        Tree::Order(unescrow_order(7, 7)),
    ]);
    let refund = acknowledge_tree(&t, &salt32(9), false, &vec![], &ctx()).unwrap();
    let timed_out = timeout_tree(&t, &salt32(9), &ctx()).unwrap();
    assert_eq!(refund, timed_out);
    assert_eq!(refund.len(), 2);
}

#[test]
fn timeout_mints_back_burnt_tokens() {
    let mut o = mint_order(1000, 950);
    o.base_token_path = U256::from_u32(1);
    let t = Tree::Order(o);
    let effs = timeout_tree(&t, &salt32(9), &ctx()).unwrap();
    assert_eq!(
        effs,
        vec![Effect::Mint {
            denom: "muno".to_string(),
            amount: 1000,
            to: "alice".to_string(),
        }]
    );
}

#[test]
fn batch_ack_too_short_is_fatal() {
    let t = Tree::Batch(vec![Tree::Tag, Tree::Tag]);
    let ack = <(sol_data::Array<sol_data::Bytes>,) as SolType>::abi_encode_params(&(vec![
        plain_word(),
    ],));
    let r = acknowledge_tree(&t, &salt32(9), true, &ack, &ctx());
    assert_eq!(r.unwrap_err(), ZkgmError::BatchAckLength);
}

#[test]
fn batch_ack_is_sliced_per_instruction() {
    let t = Tree::Batch(vec![Tree::Order(mint_order(1000, 950)), Tree::Tag]);
    let ack = <(sol_data::Array<sol_data::Bytes>,) as SolType>::abi_encode_params(&(vec![
        protocol_ack_bytes(),
        plain_word(),
    ],));
    let effs = acknowledge_tree(&t, &salt32(9), true, &ack, &ctx()).unwrap();
    assert!(effs.is_empty());
}

#[test]
fn required_tokens_collects_orders_in_traversal_order() {
    let t = Tree::Batch(vec![
        Tree::Order(mint_order(1, 1)),
        Tree::Tag,
        Tree::Batch(vec![Tree::Order(unescrow_order(2, 2))]),
    ]);
    let toks = required_tokens(&t);
    assert_eq!(toks, vec![b"muno".to_vec(), b"wrapped/other".to_vec()]);
}

#[test]
fn refund_invalid_sender_is_fatal() {
    let mut o = mint_order(1000, 950);
    o.sender = vec![0xFF];
    let r = timeout_tree(&Tree::Order(o), &salt32(9), &ctx());
    assert_eq!(r.unwrap_err(), ZkgmError::InvalidSender);
}

#[test]
fn refund_invalid_base_token_is_fatal() {
    let mut o = mint_order(1000, 950);
    o.base_token = vec![0xFF];
    let r = timeout_tree(&Tree::Order(o), &salt32(9), &ctx());
    assert_eq!(r.unwrap_err(), ZkgmError::InvalidBaseToken);
}

#[test]
fn exec_invalid_quote_token_is_fatal() {
    let ledger = Ledger::new();
    let mut o = unescrow_order(1000, 950);
    o.quote_token = vec![0xFF];
    let r = execute_tree(
        &Tree::Order(o),
        &salt32(9),
        &U256::zero(),
        &ctx(),
        &unescrow_prediction(),
        &ledger,
    );
    assert_eq!(r.unwrap_err(), ZkgmError::InvalidQuoteToken);
}

#[test]
fn exec_invalid_multiplex_target_is_fatal() {
    let ledger = Ledger::new();
    let t = Tree::Multiplex(Multiplex {
        sender: b"alice".to_vec(),
        contract_address: vec![0xFF],
        contract_calldata: vec![],
        eureka: true,
    });
    let r = execute_tree(&t, &salt32(9), &U256::zero(), &ctx(), &vec![], &ledger);
    assert_eq!(r.unwrap_err(), ZkgmError::InvalidContractAddress);
}
