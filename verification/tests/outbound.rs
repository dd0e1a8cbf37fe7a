//! The outbound transfer path, the execution finalizer, the salt deriver,
//! the 256-bit arithmetic and the ledger.

use alloy_sol_types::{sol_data, SolType};
use ucs03_zkgm::codec::child_salt;
use ucs03_zkgm::ibc_channel::{Order as ChannelOrder, ResponseResultType, State as ChannelState};
use ucs03_zkgm::execute::execute_tree;
use ucs03_zkgm::ledger::Ledger;
use ucs03_zkgm::protocol::{enforce_version, finalize_execution, minter_salt, ExecutionOutcome};
use ucs03_zkgm::settle::{acknowledge_tree, timeout_tree};
use ucs03_zkgm::transfer::{transfer, TokenMetadata};
use ucs03_zkgm::types::{
    ack_err_only_maker, Ack, Effect, FungibleAssetOrder, TraversalCtx, Tree, ZkgmError,
    TAG_ACK_FAILURE, TAG_ACK_SUCCESS,
};
use ucs03_zkgm::u256::U256;

fn u(x: u128) -> U256 {
    U256::from_u128(x)
}

fn metadata() -> TokenMetadata {
    TokenMetadata {
        name: "muno token".to_string(),
        symbol: "MUNO".to_string(),
        decimals: 6,
    }
}

#[test]
fn transfer_zero_amount_is_rejected() {
    let r = transfer(
        &"alice".to_string(),
        1,
        &b"bob".to_vec(),
        &"muno".to_string(),
        0,
        &b"wrapped/muno".to_vec(),
        &u(0),
        100,
        200,
        &vec![0u8; 32],
        &metadata(),
        &Ledger::new(),
    );
    assert_eq!(r.unwrap_err(), ZkgmError::InvalidAmount);
}

#[test]
fn transfer_escrows_and_sends_the_packet() {
    let (effs, led1) = transfer(
        &"alice".to_string(),
        1,
        &b"bob".to_vec(),
        &"muno".to_string(),
        1000,
        &b"wrapped/muno".to_vec(),
        &u(950),
        100,
        200,
        &vec![7u8; 32],
        &metadata(),
        &Ledger::new(),
    )
    .unwrap();
    assert_eq!(effs.len(), 2);
    assert_eq!(
        effs[0],
        Effect::Escrow {
            from: "alice".to_string(),
            denom: "muno".to_string(),
            amount: 1000,
        }
    );
    let expected_order = <(
        sol_data::Bytes,
        sol_data::Bytes,
        sol_data::Bytes,
        sol_data::Uint<256>,
        sol_data::String,
        sol_data::String,
        sol_data::Uint<8>,
        sol_data::Uint<256>,
        sol_data::Bytes,
        sol_data::Uint<256>,
    ) as SolType>::abi_encode_params(&(
        b"alice".to_vec(),
        b"bob".to_vec(),
        b"muno".to_vec(),
        alloy_primitives::U256::from(1000u64),
        "MUNO".to_string(),
        "muno token".to_string(),
        6u8,
        alloy_primitives::U256::ZERO,
        b"wrapped/muno".to_vec(),
        alloy_primitives::U256::from(950u64),
    ));
    let expected_data = <(
        sol_data::FixedBytes<32>,
        sol_data::Uint<256>,
        (sol_data::Uint<8>, sol_data::Uint<8>, sol_data::Bytes),
    ) as SolType>::abi_encode_params(&(
        alloy_primitives::B256::from([7u8; 32]),
        alloy_primitives::U256::ZERO,
        (1u8, 3u8, expected_order),
    ));
    assert_eq!(
        effs[1],
        Effect::SendPacket {
            channel_id: 1,
            timeout_height: 100,
            timeout_timestamp: 200,
            data: expected_data,
        }
    );
    assert_eq!(led1.balance_of(1, &"muno".to_string()), Some(u(1000)));
}

#[test]
fn transfer_accumulates_the_channel_balance() {
    let (_, led1) = transfer(
        &"alice".to_string(),
        1,
        &b"bob".to_vec(),
        &"muno".to_string(),
        1000,
        &b"wrapped/muno".to_vec(),
        &u(950),
        100,
        200,
        &vec![7u8; 32],
        &metadata(),
        &Ledger::new(),
    )
    .unwrap();
    let (_, led2) = transfer(
        &"alice".to_string(),
        1,
        &b"bob".to_vec(),
        &"muno".to_string(),
        500,
        &b"wrapped/muno".to_vec(),
        &u(500),
        100,
        200,
        &vec![7u8; 32],
        &metadata(),
        &led1,
    )
    .unwrap();
    assert_eq!(led2.balance_of(1, &"muno".to_string()), Some(u(1500)));
}

#[test]
fn transfer_burns_a_registered_wrapped_token() {
    // Register "wrapped/muno" by executing an inbound mint first; its
    // origin channel is the destination channel of that execution.
    let order = FungibleAssetOrder {
        sender: b"carol".to_vec(),
        receiver: b"bob".to_vec(),
        base_token: b"muno".to_vec(),
        base_amount: u(1),
        base_token_symbol: "MUNO".to_string(),
        base_token_name: "muno token".to_string(),
        base_token_decimals: 6,
        base_token_path: U256::zero(),
        quote_token: b"wrapped/muno".to_vec(),
        quote_amount: u(1),
    };
    let ctx = TraversalCtx {
        source_channel_id: 1,
        destination_channel_id: 7,
        relayer: "relayer".to_string(),
    };
    let preds = vec![ucs03_zkgm::execute::Prediction {
        path: U256::zero(),
        channel_id: 7,
        token: b"muno".to_vec(),
        denom: "wrapped/muno".to_string(),
    }];
    let (_, _, led) = execute_tree(
        &Tree::Order(order),
        &vec![0u8; 32],
        &U256::zero(),
        &ctx,
        &preds,
        &Ledger::new(),
    )
    .unwrap();
    // Sending the wrapped token back over its origin channel burns it.
    let (effs, led1) = transfer(
        &"bob".to_string(),
        7,
        &b"carol".to_vec(),
        &"wrapped/muno".to_string(),
        1,
        &b"muno".to_vec(),
        &u(1),
        100,
        200,
        &vec![7u8; 32],
        &metadata(),
        &led,
    )
    .unwrap();
    assert_eq!(
        effs[0],
        Effect::Burn {
            denom: "wrapped/muno".to_string(),
            amount: 1,
            sender: "bob".to_string(),
        }
    );
    assert_eq!(led1.balance_of(7, &"wrapped/muno".to_string()), None);
}

#[test]
fn finalize_failure_writes_a_failure_envelope() {
    let r = finalize_execution(false, None).unwrap();
    let expected = <(sol_data::Uint<256>, sol_data::Bytes) as SolType>::abi_encode_params(&(
        alloy_primitives::U256::from(TAG_ACK_FAILURE),
        Vec::<u8>::new(),
    ));
    assert_eq!(r, ExecutionOutcome::WriteAck(expected));
}

#[test]
fn finalize_success_wraps_the_acknowledgement() {
    let inner = vec![1u8, 2, 3];
    let r = finalize_execution(true, Some(inner.clone())).unwrap();
    let expected = <(sol_data::Uint<256>, sol_data::Bytes) as SolType>::abi_encode_params(&(
        alloy_primitives::U256::from(TAG_ACK_SUCCESS),
        inner,
    ));
    assert_eq!(r, ExecutionOutcome::WriteAck(expected));
}

#[test]
fn finalize_sentinel_breaks_the_transaction() {
    let r = finalize_execution(true, Some(ack_err_only_maker()));
    assert_eq!(r.unwrap_err(), ZkgmError::OnlyMaker);
}

#[test]
fn finalize_empty_ack_is_pending() {
    let r = finalize_execution(true, Some(vec![])).unwrap();
    assert_eq!(r, ExecutionOutcome::Pending);
}

#[test]
fn envelope_success_tag() {
    let a = Ack {
        tag: U256::from_u64(TAG_ACK_SUCCESS),
        inner_ack: vec![],
    };
    assert!(a.is_success());
    let b = Ack {
        tag: U256::from_u64(TAG_ACK_FAILURE),
        inner_ack: vec![],
    };
    assert!(!b.is_success());
}

#[test]
fn minter_salt_is_version_and_label() {
    assert_eq!(minter_salt(), "ucs03-zkgm-0/zkgm-token-minter".to_string());
}

#[test]
fn enforce_version_accepts_only_the_protocol() {
    assert!(enforce_version("ucs03-zkgm-0", None).is_ok());
    assert!(enforce_version("ucs03-zkgm-0", Some("ucs03-zkgm-0")).is_ok());
    assert_eq!(
        enforce_version("ucs04", None).unwrap_err(),
        ZkgmError::InvalidIbcVersion
    );
    assert_eq!(
        enforce_version("ucs03-zkgm-0", Some("other")).unwrap_err(),
        ZkgmError::InvalidIbcVersion
    );
}

#[test]
fn child_salt_is_keccak_of_index_and_salt() {
    let salt = vec![9u8; 32];
    for i in [0u64, 1, 2, 7] {
        let preimage = <(sol_data::Uint<256>, sol_data::FixedBytes<32>) as SolType>::abi_encode_params(
            &(alloy_primitives::U256::from(i), alloy_primitives::B256::from([9u8; 32])),
        );
        let expected = alloy_primitives::keccak256(&preimage).to_vec();
        assert_eq!(child_salt(&salt, i), expected);
    }
}

#[test]
fn u256_round_trips_and_compares() {
    let a = u(123456789);
    assert_eq!(a.try_to_u128(), Some(123456789));
    let big = U256 {
        w0: 5,
        w1: 0,
        w2: 3,
        w3: 0,
    };
    assert_eq!(big.try_to_u128(), None);
    assert!(a.lt(&big));
    assert!(!big.lt(&a));
    assert!(a.same(&u(123456789)));
    assert!(!a.same(&u(1)));
    assert!(U256::zero().is_zero());
    assert!(!a.is_zero());
}

#[test]
fn u256_checked_arithmetic() {
    let a = u(1000);
    let b = u(950);
    assert_eq!(a.checked_sub(&b), Some(u(50)));
    assert_eq!(b.checked_sub(&a), None);
    assert_eq!(a.checked_add(&b), Some(u(1950)));
    let max = U256 {
        w0: u64::MAX,
        w1: u64::MAX,
        w2: u64::MAX,
        w3: u64::MAX,
    };
    assert_eq!(max.checked_add(&u(1)), None);
    assert_eq!(max.checked_sub(&max), Some(U256::zero()));
    // borrows ripple across all four limbs
    let one_high = U256 {
        w0: 0,
        w1: 0,
        w2: 0,
        w3: 1,
    };
    let d = one_high.checked_sub(&u(1)).unwrap();
    assert_eq!(d.w0, u64::MAX);
    assert_eq!(d.w1, u64::MAX);
    assert_eq!(d.w2, u64::MAX);
    assert_eq!(d.w3, 0);
}

#[test]
fn u256_big_endian_bytes_match_the_codec() {
    let v = U256 {
        w0: 0x1122334455667788,
        w1: 0x99AABBCCDDEEFF00,
        w2: 1,
        w3: 0,
    };
    let expected = alloy_primitives::U256::from_limbs([v.w0, v.w1, v.w2, v.w3])
        .to_be_bytes::<32>()
        .to_vec();
    assert_eq!(v.to_be_bytes(), expected);
}

#[test]
fn ledger_stores_and_reads_balances() {
    let mut led = Ledger::new();
    assert_eq!(led.balance_of(1, &"muno".to_string()), None);
    led.store_balance(1, &"muno".to_string(), u(10));
    led.store_balance(2, &"muno".to_string(), u(20));
    led.store_balance(1, &"other".to_string(), u(30));
    assert_eq!(led.balance_of(1, &"muno".to_string()), Some(u(10)));
    assert_eq!(led.balance_of(2, &"muno".to_string()), Some(u(20)));
    assert_eq!(led.balance_of(1, &"other".to_string()), Some(u(30)));
    led.store_balance(1, &"muno".to_string(), u(15));
    assert_eq!(led.balance_of(1, &"muno".to_string()), Some(u(15)));
}

#[test]
fn ledger_snapshot_is_independent() {
    let mut led = Ledger::new();
    led.store_balance(1, &"muno".to_string(), u(10));
    let snap = led.snapshot();
    led.store_balance(1, &"muno".to_string(), u(99));
    assert_eq!(snap.balance_of(1, &"muno".to_string()), Some(u(10)));
    assert_eq!(led.balance_of(1, &"muno".to_string()), Some(u(99)));
}

#[test]
fn ledger_registers_wrapped_denominations() {
    let mut led = Ledger::new();
    let denom = "wrapped/muno".to_string();
    assert!(led.origin_of(&denom).is_none());
    assert!(led.foreign_token_of(&denom).is_none());
    led.register_wrapped(&denom, &b"muno".to_vec(), U256::from_u32(7));
    assert_eq!(led.origin_of(&denom), Some(U256::from_u32(7)));
    assert_eq!(led.foreign_token_of(&denom), Some(b"muno".to_vec()));
}

#[test]
fn channel_state_names_round_trip() {
    assert_eq!(ChannelState::Init.as_str_name(), "STATE_INIT");
    assert_eq!(ChannelState::from_str_name("STATE_INIT"), Some(ChannelState::Init));
    assert_eq!(ChannelState::from_str_name("STATE_OPEN"), Some(ChannelState::Open));
    assert_eq!(
        ChannelState::from_str_name("STATE_FLUSHCOMPLETE"),
        Some(ChannelState::Flushcomplete)
    );
    assert_eq!(ChannelState::from_str_name("bogus"), None);
    assert_eq!(
        ChannelState::UninitializedUnspecified.as_str_name(),
        "STATE_UNINITIALIZED_UNSPECIFIED"
    );
}

#[test]
fn channel_order_names_round_trip() {
    assert_eq!(ChannelOrder::Ordered.as_str_name(), "ORDER_ORDERED");
    assert_eq!(
        ChannelOrder::from_str_name("ORDER_UNORDERED"),
        Some(ChannelOrder::Unordered)
    );
    assert_eq!(ChannelOrder::from_str_name(""), None);
}

#[test]
fn response_result_type_names_round_trip() {
    assert_eq!(
        ResponseResultType::Success.as_str_name(),
        "RESPONSE_RESULT_TYPE_SUCCESS"
    );
    assert_eq!(
        ResponseResultType::from_str_name("RESPONSE_RESULT_TYPE_NOOP"),
        Some(ResponseResultType::Noop)
    );
    assert_eq!(ResponseResultType::from_str_name("RESPONSE"), None);
}

#[test]
fn escrow_transfer_full_lifecycle() {
    // A transfer escrows 1000 units of "muno" on channel 1, quoting 950 of
    // the wrapped representation.
    let (effs, sender_ledger) = transfer(
        &"alice".to_string(),
        1,
        &b"bob".to_vec(),
        &"muno".to_string(),
        1000,
        &b"wrapped/muno".to_vec(),
        &u(950),
        100,
        200,
        &vec![7u8; 32],
        &metadata(),
        &Ledger::new(),
    )
    .unwrap();
    let data = match &effs[1] {
        Effect::SendPacket { data, .. } => data.clone(),
        _ => panic!("expected the packet send"),
    };

    // The counterparty decodes the very bytes the library sent.
    let packet = ucs03_zkgm::decode::decode_packet(&data).unwrap();
    assert_eq!(packet.salt, vec![7u8; 32]);
    assert!(packet.path.is_zero());
    let tree = ucs03_zkgm::decode::decode_instruction(&packet.instruction).unwrap();

    // Destination side: the order mints 950 to the receiver and the 50
    // fee to the relayer.
    let ctx = TraversalCtx {
        source_channel_id: 1,
        destination_channel_id: 7,
        relayer: "relayer".to_string(),
    };
    let preds = vec![ucs03_zkgm::execute::Prediction {
        path: U256::zero(),
        channel_id: 7,
        token: b"muno".to_vec(),
        denom: "wrapped/muno".to_string(),
    }];
    let (ack, dest_effects, _) = execute_tree(
        &tree,
        &packet.salt,
        &packet.path,
        &ctx,
        &preds,
        &Ledger::new(),
    )
    .unwrap();
    assert_eq!(dest_effects.len(), 3);
    assert_eq!(
        dest_effects[1],
        Effect::Mint {
            denom: "wrapped/muno".to_string(),
            amount: 950,
            to: "bob".to_string(),
        }
    );
    assert_eq!(
        dest_effects[2],
        Effect::Mint {
            denom: "wrapped/muno".to_string(),
            amount: 50,
            to: "relayer".to_string(),
        }
    );

    // Sender side, protocol fill: nothing more to pay.
    let none =
        acknowledge_tree(&tree, &packet.salt, true, &ack, &ctx).unwrap();
    assert!(none.is_empty());

    // Sender side, market-maker fill: the full 1000 go to the maker.
    let mm_ack = <(sol_data::Uint<256>, sol_data::Bytes) as SolType>::abi_encode_params(&(
        alloy_primitives::U256::from(0xD1CEC45Eu64),
        b"maker".to_vec(),
    ));
    let to_maker = acknowledge_tree(&tree, &packet.salt, true, &mm_ack, &ctx).unwrap();
    assert_eq!(
        to_maker,
        vec![Effect::Unescrow {
            denom: "muno".to_string(),
            to: "maker".to_string(),
            amount: 1000,
        }]
    );

    // No acknowledgement at all: the full 1000 go back to the sender.
    let refund = timeout_tree(&tree, &packet.salt, &ctx).unwrap();
    assert_eq!(
        refund,
        vec![Effect::Unescrow {
            denom: "muno".to_string(),
            to: "alice".to_string(),
            amount: 1000,
        }]
    );
    assert_eq!(
        sender_ledger.balance_of(1, &"muno".to_string()),
        Some(u(1000))
    );
}
