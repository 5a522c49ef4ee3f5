use bridge_mock::chainbridge_mock;
use bridge_mock::chainbridge_mock::WeightInfo as BridgeWeightInfo;
use bridge_mock::erc721_mock;
use bridge_mock::erc721_mock::WeightInfo as Erc721WeightInfo;
use bridge_mock::example_mock;
use bridge_mock::example_mock::helpers::{make_remark_proposal, make_transfer_proposal};
use bridge_mock::example_mock::WeightInfo as ExampleWeightInfo;
use bridge_mock::example_mock::{ExampleCall, RuntimeCall};
use bridge_mock::genesis::BridgeState;
use bridge_mock::params::{maximum_block_weight, CHAIN_BRIDGE_PALLET_ID};
use bridge_mock::resource::{derive_resource_id, erc721_id, hash_id, native_token_id};
use bridge_mock::weights::Weight;

fn zero() -> Weight {
    Weight { ref_time: 0, proof_size: 0 }
}

#[test]
fn bridge_weights_are_zero() {
    type W = chainbridge_mock::MockWeightInfo;
    let some = Weight::from_parts(7, 9);
    assert_eq!(<W as BridgeWeightInfo>::set_threshold(), zero());
    assert_eq!(<W as BridgeWeightInfo>::set_resource(), zero());
    assert_eq!(<W as BridgeWeightInfo>::remove_resource(), zero());
    assert_eq!(<W as BridgeWeightInfo>::whitelist_chain(), zero());
    assert_eq!(<W as BridgeWeightInfo>::add_relayer(), zero());
    assert_eq!(<W as BridgeWeightInfo>::remove_relayer(), zero());
    assert_eq!(<W as BridgeWeightInfo>::acknowledge_proposal(some), zero());
    assert_eq!(<W as BridgeWeightInfo>::reject_proposal(), zero());
    assert_eq!(<W as BridgeWeightInfo>::eval_vote_state(some), zero());
}

#[test]
fn erc721_weights_are_zero() {
    type W = erc721_mock::MockWeightInfo;
    assert_eq!(<W as Erc721WeightInfo>::mint(), zero());
    assert_eq!(<W as Erc721WeightInfo>::transfer(), zero());
    assert_eq!(<W as Erc721WeightInfo>::burn(), zero());
}

#[test]
fn example_weights_are_zero() {
    type W = example_mock::MockWeightInfo;
    assert_eq!(<W as ExampleWeightInfo>::transfer_hash(), zero());
    assert_eq!(<W as ExampleWeightInfo>::transfer_native(), zero());
    assert_eq!(<W as ExampleWeightInfo>::transfer_erc721(), zero());
    assert_eq!(<W as ExampleWeightInfo>::transfer(), zero());
    assert_eq!(<W as ExampleWeightInfo>::remark(), zero());
    assert_eq!(<W as ExampleWeightInfo>::mint_erc721(), zero());
}

#[test]
fn weight_from_parts_keeps_parts() {
    let w = Weight::from_parts(1024, 3);
    assert_eq!(w.ref_time, 1024);
    assert_eq!(w.proof_size, 3);
    assert_eq!(maximum_block_weight(), Weight { ref_time: 1024, proof_size: 0 });
}

#[test]
fn sorted_members_is_the_test_user() {
    assert_eq!(chainbridge_mock::TestUserId::sorted_members(), vec![1u64]);
    assert_eq!(example_mock::TestUserId::sorted_members(), vec![1u64]);
}

#[test]
fn bridge_account_is_modl_tag_and_pallet_id() {
    assert_eq!(CHAIN_BRIDGE_PALLET_ID, *b"cb/bridg");
    let expected = u64::from_le_bytes(*b"modlcb/b");
    assert_eq!(chainbridge_mock::bridge_account_id(), expected);
    assert_eq!(expected, 0x622f_6263_6c64_6f6d);
}

#[test]
fn chainbridge_build_endows_bridge_at_block_one() {
    let ext = chainbridge_mock::TestExternalitiesBuilder::default().build();
    assert_eq!(ext.block_number, 1);
    assert_eq!(ext.balances, vec![(chainbridge_mock::bridge_account_id(), 100_000_000)]);
    assert_eq!(ext.bridge, Some(BridgeState::new()));
    let bridge = ext.bridge.unwrap();
    assert_eq!(bridge.relayer_threshold, None);
    assert!(bridge.relayers.is_empty());
    assert!(!bridge.resource_exists(&[0u8; 32]));
}

#[test]
fn chainbridge_build_with_configures_bridge() {
    let src_id: u8 = 1;
    let r_id = derive_resource_id(src_id, b"remark");
    let resource = b"Example.remark".to_vec();
    let ext = chainbridge_mock::TestExternalitiesBuilder::default().build_with(
        src_id,
        r_id,
        resource.clone(),
    );
    assert_eq!(ext.block_number, 1);
    assert_eq!(ext.balances, vec![(chainbridge_mock::bridge_account_id(), 100_000_000)]);
    let bridge = ext.bridge.unwrap();
    assert_eq!(bridge.relayer_threshold, Some(chainbridge_mock::TEST_RELAYER_VOTE_THRESHOLD));
    assert_eq!(bridge.relayers, vec![2, 3, 4]);
    assert_eq!(bridge.whitelisted_chains, vec![1]);
    assert_eq!(bridge.resources, vec![(r_id, resource)]);
    assert!(bridge.resource_exists(&r_id));
    let other = derive_resource_id(src_id, b"other");
    assert!(!bridge.resource_exists(&other));
}

#[test]
fn erc721_build_endows_first_user_at_block_zero() {
    let ext = erc721_mock::TestExternalitiesBuilder::default().build();
    assert_eq!(ext.block_number, 0);
    assert_eq!(ext.balances, vec![(erc721_mock::USER_A, erc721_mock::ENDOWED_BALANCE)]);
    assert_eq!(ext.bridge, None);
}

#[test]
fn example_build_endows_bridge_and_first_relayer() {
    let ext = example_mock::TestExternalitiesBuilder::default().build();
    assert_eq!(ext.block_number, 1);
    assert_eq!(
        ext.balances,
        vec![(chainbridge_mock::bridge_account_id(), 100_000_000), (2, 100_000_000)]
    );
    assert_eq!(ext.bridge, Some(BridgeState::new()));
}

#[test]
fn resource_id_short_name_is_right_aligned() {
    let r = derive_resource_id(7, &[0xaa, 0xbb, 0xcc]);
    let mut expected = [0u8; 32];
    expected[28] = 0xaa;
    expected[29] = 0xbb;
    expected[30] = 0xcc;
    expected[31] = 7;
    assert_eq!(r, expected);
}

#[test]
fn resource_id_empty_name_is_chain_only() {
    let r = derive_resource_id(9, &[]);
    let mut expected = [0u8; 32];
    expected[31] = 9;
    assert_eq!(r, expected);
}

#[test]
fn resource_id_long_name_keeps_first_bytes() {
    let name: Vec<u8> = (0u8..40).collect();
    let r = derive_resource_id(3, &name);
    let mut expected = [0u8; 32];
    for i in 0..31 {
        expected[i] = i as u8;
    }
    expected[31] = 3;
    assert_eq!(r, expected);
}

#[test]
fn named_resource_ids_use_blake2_digest() {
    assert_eq!(hash_id(), derive_resource_id(1, &sp_io::hashing::blake2_128(b"hash")));
    assert_eq!(native_token_id(), derive_resource_id(1, &sp_io::hashing::blake2_128(b"DAV")));
    assert_eq!(erc721_id(), derive_resource_id(1, &sp_io::hashing::blake2_128(b"NFT")));
    assert_ne!(hash_id(), derive_resource_id(1, b"hash"));
    assert_ne!(hash_id(), erc721_id());
}

#[test]
fn transfer_proposal_carries_hash_resource() {
    let call = make_transfer_proposal(5, 10);
    assert_eq!(
        call,
        RuntimeCall::Example(ExampleCall::Transfer { to: 5, amount: 10, r_id: hash_id() })
    );
}

#[test]
fn remark_proposal_carries_hash_resource() {
    let hash = [0x11u8; 32];
    let call = make_remark_proposal(hash);
    assert_eq!(call, RuntimeCall::Example(ExampleCall::Remark { hash, r_id: hash_id() }));
}
