use bridge_mock::chainbridge_mock;
use bridge_mock::example_mock;
use bridge_mock::erc721_mock;
use bridge_mock::genesis::{BridgeError, BridgeEvent, BridgeState, Externalities, RuntimeEvent};
use bridge_mock::params::{DEFAULT_RELAYER_VOTE_THRESHOLD, MOCK_CHAIN_ID};
use bridge_mock::resource::derive_resource_id;

fn bridge_ext(block_number: u64) -> Externalities {
    Externalities { block_number, balances: vec![], bridge: Some(BridgeState::new()), events: vec![] }
}

#[test]
fn builds_start_with_empty_log() {
    assert!(chainbridge_mock::TestExternalitiesBuilder::default().build().events.is_empty());
    assert!(example_mock::TestExternalitiesBuilder::default().build().events.is_empty());
    assert!(erc721_mock::TestExternalitiesBuilder::default().build().events.is_empty());
}

#[test]
fn build_with_logs_configuration_events_in_order() {
    let r_id = derive_resource_id(1, b"hash");
    let ext = chainbridge_mock::TestExternalitiesBuilder::default().build_with(1, r_id, vec![1, 2]);
    assert_eq!(
        ext.events,
        vec![
            RuntimeEvent::ChainBridge(BridgeEvent::RelayerThresholdChanged(2)),
            RuntimeEvent::ChainBridge(BridgeEvent::RelayerAdded(2)),
            RuntimeEvent::ChainBridge(BridgeEvent::RelayerAdded(3)),
            RuntimeEvent::ChainBridge(BridgeEvent::RelayerAdded(4)),
            RuntimeEvent::ChainBridge(BridgeEvent::ChainWhitelisted(1)),
        ]
    );
    assert_eq!(ext.bridge.unwrap().get_threshold(), 2);
}

#[test]
fn unset_threshold_is_runtime_default() {
    assert_eq!(BridgeState::new().get_threshold(), DEFAULT_RELAYER_VOTE_THRESHOLD);
    assert_eq!(DEFAULT_RELAYER_VOTE_THRESHOLD, 1);
}

#[test]
fn zero_threshold_is_refused() {
    let mut ext = bridge_ext(1);
    assert_eq!(ext.set_threshold(0), Err(BridgeError::InvalidThreshold));
    assert_eq!(ext, bridge_ext(1));
    assert_eq!(ext.set_threshold(3), Ok(()));
    assert_eq!(ext.bridge.as_ref().unwrap().relayer_threshold, Some(3));
    assert_eq!(ext.events, vec![RuntimeEvent::ChainBridge(BridgeEvent::RelayerThresholdChanged(3))]);
}

#[test]
fn duplicate_relayer_is_refused() {
    let mut ext = bridge_ext(1);
    assert_eq!(ext.add_relayer(7), Ok(()));
    assert_eq!(ext.add_relayer(7), Err(BridgeError::RelayerAlreadyExists));
    assert_eq!(ext.bridge.as_ref().unwrap().relayers, vec![7]);
    assert_eq!(ext.events.len(), 1);
    assert!(ext.bridge.as_ref().unwrap().is_relayer(7));
    assert!(!ext.bridge.as_ref().unwrap().is_relayer(8));
}

#[test]
fn own_chain_and_duplicate_chain_are_refused() {
    let mut ext = bridge_ext(1);
    assert_eq!(ext.whitelist_chain(MOCK_CHAIN_ID), Err(BridgeError::InvalidChainId));
    assert_eq!(ext.whitelist_chain(1), Ok(()));
    assert_eq!(ext.whitelist_chain(1), Err(BridgeError::ChainAlreadyWhitelisted));
    assert_eq!(ext.bridge.as_ref().unwrap().whitelisted_chains, vec![1]);
    assert!(ext.bridge.as_ref().unwrap().chain_whitelisted(1));
    assert_eq!(ext.events, vec![RuntimeEvent::ChainBridge(BridgeEvent::ChainWhitelisted(1))]);
}

#[test]
fn set_resource_replaces_data() {
    let mut ext = bridge_ext(1);
    let a = derive_resource_id(1, b"a");
    let b = derive_resource_id(1, b"b");
    ext.set_resource(a, vec![1]);
    ext.set_resource(b, vec![2]);
    ext.set_resource(a, vec![3]);
    assert_eq!(ext.bridge.as_ref().unwrap().resources, vec![(a, vec![3]), (b, vec![2])]);
    assert!(ext.events.is_empty());
}

#[test]
fn no_events_recorded_at_block_zero() {
    let mut ext = bridge_ext(0);
    assert_eq!(ext.set_threshold(2), Ok(()));
    assert_eq!(ext.add_relayer(2), Ok(()));
    assert!(ext.events.is_empty());
    assert_eq!(ext.bridge.as_ref().unwrap().relayers, vec![2]);
}
