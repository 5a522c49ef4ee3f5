//! The mock runtime of the chain bridge pallet's tests.

use vstd::prelude::*;

use crate::account::{pallet_account, pallet_account_id};
use crate::genesis::{BridgeEvent, BridgeState, Externalities, RuntimeEvent};
use crate::params::{CHAIN_BRIDGE_PALLET_ID, MOCK_CHAIN_ID};
use crate::resource::{ChainId, ResourceId};
use crate::weights::Weight;

pub mod helpers;

verus! {

/// The first relayer.
pub const RELAYER_A: u64 = 0x2;

/// The second relayer.
pub const RELAYER_B: u64 = 0x3;

/// The third relayer.
pub const RELAYER_C: u64 = 0x4;

/// The balance each account is endowed with at genesis.
pub const ENDOWED_BALANCE: u64 = 100_000_000;

/// The relayer vote threshold a configured bridge uses.
pub const TEST_RELAYER_VOTE_THRESHOLD: u32 = 2;

/// The default test user.
pub const TEST_USER_ID: u64 = 1;

/// The weights of the chain bridge pallet's calls.
pub trait WeightInfo {
    fn set_threshold() -> Weight;

    fn set_resource() -> Weight;

    fn remove_resource() -> Weight;

    fn whitelist_chain() -> Weight;

    fn add_relayer() -> Weight;

    fn remove_relayer() -> Weight;

    fn acknowledge_proposal(dispatch_weight: Weight) -> Weight;

    fn reject_proposal() -> Weight;

    fn eval_vote_state(dispatch_weight: Weight) -> Weight;
}

/// Weights for tests: every call is free.
pub struct MockWeightInfo;

impl WeightInfo for MockWeightInfo {
    fn set_threshold() -> (w: Weight)
        ensures
            w.is_zero(),
    {
        Weight::from_parts(0, 0)
    }

    fn set_resource() -> (w: Weight)
        ensures
            w.is_zero(),
    {
        Weight::from_parts(0, 0)
    }

    fn remove_resource() -> (w: Weight)
        ensures
            w.is_zero(),
    {
        Weight::from_parts(0, 0)
    }

    fn whitelist_chain() -> (w: Weight)
        ensures
            w.is_zero(),
    {
        Weight::from_parts(0, 0)
    }

    fn add_relayer() -> (w: Weight)
        ensures
            w.is_zero(),
    {
        Weight::from_parts(0, 0)
    }

    fn remove_relayer() -> (w: Weight)
        ensures
            w.is_zero(),
    {
        Weight::from_parts(0, 0)
    }

    fn acknowledge_proposal(dispatch_weight: Weight) -> (w: Weight)
        ensures
            w.is_zero(),
    {
        Weight::from_parts(0, 0)
    }

    fn reject_proposal() -> (w: Weight)
        ensures
            w.is_zero(),
    {
        Weight::from_parts(0, 0)
    }

    fn eval_vote_state(dispatch_weight: Weight) -> (w: Weight)
        ensures
            w.is_zero(),
    {
        Weight::from_parts(0, 0)
    }
}

/// The members allowed to act as the default test user.
pub struct TestUserId;

impl TestUserId {
    /// The sorted members: the default test user alone.
    pub fn sorted_members() -> (members: Vec<u64>)
        ensures
            members@ == seq![TEST_USER_ID],
    {
        let mut members = Vec::new();
        members.push(TEST_USER_ID);
        members
    }
}

/// The account of the chain bridge pallet.
pub open spec fn bridge_account() -> int {
    pallet_account(CHAIN_BRIDGE_PALLET_ID@)
}

/// The account of the chain bridge pallet, which holds the bridged funds.
pub fn bridge_account_id() -> (account: u64)
    ensures
        account == bridge_account(),
{
    pallet_account_id(CHAIN_BRIDGE_PALLET_ID)
}

/// Builds the storage that the bridge's tests start from.
pub struct TestExternalitiesBuilder {}

impl Default for TestExternalitiesBuilder {
    fn default() -> (b: Self)
        ensures
            b == (TestExternalitiesBuilder {}),
    {
        TestExternalitiesBuilder {}
    }
}

/// The storage that `build` gives: block one, the bridge account endowed,
/// the bridge unconfigured, no event deposited.
pub open spec fn is_built(ext: Externalities) -> bool {
    &&& ext.block_number == 1
    &&& ext.balances@ =~= seq![(bridge_account() as u64, ENDOWED_BALANCE)]
    &&& ext.bridge matches Some(b) && b.is_unconfigured() && b.wf()
    &&& ext.events@.len() == 0
}

/// The events that configuring the bridge deposits, oldest first: the
/// threshold set, the three relayers added, chain `src_id` whitelisted.
pub open spec fn configuration_events(src_id: ChainId) -> Seq<RuntimeEvent> {
    seq![
        RuntimeEvent::ChainBridge(BridgeEvent::RelayerThresholdChanged(TEST_RELAYER_VOTE_THRESHOLD)),
        RuntimeEvent::ChainBridge(BridgeEvent::RelayerAdded(RELAYER_A)),
        RuntimeEvent::ChainBridge(BridgeEvent::RelayerAdded(RELAYER_B)),
        RuntimeEvent::ChainBridge(BridgeEvent::RelayerAdded(RELAYER_C)),
        RuntimeEvent::ChainBridge(BridgeEvent::ChainWhitelisted(src_id)),
    ]
}

/// The storage that `build_with(src_id, r_id, resource)` gives: that of
/// `build`, but for the bridge, which has the test threshold, the three
/// relayers, chain `src_id` whitelisted and resource `r_id` registered with
/// `resource`, and for the log, which holds the events of these calls.
pub open spec fn is_configured(
    ext: Externalities,
    src_id: ChainId,
    r_id: ResourceId,
    resource: Vec<u8>,
) -> bool {
    &&& ext.block_number == 1
    &&& ext.balances@ =~= seq![(bridge_account() as u64, ENDOWED_BALANCE)]
    &&& ext.bridge matches Some(b) && {
        &&& b.relayer_threshold == Some(TEST_RELAYER_VOTE_THRESHOLD)
        &&& b.relayers@ =~= seq![RELAYER_A, RELAYER_B, RELAYER_C]
        &&& b.whitelisted_chains@ =~= seq![src_id]
        &&& b.resources@ =~= seq![(r_id, resource)]
        &&& b.wf()
    }
    &&& ext.events@ =~= configuration_events(src_id)
}

/// Configuring the bridge changes nothing but the bridge: the block and the
/// endowed accounts are those that `build` gives.
pub proof fn law_configuring_keeps_genesis(
    built: Externalities,
    configured: Externalities,
    src_id: ChainId,
    r_id: ResourceId,
    resource: Vec<u8>,
)
    requires
        is_built(built),
        is_configured(configured, src_id, r_id, resource),
    ensures
        configured.block_number == built.block_number,
        configured.balances@ == built.balances@,
{
}

/// A configured bridge has chain `src_id` whitelisted, the three relayers,
/// the test threshold in force and resource `r_id` registered with
/// `resource`; the latest event is the whitelisting of `src_id`, after the
/// threshold and the three relayers' events.
pub proof fn law_configured_bridge(
    ext: Externalities,
    src_id: ChainId,
    r_id: ResourceId,
    resource: Vec<u8>,
)
    requires
        is_configured(ext, src_id, r_id, resource),
    ensures
        ext.bridge matches Some(b) && {
            &&& b.whitelisted_chains@.contains(src_id)
            &&& b.relayers@.contains(RELAYER_A)
            &&& b.relayers@.contains(RELAYER_B)
            &&& b.relayers@.contains(RELAYER_C)
            &&& b.relayers@.len() == 3
            &&& b.threshold() == TEST_RELAYER_VOTE_THRESHOLD
            &&& b.resources@.contains((r_id, resource))
        },
        ext.events@.len() == 5,
        ext.events@.last() == RuntimeEvent::ChainBridge(BridgeEvent::ChainWhitelisted(src_id)),
        ext.events@[0] == RuntimeEvent::ChainBridge(
            BridgeEvent::RelayerThresholdChanged(TEST_RELAYER_VOTE_THRESHOLD),
        ),
{
    let b = ext.bridge.unwrap();
    assert(b.whitelisted_chains@[0] == src_id);
    assert(b.relayers@[0] == RELAYER_A);
    assert(b.relayers@[1] == RELAYER_B);
    assert(b.relayers@[2] == RELAYER_C);
    assert(b.resources@[0] == (r_id, resource));
}

/// A configured bridge knows the resource it was given, as the mock checks.
pub proof fn law_configured_resource_exists(
    ext: Externalities,
    src_id: ChainId,
    r_id: ResourceId,
    resource: Vec<u8>,
)
    requires
        is_configured(ext, src_id, r_id, resource),
    ensures
        ext.bridge matches Some(b) && b.has_resource(r_id@),
{
    let b = ext.bridge.unwrap();
    assert(b.resources@[0].0@ == r_id@);
}

impl TestExternalitiesBuilder {
    /// The genesis storage: the bridge account endowed, at block one.
    pub fn build(self) -> (ext: Externalities)
        ensures
            is_built(ext),
    {
        let bridge_id = bridge_account_id();
        let mut balances = Vec::new();
        balances.push((bridge_id, ENDOWED_BALANCE));
        Externalities {
            block_number: 1,
            balances,
            bridge: Some(BridgeState::new()),
            events: Vec::new(),
        }
    }

    /// The genesis storage with the bridge configured, as root, in this
    /// order: the relayer threshold set, the three relayers added, chain
    /// `src_id` whitelisted and resource `r_id` registered with `resource`.
    /// The runtime's own chain cannot be whitelisted, so `src_id` must be
    /// another.
    pub fn build_with(self, src_id: ChainId, r_id: ResourceId, resource: Vec<u8>) -> (ext:
        Externalities)
        requires
            src_id != MOCK_CHAIN_ID,
        ensures
            is_configured(ext, src_id, r_id, resource),
    {
        let mut ext = Self::build(self);
        let r = ext.set_threshold(TEST_RELAYER_VOTE_THRESHOLD);
        assert(r is Ok);
        assert(ext.bridge.unwrap().relayers@.len() == 0);
        let r = ext.add_relayer(RELAYER_A);
        assert(r is Ok);
        assert(ext.bridge.unwrap().relayers@ =~= seq![RELAYER_A]);
        let r = ext.add_relayer(RELAYER_B);
        assert(r is Ok);
        assert(ext.bridge.unwrap().relayers@ =~= seq![RELAYER_A, RELAYER_B]);
        let r = ext.add_relayer(RELAYER_C);
        assert(r is Ok);
        let r = ext.whitelist_chain(src_id);
        assert(r is Ok);
        ext.set_resource(r_id, resource);
        proof {
            let b = ext.bridge.unwrap();
            assert(b.threshold() == TEST_RELAYER_VOTE_THRESHOLD);
            assert(b.resources@[0].0@ == r_id@);
            assert(b.has_resource(r_id@));
        }
        ext
    }
}

} // verus!
