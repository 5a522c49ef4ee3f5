//! The mock runtime of the bridge's example pallet's tests.

use vstd::prelude::*;

use crate::chainbridge_mock::{bridge_account, bridge_account_id};
use crate::genesis::{BridgeState, Externalities};
use crate::resource::ResourceId;
use crate::weights::Weight;

pub mod helpers;

verus! {

/// The first relayer.
pub const RELAYER_A: u64 = 0x2;

/// The second relayer.
pub const RELAYER_B: u64 = 0x3;

/// The third relayer.
pub const RELAYER_C: u64 = 0x4;

/// The balance each account is endowed with at genesis.
pub const ENDOWED_BALANCE: u64 = 100_000_000;

/// The relayer vote threshold the tests use.
pub const TEST_RELAYER_VOTE_THRESHOLD: u32 = 2;

/// The default test user.
pub const TEST_USER_ID: u64 = 1;

/// The weights of the example pallet's calls.
pub trait WeightInfo {
    fn transfer_hash() -> Weight;

    fn transfer_native() -> Weight;

    fn transfer_erc721() -> Weight;

    fn transfer() -> Weight;

    fn remark() -> Weight;

    fn mint_erc721() -> Weight;
}

/// Weights for tests: every call is free.
pub struct MockWeightInfo;

impl WeightInfo for MockWeightInfo {
    fn transfer_hash() -> (w: Weight)
        ensures
            w.is_zero(),
    {
        Weight::from_parts(0, 0)
    }

    fn transfer_native() -> (w: Weight)
        ensures
            w.is_zero(),
    {
        Weight::from_parts(0, 0)
    }

    fn transfer_erc721() -> (w: Weight)
        ensures
            w.is_zero(),
    {
        Weight::from_parts(0, 0)
    }

    fn transfer() -> (w: Weight)
        ensures
            w.is_zero(),
    {
        Weight::from_parts(0, 0)
    }

    fn remark() -> (w: Weight)
        ensures
            w.is_zero(),
    {
        Weight::from_parts(0, 0)
    }

    fn mint_erc721() -> (w: Weight)
        ensures
            w.is_zero(),
    {
        Weight::from_parts(0, 0)
    }
}

/// The members allowed to act as the default test user.
pub struct TestUserId;

impl TestUserId {
    /// The sorted members: the default test user alone.
    pub fn sorted_members() -> (members: Vec<u64>)
        ensures
            members@ == seq![TEST_USER_ID],
    {
        let mut members = Vec::new();
        members.push(TEST_USER_ID);
        members
    }
}

/// A call of the example pallet that a bridge proposal carries.
#[derive(Clone, Copy, Debug, PartialEq, Eq)]
pub enum ExampleCall {
    /// Record `hash`, bridged as resource `r_id`.
    Remark { hash: [u8; 32], r_id: ResourceId },
    /// Pay `amount` to `to`, bridged as resource `r_id`.
    Transfer { to: u64, amount: u64, r_id: ResourceId },
}

/// A call of the runtime.
#[derive(Clone, Copy, Debug, PartialEq, Eq)]
pub enum RuntimeCall {
    Example(ExampleCall),
}

/// Builds the storage that the example pallet's tests start from.
pub struct TestExternalitiesBuilder {}

impl Default for TestExternalitiesBuilder {
    fn default() -> (b: Self)
        ensures
            b == (TestExternalitiesBuilder {}),
    {
        TestExternalitiesBuilder {}
    }
}

impl TestExternalitiesBuilder {
    /// The genesis storage: the bridge account and the first relayer
    /// endowed, at block one, the bridge unconfigured, no event deposited.
    pub fn build(self) -> (ext: Externalities)
        ensures
            ext.block_number == 1,
            ext.balances@ == seq![
                (bridge_account() as u64, ENDOWED_BALANCE),
                (RELAYER_A, ENDOWED_BALANCE),
            ],
            ext.bridge matches Some(b) && b.is_unconfigured() && b.wf(),
            ext.events@.len() == 0,
    {
        let bridge_id = bridge_account_id();
        let mut balances = Vec::new();
        balances.push((bridge_id, ENDOWED_BALANCE));
        balances.push((RELAYER_A, ENDOWED_BALANCE));
        Externalities {
            block_number: 1,
            balances,
            bridge: Some(BridgeState::new()),
            events: Vec::new(),
        }
    }
}

} // verus!
