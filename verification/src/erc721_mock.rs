//! The mock runtime of the ERC-721 example pallet's tests.

use vstd::prelude::*;

use crate::genesis::Externalities;
use crate::weights::Weight;

verus! {

/// The first user.
pub const USER_A: u64 = 0x1;

/// The second user.
pub const USER_B: u64 = 0x2;

/// The third user.
pub const USER_C: u64 = 0x3;

/// The balance the first user is endowed with at genesis.
pub const ENDOWED_BALANCE: u64 = 100_000_000;

/// The weights of the ERC-721 pallet's calls.
pub trait WeightInfo {
    fn mint() -> Weight;

    fn transfer() -> Weight;

    fn burn() -> Weight;
}

/// Weights for tests: every call is free.
pub struct MockWeightInfo;

impl WeightInfo for MockWeightInfo {
    fn mint() -> (w: Weight)
        ensures
            w.is_zero(),
    {
        Weight::from_parts(0, 0)
    }

    fn transfer() -> (w: Weight)
        ensures
            w.is_zero(),
    {
        Weight::from_parts(0, 0)
    }

    fn burn() -> (w: Weight)
        ensures
            w.is_zero(),
    {
        Weight::from_parts(0, 0)
    }
}

/// Builds the storage that the ERC-721 pallet's tests start from.
pub struct TestExternalitiesBuilder {}

impl Default for TestExternalitiesBuilder {
    fn default() -> (b: Self)
        ensures
            b == (TestExternalitiesBuilder {}),
    {
        TestExternalitiesBuilder {}
    }
}

impl TestExternalitiesBuilder {
    /// The genesis storage: the first user endowed, at block zero; this
    /// runtime has no chain bridge.
    pub fn build(self) -> (ext: Externalities)
        ensures
            ext.block_number == 0,
            ext.balances@ == seq![(USER_A, ENDOWED_BALANCE)],
            ext.bridge is None,
            ext.events@.len() == 0,
    {
        let mut balances = Vec::new();
        balances.push((USER_A, ENDOWED_BALANCE));
        Externalities { block_number: 0, balances, bridge: None, events: Vec::new() }
    }
}

} // verus!
