//! Checks on the event log of the example pallet's mock runtime, and the
//! bridge proposals its tests submit.

use vstd::prelude::*;

use crate::example_mock::{ExampleCall, RuntimeCall};
use crate::resource::{hash_id, hash_name, named_resource_id};

pub use crate::events::{
    assert_events, check_event_emitted, check_events, check_latest_event, event_exists, expect_event,
};

verus! {

/// A proposal to record `hash` through the example pallet, bridged as the
/// hash resource.
pub fn make_remark_proposal(hash: [u8; 32]) -> (call: RuntimeCall)
    ensures
        call matches RuntimeCall::Example(ExampleCall::Remark { hash: h, r_id })
            && h == hash && r_id@ == named_resource_id(hash_name()),
{
    let resource_id = hash_id();
    RuntimeCall::Example(ExampleCall::Remark { hash, r_id: resource_id })
}

/// A proposal to pay `amount` to `to` through the example pallet, bridged as
/// the hash resource.
pub fn make_transfer_proposal(to: u64, amount: u64) -> (call: RuntimeCall)
    ensures
        call matches RuntimeCall::Example(ExampleCall::Transfer { to: t, amount: a, r_id })
            && t == to && a == amount && r_id@ == named_resource_id(hash_name()),
{
    let resource_id = hash_id();
    RuntimeCall::Example(ExampleCall::Transfer { to, amount, r_id: resource_id })
}

} // verus!
