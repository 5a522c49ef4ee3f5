use vstd::prelude::*;

use crate::resource::ChainId;
use crate::weights::Weight;

verus! {

/// How many recent block hashes the system pallet keeps.
pub const BLOCK_HASH_COUNT: u64 = 250;

/// The largest block, in bytes.
pub const MAXIMUM_BLOCK_LENGTH: u32 = 2 * 1024;

/// The most balance locks an account may hold.
pub const MAX_LOCKS: u32 = 100;

/// The most consumers an account may have.
pub const MAX_CONSUMERS: u32 = 16;

/// The share of a block available to normal calls, in parts per billion: all of it.
pub const AVAILABLE_BLOCK_RATIO_PARTS: u32 = 1_000_000_000;

/// The smallest balance an account may hold.
pub const EXISTENTIAL_DEPOSIT: u64 = 1;

/// The identifier of the chain the runtime stands for on the bridge.
pub const MOCK_CHAIN_ID: ChainId = 5;

/// The identifier of the chain bridge pallet, whose account holds the bridged funds: `cb/bridg`.
pub const CHAIN_BRIDGE_PALLET_ID: [u8; 8] = [99u8, 98u8, 47u8, 98u8, 114u8, 105u8, 100u8, 103u8];

/// The relayer vote threshold the chain bridge pallet uses until one is set.
pub const DEFAULT_RELAYER_VOTE_THRESHOLD: u32 = 1;

/// The relayer vote threshold the runtime configures: the pallet's default.
pub const RELAYER_VOTE_THRESHOLD: u32 = DEFAULT_RELAYER_VOTE_THRESHOLD;

/// For how many blocks a bridge proposal stays open.
pub const PROPOSAL_LIFETIME: u64 = 10;

/// The heaviest block.
pub fn maximum_block_weight() -> (w: Weight)
    ensures
        w.ref_time == 1024,
        w.proof_size == 0,
{
    Weight::from_parts(1024, 0)
}

} // verus!
