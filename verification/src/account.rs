use frame_support::PalletId;
use sp_runtime::traits::AccountIdConversion;
use vstd::prelude::*;

verus! {

/// The integer that the first eight bytes of `bytes` give when read in
/// little-endian order.
pub open spec fn le_u64(bytes: Seq<u8>) -> int {
    bytes[0] + bytes[1] * 0x100 + bytes[2] * 0x1_0000 + bytes[3] * 0x100_0000 + bytes[4]
        * 0x1_0000_0000 + bytes[5] * 0x100_0000_0000 + bytes[6] * 0x1_0000_0000_0000 + bytes[7]
        * 0x100_0000_0000_0000
}

/// The type tag that a pallet identifier puts before its bytes: `modl`.
pub open spec fn pallet_type_tag() -> Seq<u8> {
    seq![109u8, 111u8, 100u8, 108u8]
}

/// The `u64` account of the pallet with identifier `id`: the seed is the tag
/// `modl` followed by the eight bytes of the identifier, and the account is its
/// first eight bytes read in little-endian order.
pub open spec fn pallet_account(id: Seq<u8>) -> int {
    le_u64(pallet_type_tag() + id)
}

/// Calls `into_account_truncating` of `sp_runtime::traits::AccountIdConversion`
/// on `frame_support::PalletId(id)`, for `u64` accounts. Claimed, after the
/// source of both crates: the account is the SCALE encoding of
/// `(*b"modl", id, ())` read as a `u64` from its first eight bytes, in
/// little-endian order.
#[verifier::external_body]
pub(crate) fn pallet_account_id(id: [u8; 8]) -> (account: u64)
    ensures
        account == pallet_account(id@),
{
    PalletId(id).into_account_truncating()
}

} // verus!
