use vstd::prelude::*;

verus! {

/// The identifier of a bridged resource: up to 31 bytes of a name,
/// right-aligned, followed by the byte of the chain it belongs to.
pub type ResourceId = [u8; 32];

/// The identifier of a chain on the bridge.
pub type ChainId = u8;

/// What `sp_io::hashing::blake2_128` returns for the given bytes.
pub uninterp spec fn blake2_128_digest(data: Seq<u8>) -> Seq<u8>;

/// Calls `sp_io::hashing::blake2_128`, the 128-bit Blake2b hash of `data`.
/// Claimed: the result is a function of the bytes alone, named
/// `blake2_128_digest`; the hash itself is not stated.
#[verifier::external_body]
fn blake2_128(data: &[u8]) -> (digest: [u8; 16])
    ensures
        digest@ == blake2_128_digest(data@),
{
    sp_io::hashing::blake2_128(data)
}

/// How many bytes of a name go into a resource identifier.
pub open spec fn name_len(id: Seq<u8>) -> int {
    if id.len() > 31 {
        31
    } else {
        id.len() as int
    }
}

/// The resource identifier for the name `id` on chain `chain`: the last byte
/// is the chain; before it stand the first (at most 31) bytes of the name,
/// right-aligned; the bytes before those are zero.
pub open spec fn resource_id_of(chain: u8, id: Seq<u8>) -> Seq<u8> {
    Seq::new(
        32,
        |j: int|
            if j == 31 {
                chain
            } else if j >= 31 - name_len(id) {
                id[j - (31 - name_len(id))]
            } else {
                0u8
            },
    )
}

/// Builds the resource identifier of the name `id` on chain `chain`.
pub fn derive_resource_id(chain: ChainId, id: &[u8]) -> (r: ResourceId)
    ensures
        r@ == resource_id_of(chain, id@),
{
    let mut r_id: [u8; 32] = [0u8; 32];
    r_id[31] = chain;
    let range: usize = if id.len() > 31 {
        31
    } else {
        id.len()
    };
    let mut i: usize = 0;
    while i < range
        invariant
            range == name_len(id@),
            i <= range,
            r_id@.len() == 32,
            r_id@[31] == chain,
            forall|j: int|
                0 <= j < 31 ==> #[trigger] r_id@[j] == (if j >= 31 - i {
                    id@[j - (31 - range)]
                } else {
                    0u8
                }),
        decreases range - i,
    {
        r_id[30 - i] = id[range - 1 - i];
        i = i + 1;
    }
    assert(r_id@ =~= resource_id_of(chain, id@));
    r_id
}

/// Laid out: the last byte is the chain; before it stand the first
/// `min(len, 31)` bytes of the name, in order; every byte before those is zero.
pub proof fn law_resource_id_layout(chain: u8, id: Seq<u8>)
    ensures
        ({
            let n: int = if id.len() > 31 {
                31
            } else {
                id.len() as int
            };
            let r = resource_id_of(chain, id);
            &&& r.len() == 32
            &&& r[31] == chain
            &&& forall|k: int| 0 <= k < n ==> #[trigger] r[31 - n + k] == id[k]
            &&& forall|j: int| 0 <= j < 31 - n ==> #[trigger] r[j] == 0u8
        }),
{
    let n: int = if id.len() > 31 {
        31
    } else {
        id.len() as int
    };
    let r = resource_id_of(chain, id);
    assert(name_len(id) == n);
    assert forall|k: int| 0 <= k < n implies #[trigger] r[31 - n + k] == id[k] by {}
    assert forall|j: int| 0 <= j < 31 - n implies #[trigger] r[j] == 0u8 by {}
}

/// A resource identifier ends with its chain, and identifiers of different
/// chains differ.
pub proof fn law_resource_id_names_its_chain(c1: u8, id1: Seq<u8>, c2: u8, id2: Seq<u8>)
    ensures
        resource_id_of(c1, id1).len() == 32,
        resource_id_of(c1, id1)[31] == c1,
        c1 != c2 ==> resource_id_of(c1, id1) != resource_id_of(c2, id2),
{
    assert(resource_id_of(c2, id2)[31] == c2);
}

/// Names of the same length, of at most 31 bytes, on the same chain, give the
/// same identifier only when they are the same name.
pub proof fn law_resource_id_keeps_short_names(chain: u8, id1: Seq<u8>, id2: Seq<u8>)
    requires
        id1.len() == id2.len(),
        id1.len() <= 31,
        resource_id_of(chain, id1) == resource_id_of(chain, id2),
    ensures
        id1 == id2,
{
    let n = id1.len() as int;
    assert forall|i: int| 0 <= i < n implies id1[i] == id2[i] by {
        assert(name_len(id1) == n && name_len(id2) == n);
        assert(resource_id_of(chain, id1)[31 - n + i] == id1[i]);
        assert(resource_id_of(chain, id2)[31 - n + i] == id2[i]);
    }
    assert(id1 =~= id2);
}

/// The resource identifier, on chain `1`, of the Blake2-128 digest of `name`.
pub open spec fn named_resource_id(name: Seq<u8>) -> Seq<u8> {
    resource_id_of(1, blake2_128_digest(name))
}

/// The identifier, on chain `1`, of the resource whose name hashes to the
/// Blake2-128 digest of `name`.
pub fn resource_id_of_name(name: &[u8]) -> (r: ResourceId)
    ensures
        r@ == named_resource_id(name@),
{
    let digest = blake2_128(name);
    derive_resource_id(1, digest.as_slice())
}

/// The name `hash`.
pub open spec fn hash_name() -> Seq<u8> {
    seq![104u8, 97u8, 115u8, 104u8]
}

/// The name `DAV`.
pub open spec fn dav_name() -> Seq<u8> {
    seq![68u8, 65u8, 86u8]
}

/// The name `NFT`.
pub open spec fn nft_name() -> Seq<u8> {
    seq![78u8, 70u8, 84u8]
}

/// The identifier of the resource that hashes are bridged as.
pub fn hash_id() -> (r: ResourceId)
    ensures
        r@ == named_resource_id(hash_name()),
{
    let name: [u8; 4] = [104u8, 97u8, 115u8, 104u8];
    assert(name@ =~= hash_name());
    resource_id_of_name(name.as_slice())
}

/// The identifier of the resource that the native token is bridged as.
pub fn native_token_id() -> (r: ResourceId)
    ensures
        r@ == named_resource_id(dav_name()),
{
    let name: [u8; 3] = [68u8, 65u8, 86u8];
    assert(name@ =~= dav_name());
    resource_id_of_name(name.as_slice())
}

/// The identifier of the resource that ERC-721 tokens are bridged as.
pub fn erc721_id() -> (r: ResourceId)
    ensures
        r@ == named_resource_id(nft_name()),
{
    let name: [u8; 3] = [78u8, 70u8, 84u8];
    assert(name@ =~= nft_name());
    resource_id_of_name(name.as_slice())
}

} // verus!
