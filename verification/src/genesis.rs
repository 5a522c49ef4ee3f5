use vstd::prelude::*;

use crate::params::{MOCK_CHAIN_ID, RELAYER_VOTE_THRESHOLD};
use crate::resource::{ChainId, ResourceId};

verus! {

/// What the chain bridge pallet holds in storage: the vote threshold set for
/// relayers (`None` while it keeps the runtime's default), the relayers, the
/// chains allowed to bridge and the resources it knows with their data.
#[derive(Clone, Debug, PartialEq, Eq)]
pub struct BridgeState {
    pub relayer_threshold: Option<u32>,
    pub relayers: Vec<u64>,
    pub whitelisted_chains: Vec<ChainId>,
    pub resources: Vec<(ResourceId, Vec<u8>)>,
}

/// An event that the chain bridge pallet deposits when it is configured.
#[derive(Clone, Copy, Debug, PartialEq, Eq, Structural)]
pub enum BridgeEvent {
    /// The relayer vote threshold was set.
    RelayerThresholdChanged(u32),
    /// A chain was allowed to bridge.
    ChainWhitelisted(ChainId),
    /// A relayer was added.
    RelayerAdded(u64),
}

/// An event of the mock runtime.
#[derive(Clone, Copy, Debug, PartialEq, Eq, Structural)]
pub enum RuntimeEvent {
    ChainBridge(BridgeEvent),
}

/// Why the chain bridge pallet refused a configuration call.
#[derive(Clone, Copy, Debug, PartialEq, Eq, Structural)]
pub enum BridgeError {
    /// A relayer vote threshold must be above zero.
    InvalidThreshold,
    /// The runtime's own chain cannot be whitelisted.
    InvalidChainId,
    /// The chain is whitelisted already.
    ChainAlreadyWhitelisted,
    /// The account is a relayer already.
    RelayerAlreadyExists,
}

/// The storage of a mock runtime that a test starts from: the current block,
/// the accounts endowed at genesis with their balances, in genesis order, the
/// state of the chain bridge pallet where the runtime includes one, and the
/// events deposited so far, oldest first.
#[derive(Clone, Debug, PartialEq, Eq)]
pub struct Externalities {
    pub block_number: u64,
    pub balances: Vec<(u64, u64)>,
    pub bridge: Option<BridgeState>,
    pub events: Vec<RuntimeEvent>,
}

/// Whether some resource of `resources` has identifier `r_id`.
pub open spec fn resources_have(resources: Seq<(ResourceId, Vec<u8>)>, r_id: Seq<u8>) -> bool {
    exists|i: int| 0 <= i < resources.len() && #[trigger] resources[i].0@ == r_id
}

/// `new` is what `set_threshold(threshold)` leaves of `old`, and `r` what it returns.
pub open spec fn threshold_outcome(
    old: BridgeState,
    new: BridgeState,
    threshold: u32,
    r: Result<(), BridgeError>,
) -> bool {
    if threshold == 0 {
        r == Err::<(), BridgeError>(BridgeError::InvalidThreshold) && new == old
    } else {
        r is Ok && new == (BridgeState { relayer_threshold: Some(threshold), ..old })
    }
}

/// `new` is what `add_relayer(who)` leaves of `old`, and `r` what it returns.
pub open spec fn relayer_outcome(
    old: BridgeState,
    new: BridgeState,
    who: u64,
    r: Result<(), BridgeError>,
) -> bool {
    if old.relayers@.contains(who) {
        r == Err::<(), BridgeError>(BridgeError::RelayerAlreadyExists) && new == old
    } else {
        &&& r is Ok
        &&& new.relayers@ == old.relayers@.push(who)
        &&& new.relayer_threshold == old.relayer_threshold
        &&& new.whitelisted_chains == old.whitelisted_chains
        &&& new.resources == old.resources
    }
}

/// `new` is what `whitelist_chain(id)` leaves of `old`, and `r` what it returns.
pub open spec fn whitelist_outcome(
    old: BridgeState,
    new: BridgeState,
    id: ChainId,
    r: Result<(), BridgeError>,
) -> bool {
    if id == MOCK_CHAIN_ID {
        r == Err::<(), BridgeError>(BridgeError::InvalidChainId) && new == old
    } else if old.whitelisted_chains@.contains(id) {
        r == Err::<(), BridgeError>(BridgeError::ChainAlreadyWhitelisted) && new == old
    } else {
        &&& r is Ok
        &&& new.whitelisted_chains@ == old.whitelisted_chains@.push(id)
        &&& new.relayer_threshold == old.relayer_threshold
        &&& new.relayers == old.relayers
        &&& new.resources == old.resources
    }
}

/// `new` is what `set_resource(r_id, method)` leaves of `old`: the resource
/// registered with `method`, in place of its old data if it had any.
pub open spec fn resource_outcome(
    old: BridgeState,
    new: BridgeState,
    r_id: ResourceId,
    method: Vec<u8>,
) -> bool {
    &&& new.relayer_threshold == old.relayer_threshold
    &&& new.relayers == old.relayers
    &&& new.whitelisted_chains == old.whitelisted_chains
    &&& old.has_resource(r_id@) ==> exists|i: int|
        0 <= i < old.resources@.len() && old.resources@[i].0@ == r_id@ && new.resources@
            == old.resources@.update(i, (r_id, method))
    &&& !old.has_resource(r_id@) ==> new.resources@ == old.resources@.push((r_id, method))
}

/// Once a threshold above zero is set, it is the threshold in force; with none
/// set, the runtime's default is in force.
pub proof fn law_threshold_set_is_read(
    old: BridgeState,
    new: BridgeState,
    threshold: u32,
    r: Result<(), BridgeError>,
)
    requires
        threshold_outcome(old, new, threshold, r),
        threshold > 0,
    ensures
        r is Ok,
        new.threshold() == threshold,
        new.relayers == old.relayers,
{
}

/// With no threshold set, the runtime's default is in force, whatever the
/// relayers, chains and resources.
pub proof fn law_unset_threshold_is_default(b: BridgeState)
    requires
        b.relayer_threshold is None,
    ensures
        b.threshold() == RELAYER_VOTE_THRESHOLD,
{
}

/// Adding a relayer leaves the threshold in force as it was.
pub proof fn law_threshold_survives_relayers(
    old: BridgeState,
    new: BridgeState,
    who: u64,
    r: Result<(), BridgeError>,
)
    requires
        relayer_outcome(old, new, who, r),
    ensures
        new.threshold() == old.threshold(),
{
}

/// A relayer that is not one yet is added, after all the others, however many
/// there are; one that is already a relayer is refused and nothing changes.
pub proof fn law_new_relayer_is_added(
    old: BridgeState,
    new: BridgeState,
    who: u64,
    r: Result<(), BridgeError>,
)
    requires
        relayer_outcome(old, new, who, r),
    ensures
        !old.relayers@.contains(who) ==> {
            &&& r is Ok
            &&& new.relayers@.len() == old.relayers@.len() + 1
            &&& new.relayers@.last() == who
            &&& forall|i: int| 0 <= i < old.relayers@.len() ==> new.relayers@[i] == old.relayers@[i]
            &&& new.relayers@.contains(who)
        },
        old.relayers@.contains(who) ==> r == Err::<(), BridgeError>(
            BridgeError::RelayerAlreadyExists,
        ) && new == old,
{
    if !old.relayers@.contains(who) {
        assert(new.relayers@[old.relayers@.len() as int] == who);
    }
}

/// A chain other than the runtime's own that is not whitelisted yet is
/// whitelisted, whatever other chains are; the chains whitelisted before stay.
/// The runtime's own chain and a chain whitelisted already are refused, and
/// nothing changes.
pub proof fn law_new_chain_is_whitelisted(
    old: BridgeState,
    new: BridgeState,
    id: ChainId,
    r: Result<(), BridgeError>,
)
    requires
        whitelist_outcome(old, new, id, r),
    ensures
        id != MOCK_CHAIN_ID && !old.whitelisted_chains@.contains(id) ==> {
            &&& r is Ok
            &&& new.whitelisted_chains@.contains(id)
            &&& new.whitelisted_chains@.len() == old.whitelisted_chains@.len() + 1
            &&& forall|c: ChainId| old.whitelisted_chains@.contains(c) ==> new.whitelisted_chains@.contains(c)
        },
        id == MOCK_CHAIN_ID ==> r == Err::<(), BridgeError>(BridgeError::InvalidChainId) && new == old,
        id != MOCK_CHAIN_ID && old.whitelisted_chains@.contains(id) ==> r == Err::<(), BridgeError>(
            BridgeError::ChainAlreadyWhitelisted,
        ) && new == old,
{
    if id != MOCK_CHAIN_ID && !old.whitelisted_chains@.contains(id) {
        let o = old.whitelisted_chains@;
        let n = new.whitelisted_chains@;
        assert(n[o.len() as int] == id);
        assert forall|c: ChainId| o.contains(c) implies n.contains(c) by {
            let i = choose|i: int| 0 <= i < o.len() && o[i] == c;
            assert(n[i] == c);
        }
    }
}

impl BridgeState {
    /// The bridge's storage is well formed: no relayer, chain or resource
    /// identifier occurs twice, as in the pallet's storage maps.
    pub open spec fn wf(self) -> bool {
        &&& self.relayers@.no_duplicates()
        &&& self.whitelisted_chains@.no_duplicates()
        &&& forall|i: int, j: int|
            0 <= i < j < self.resources@.len() ==> #[trigger] self.resources@[i].0@
                != #[trigger] self.resources@[j].0@
    }

    /// The bridge as genesis leaves it: nothing configured.
    pub open spec fn is_unconfigured(self) -> bool {
        &&& self.relayer_threshold is None
        &&& self.relayers@.len() == 0
        &&& self.whitelisted_chains@.len() == 0
        &&& self.resources@.len() == 0
    }

    /// Whether the resource `r_id` is registered.
    pub open spec fn has_resource(self, r_id: Seq<u8>) -> bool {
        resources_have(self.resources@, r_id)
    }

    /// The relayer vote threshold in force: the one set, else the runtime's default.
    pub open spec fn threshold(self) -> u32 {
        match self.relayer_threshold {
            Some(t) => t,
            None => RELAYER_VOTE_THRESHOLD,
        }
    }

    /// The bridge with nothing configured.
    pub fn new() -> (b: BridgeState)
        ensures
            b.is_unconfigured(),
            b.wf(),
    {
        BridgeState {
            relayer_threshold: None,
            relayers: Vec::new(),
            whitelisted_chains: Vec::new(),
            resources: Vec::new(),
        }
    }

    /// The relayer vote threshold in force.
    pub fn get_threshold(&self) -> (t: u32)
        ensures
            t == self.threshold(),
    {
        match self.relayer_threshold {
            Some(t) => t,
            None => RELAYER_VOTE_THRESHOLD,
        }
    }

    /// Whether the resource `r_id` is registered.
    pub fn resource_exists(&self, r_id: &ResourceId) -> (r: bool)
        ensures
            r == self.has_resource(r_id@),
    {
        let n = self.resources.len();
        let mut i: usize = 0;
        while i < n
            invariant
                n == self.resources@.len(),
                i <= n,
                forall|k: int| 0 <= k < i ==> #[trigger] self.resources@[k].0@ != r_id@,
            decreases n - i,
        {
            if ids_equal(&self.resources[i].0, r_id) {
                return true;
            }
            i = i + 1;
        }
        false
    }

    /// Whether `who` is a relayer.
    pub fn is_relayer(&self, who: u64) -> (r: bool)
        ensures
            r == self.relayers@.contains(who),
    {
        let n = self.relayers.len();
        let mut i: usize = 0;
        while i < n
            invariant
                n == self.relayers@.len(),
                i <= n,
                forall|k: int| 0 <= k < i ==> self.relayers@[k] != who,
            decreases n - i,
        {
            if self.relayers[i] == who {
                return true;
            }
            i = i + 1;
        }
        false
    }

    /// Whether chain `id` is whitelisted.
    pub fn chain_whitelisted(&self, id: ChainId) -> (r: bool)
        ensures
            r == self.whitelisted_chains@.contains(id),
    {
        let n = self.whitelisted_chains.len();
        let mut i: usize = 0;
        while i < n
            invariant
                n == self.whitelisted_chains@.len(),
                i <= n,
                forall|k: int| 0 <= k < i ==> self.whitelisted_chains@[k] != id,
            decreases n - i,
        {
            if self.whitelisted_chains[i] == id {
                return true;
            }
            i = i + 1;
        }
        false
    }

    /// Sets the relayer vote threshold; refused when it is zero.
    pub fn set_threshold(&mut self, threshold: u32) -> (r: Result<(), BridgeError>)
        requires
            old(self).wf(),
        ensures
            final(self).wf(),
            threshold_outcome(*old(self), *final(self), threshold, r),
    {
        if threshold == 0 {
            return Err(BridgeError::InvalidThreshold);
        }
        self.relayer_threshold = Some(threshold);
        Ok(())
    }

    /// Adds relayer `who`; refused when it is a relayer already.
    pub fn add_relayer(&mut self, who: u64) -> (r: Result<(), BridgeError>)
        requires
            old(self).wf(),
        ensures
            final(self).wf(),
            relayer_outcome(*old(self), *final(self), who, r),
    {
        if self.is_relayer(who) {
            return Err(BridgeError::RelayerAlreadyExists);
        }
        self.relayers.push(who);
        proof {
            assert forall|i: int, j: int|
                0 <= i < self.relayers@.len() && 0 <= j < self.relayers@.len() && i != j implies
                self.relayers@[i] != self.relayers@[j] by {
                if j == self.relayers@.len() - 1 {
                    assert(old(self).relayers@[i] == self.relayers@[i]);
                } else if i == self.relayers@.len() - 1 {
                    assert(old(self).relayers@[j] == self.relayers@[j]);
                }
            }
        }
        Ok(())
    }

    /// Allows chain `id` to bridge; refused for the runtime's own chain and
    /// for a chain whitelisted already.
    pub fn whitelist_chain(&mut self, id: ChainId) -> (r: Result<(), BridgeError>)
        requires
            old(self).wf(),
        ensures
            final(self).wf(),
            whitelist_outcome(*old(self), *final(self), id, r),
    {
        if id == MOCK_CHAIN_ID {
            return Err(BridgeError::InvalidChainId);
        }
        if self.chain_whitelisted(id) {
            return Err(BridgeError::ChainAlreadyWhitelisted);
        }
        self.whitelisted_chains.push(id);
        proof {
            let s = self.whitelisted_chains@;
            assert forall|i: int, j: int|
                0 <= i < s.len() && 0 <= j < s.len() && i != j implies s[i] != s[j] by {
                if j == s.len() - 1 {
                    assert(old(self).whitelisted_chains@[i] == s[i]);
                } else if i == s.len() - 1 {
                    assert(old(self).whitelisted_chains@[j] == s[j]);
                }
            }
        }
        Ok(())
    }

    /// Registers resource `r_id` with `method`, replacing what it held if it
    /// was registered already.
    pub fn set_resource(&mut self, r_id: ResourceId, method: Vec<u8>)
        requires
            old(self).wf(),
        ensures
            final(self).wf(),
            resource_outcome(*old(self), *final(self), r_id, method),
    {
        let n = self.resources.len();
        let mut i: usize = 0;
        while i < n
            invariant
                n == self.resources@.len(),
                i <= n,
                *self == *old(self),
                old(self).wf(),
                forall|k: int| 0 <= k < i ==> #[trigger] self.resources@[k].0@ != r_id@,
            decreases n - i,
        {
            if ids_equal(&self.resources[i].0, &r_id) {
                self.resources.set(i, (r_id, method));
                proof {
                    let s = self.resources@;
                    let o = old(self).resources@;
                    assert forall|a: int, b: int| 0 <= a < b < s.len() implies #[trigger] s[a].0@
                        != #[trigger] s[b].0@ by {
                        if a == i {
                            assert(o[b].0@ != o[a].0@);
                        } else if b == i {
                            assert(o[a].0@ != o[b].0@);
                        } else {
                            assert(o[a].0@ != o[b].0@);
                        }
                    }
                }
                return;
            }
            i = i + 1;
        }
        self.resources.push((r_id, method));
        proof {
            let s = self.resources@;
            let o = old(self).resources@;
            assert forall|a: int, b: int| 0 <= a < b < s.len() implies #[trigger] s[a].0@
                != #[trigger] s[b].0@ by {
                if b == s.len() - 1 {
                    assert(s[a].0@ == o[a].0@);
                } else {
                    assert(o[a].0@ != o[b].0@);
                }
            }
        }
    }
}

impl Externalities {
    /// The log after depositing `e`: at block zero, as at genesis, no event is recorded.
    pub open spec fn log_after(self, e: RuntimeEvent) -> Seq<RuntimeEvent> {
        if self.block_number == 0 {
            self.events@
        } else {
            self.events@.push(e)
        }
    }

    /// The runtime includes the chain bridge, with well-formed storage.
    pub open spec fn has_bridge(self) -> bool {
        self.bridge matches Some(b) && b.wf()
    }

    /// The storage is that of `old` but for the bridge, which is `Some`, and the log.
    pub open spec fn same_but_bridge(self, old: Externalities) -> bool {
        &&& self.block_number == old.block_number
        &&& self.balances == old.balances
        &&& self.has_bridge()
    }

    /// Deposits event `e`.
    pub fn deposit_event(&mut self, e: RuntimeEvent)
        ensures
            final(self).events@ == old(self).log_after(e),
            final(self).block_number == old(self).block_number,
            final(self).balances == old(self).balances,
            final(self).bridge == old(self).bridge,
    {
        if self.block_number != 0 {
            self.events.push(e);
        }
    }

    /// Calls the bridge's `set_threshold`, depositing its event where it succeeds.
    pub fn set_threshold(&mut self, threshold: u32) -> (r: Result<(), BridgeError>)
        requires
            old(self).has_bridge(),
        ensures
            final(self).same_but_bridge(*old(self)),
            threshold_outcome(old(self).bridge.unwrap(), final(self).bridge.unwrap(), threshold, r),
            final(self).events@ == (if r is Ok {
                old(self).log_after(
                    RuntimeEvent::ChainBridge(BridgeEvent::RelayerThresholdChanged(threshold)),
                )
            } else {
                old(self).events@
            }),
    {
        let r = match &mut self.bridge {
            Some(b) => b.set_threshold(threshold),
            None => Err(BridgeError::InvalidThreshold),
        };
        if r.is_ok() {
            self.deposit_event(
                RuntimeEvent::ChainBridge(BridgeEvent::RelayerThresholdChanged(threshold)),
            );
        }
        r
    }

    /// Calls the bridge's `add_relayer`, depositing its event where it succeeds.
    pub fn add_relayer(&mut self, who: u64) -> (r: Result<(), BridgeError>)
        requires
            old(self).has_bridge(),
        ensures
            final(self).same_but_bridge(*old(self)),
            relayer_outcome(old(self).bridge.unwrap(), final(self).bridge.unwrap(), who, r),
            final(self).events@ == (if r is Ok {
                old(self).log_after(RuntimeEvent::ChainBridge(BridgeEvent::RelayerAdded(who)))
            } else {
                old(self).events@
            }),
    {
        let r = match &mut self.bridge {
            Some(b) => b.add_relayer(who),
            None => Err(BridgeError::RelayerAlreadyExists),
        };
        if r.is_ok() {
            self.deposit_event(RuntimeEvent::ChainBridge(BridgeEvent::RelayerAdded(who)));
        }
        r
    }

    /// Calls the bridge's `whitelist_chain`, depositing its event where it succeeds.
    pub fn whitelist_chain(&mut self, id: ChainId) -> (r: Result<(), BridgeError>)
        requires
            old(self).has_bridge(),
        ensures
            final(self).same_but_bridge(*old(self)),
            whitelist_outcome(old(self).bridge.unwrap(), final(self).bridge.unwrap(), id, r),
            final(self).events@ == (if r is Ok {
                old(self).log_after(RuntimeEvent::ChainBridge(BridgeEvent::ChainWhitelisted(id)))
            } else {
                old(self).events@
            }),
    {
        let r = match &mut self.bridge {
            Some(b) => b.whitelist_chain(id),
            None => Err(BridgeError::InvalidChainId),
        };
        if r.is_ok() {
            self.deposit_event(RuntimeEvent::ChainBridge(BridgeEvent::ChainWhitelisted(id)));
        }
        r
    }

    /// Calls the bridge's `set_resource`, which deposits no event.
    pub fn set_resource(&mut self, r_id: ResourceId, method: Vec<u8>)
        requires
            old(self).has_bridge(),
        ensures
            final(self).same_but_bridge(*old(self)),
            resource_outcome(old(self).bridge.unwrap(), final(self).bridge.unwrap(), r_id, method),
            final(self).events == old(self).events,
    {
        match &mut self.bridge {
            Some(b) => b.set_resource(r_id, method),
            None => {},
        }
    }
}

/// Whether two resource identifiers hold the same bytes.
fn ids_equal(a: &ResourceId, b: &ResourceId) -> (r: bool)
    ensures
        r == (a@ == b@),
{
    let mut i: usize = 0;
    while i < 32
        invariant
            i <= 32,
            a@.len() == 32,
            b@.len() == 32,
            forall|k: int| 0 <= k < i ==> a@[k] == b@[k],
        decreases 32 - i,
    {
        if a[i] != b[i] {
            return false;
        }
        i = i + 1;
    }
    assert(a@ =~= b@);
    true
}

} // verus!
