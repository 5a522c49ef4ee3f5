use vstd::prelude::*;

verus! {

/// The cost of a dispatchable call, in its two dimensions: computation time
/// and the size of the proof that the call needs.
#[derive(Clone, Copy, Debug, PartialEq, Eq, Structural)]
pub struct Weight {
    pub ref_time: u64,
    pub proof_size: u64,
}

impl Weight {
    /// The weight with the given time and proof size.
    pub fn from_parts(ref_time: u64, proof_size: u64) -> (w: Weight)
        ensures
            w.ref_time == ref_time,
            w.proof_size == proof_size,
    {
        Weight { ref_time, proof_size }
    }

    /// Whether both components are zero.
    pub open spec fn is_zero(self) -> bool {
        self.ref_time == 0 && self.proof_size == 0
    }
}

} // verus!
