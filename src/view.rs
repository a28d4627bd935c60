//! The consensus engine's snapshot of the burn chain: its tip and its stable
//! tip, each with the consensus hash bound to its height.

use vstd::prelude::*;

use crate::ids::ConsensusHash;

verus! {

/// Snapshot of the burn chain's tip and stable tip.
#[derive(Clone, Copy, Debug, PartialEq)]
pub struct BurnchainView {
    /// Height of the chain tip.
    pub burn_block_height: u64,
    /// Consensus hash at the chain tip.
    pub burn_consensus_hash: ConsensusHash,
    /// Height of the latest stable block.
    pub burn_stable_block_height: u64,
    /// Consensus hash at the stable block.
    pub burn_stable_consensus_hash: ConsensusHash,
}

/// Why a view was refused.
#[derive(Clone, Copy, Debug, PartialEq, Eq, Structural)]
pub enum ViewError {
    /// The stable tip stands above the chain tip.
    StableAboveTip,
    /// The chain tip is lower than in the view that came before.
    HeightDecreased,
}

impl BurnchainView {
    /// The stable tip is no higher than the chain tip.
    pub open spec fn wf(&self) -> bool {
        self.burn_stable_block_height <= self.burn_block_height
    }

    /// Builds a view, refusing a stable tip above the chain tip.
    pub fn new(
        burn_block_height: u64,
        burn_consensus_hash: ConsensusHash,
        burn_stable_block_height: u64,
        burn_stable_consensus_hash: ConsensusHash,
    ) -> (r: Result<BurnchainView, ViewError>)
        ensures
            r is Ok <==> burn_stable_block_height <= burn_block_height,
            r matches Err(e) ==> e == ViewError::StableAboveTip,
            r matches Ok(v) ==> v == (BurnchainView {
                burn_block_height,
                burn_consensus_hash,
                burn_stable_block_height,
                burn_stable_consensus_hash,
            }),
    {
        if burn_stable_block_height > burn_block_height {
            Err(ViewError::StableAboveTip)
        } else {
            Ok(
                BurnchainView {
                    burn_block_height,
                    burn_consensus_hash,
                    burn_stable_block_height,
                    burn_stable_consensus_hash,
                },
            )
        }
    }

    /// Whether this view may follow `prev`: both are well formed and the chain
    /// tip did not go down.
    pub fn follows(&self, prev: &BurnchainView) -> (r: bool)
        ensures
            r == (prev.wf() && self.wf() && prev.burn_block_height <= self.burn_block_height),
    {
        prev.burn_stable_block_height <= prev.burn_block_height
            && self.burn_stable_block_height <= self.burn_block_height
            && prev.burn_block_height <= self.burn_block_height
    }
}

/// Every view in `s` is well formed and no view's tip is below its
/// predecessor's.
pub open spec fn is_view_sequence(s: Seq<BurnchainView>) -> bool {
    &&& forall|i: int| 0 <= i < s.len() ==> (#[trigger] s[i]).wf()
    &&& forall|i: int|
        0 < i < s.len() ==> #[trigger] s[i - 1].burn_block_height <= s[i].burn_block_height
}

/// Checks a run of successively observed views.
pub fn check_view_sequence(views: &[BurnchainView]) -> (r: Result<(), ViewError>)
    ensures
        r is Ok <==> is_view_sequence(views@),
        r matches Err(e) ==> (e == ViewError::StableAboveTip <==> exists|i: int|
            0 <= i < views@.len() && !(#[trigger] views@[i]).wf()),
{
    let mut i: usize = 0;
    while i < views.len()
        invariant
            i <= views@.len(),
            forall|j: int| 0 <= j < i ==> (#[trigger] views@[j]).wf(),
        decreases views@.len() - i,
    {
        if views[i].burn_stable_block_height > views[i].burn_block_height {
            return Err(ViewError::StableAboveTip);
        }
        i = i + 1;
    }
    let mut k: usize = 1;
    while k < views.len()
        invariant
            1 <= k,
            forall|j: int| 0 <= j < views@.len() ==> (#[trigger] views@[j]).wf(),
            forall|j: int|
                0 < j < k && j < views@.len() ==> #[trigger] views@[j - 1].burn_block_height
                    <= views@[j].burn_block_height,
        decreases views@.len() - k,
    {
        if views[k - 1].burn_block_height > views[k].burn_block_height {
            return Err(ViewError::HeightDecreased);
        }
        k = k + 1;
    }
    Ok(())
}

/// In a run of successively observed views, every stable tip is at most its
/// chain tip, and the chain tip never goes down from any view to any later one.
pub proof fn lemma_view_heights_monotone(s: Seq<BurnchainView>, i: int, j: int)
    requires
        is_view_sequence(s),
        0 <= i <= j < s.len(),
    ensures
        s[i].burn_stable_block_height <= s[i].burn_block_height,
        s[i].burn_block_height <= s[j].burn_block_height,
    decreases j - i,
{
    assert(s[i].wf());
    if i < j {
        lemma_view_heights_monotone(s, i, j - 1);
        assert(s[j - 1].burn_block_height <= s[j].burn_block_height);
    }
}

} // verus!
