//! The mining worker: the one piece of state that the block-proposal
//! pipeline and the mining coordinator share.

use vstd::prelude::*;
use crate::h256::H256;
use crate::u256::U256;

verus! {

/// What a miner needs to know of the block that is being built.
#[derive(Clone, Copy, Debug, PartialEq, Eq)]
pub struct MiningMetadata {
    pub number: u64,
    pub pre_hash: H256,
    pub difficulty: U256,
}

/// A candidate block: its metadata and the proposal, which this library
/// carries and never reads.
pub struct MiningBuild<B> {
    pub metadata: MiningMetadata,
    pub proposal: B,
}

/// A candidate block with its seal, ready to be finalized.
pub struct SealedBlock<B> {
    pub metadata: MiningMetadata,
    pub proposal: B,
    pub seal: Vec<u8>,
}

/// Holds the candidate that is being mined, if there is one.
pub struct MiningWorker<B> {
    build: Option<MiningBuild<B>>,
}

impl<B> MiningWorker<B> {
    /// The candidate that is being mined.
    pub closed spec fn candidate(&self) -> Option<MiningBuild<B>> {
        self.build
    }

    /// The metadata of the candidate that is being mined.
    pub open spec fn current(&self) -> Option<MiningMetadata> {
        match self.candidate() {
            Some(build) => Some(build.metadata),
            None => None,
        }
    }

    /// A worker with no candidate.
    pub fn new() -> (r: Self)
        ensures
            r.candidate() is None,
    {
        MiningWorker { build: None }
    }

    /// Replaces the candidate wholesale, when the node begins to assemble a
    /// new block.
    pub fn on_build(&mut self, metadata: MiningMetadata, proposal: B)
        ensures
            final(self).candidate() == Some(MiningBuild { metadata, proposal }),
    {
        self.build = Some(MiningBuild { metadata, proposal });
    }

    /// Gives the candidate up, when the node falls behind the chain and
    /// syncs: what was being built is stale.
    pub fn on_major_syncing(&mut self)
        ensures
            final(self).candidate() is None,
    {
        self.build = None;
    }

    /// A snapshot of the candidate's metadata; nothing before the first
    /// candidate was built.
    pub fn metadata(&self) -> (r: Option<MiningMetadata>)
        ensures
            r == self.current(),
    {
        match &self.build {
            Some(build) => Some(build.metadata),
            None => None,
        }
    }

    /// Attaches a seal to the candidate and takes it out of the worker, to be
    /// handed to finalization. Without a candidate nothing is returned and
    /// nothing changes. A candidate leaves the worker once: a second seal for
    /// the same candidate finds nothing.
    pub fn submit(&mut self, seal: Vec<u8>) -> (r: Option<SealedBlock<B>>)
        ensures
            final(self).candidate() is None,
            match old(self).candidate() {
                Some(build) => r == Some(
                    SealedBlock { metadata: build.metadata, proposal: build.proposal, seal },
                ),
                None => r is None,
            },
    {
        match self.build.take() {
            Some(build) => Some(
                SealedBlock { metadata: build.metadata, proposal: build.proposal, seal },
            ),
            None => None,
        }
    }
}

} // verus!
