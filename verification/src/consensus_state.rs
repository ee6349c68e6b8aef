//! Consensus-state snapshots recorded per trusted height.

use vstd::prelude::*;
use crate::bytes::clone_bytes;

verus! {

/// Mathematical model of [`ConsensusState`].
pub ghost struct ConsensusStateView {
    pub timestamp: u64,
    pub root: Seq<u8>,
    pub next_validators_hash: Seq<u8>,
}

/// A snapshot of the tracked chain at one trusted height: the block time,
/// the commitment root against which Merkle proofs are checked, and the hash
/// of the validator set expected to sign the next block.
#[derive(Clone, Debug, PartialEq, Eq)]
pub struct ConsensusState {
    /// Block time, in nanoseconds since the unix epoch.
    pub timestamp: u64,
    /// Commitment root (app hash) of the tracked chain at this height.
    pub root: Vec<u8>,
    /// Hash of the validator set for the following block.
    pub next_validators_hash: Vec<u8>,
}

impl View for ConsensusState {
    type V = ConsensusStateView;

    open spec fn view(&self) -> ConsensusStateView {
        ConsensusStateView {
            timestamp: self.timestamp,
            root: self.root@,
            next_validators_hash: self.next_validators_hash@,
        }
    }
}

impl ConsensusState {
    pub fn new(timestamp: u64, root: Vec<u8>, next_validators_hash: Vec<u8>) -> (r: ConsensusState)
        ensures
            r@.timestamp == timestamp,
            r@.root == root@,
            r@.next_validators_hash == next_validators_hash@,
    {
        ConsensusState { timestamp, root, next_validators_hash }
    }

    /// Copies the consensus state; the copy models the same snapshot.
    pub fn clone_value(&self) -> (r: ConsensusState)
        ensures
            r@ == self@,
    {
        ConsensusState {
            timestamp: self.timestamp,
            root: clone_bytes(&self.root),
            next_validators_hash: clone_bytes(&self.next_validators_hash),
        }
    }
}

/// The tagged union of consensus-state variants this client can hold. The
/// Rollkit client records Tendermint-shaped consensus states only; decoding
/// dispatches on the envelope's type URL and rejects every other variant.
#[derive(Clone, Debug, PartialEq, Eq)]
pub enum AnyConsensusState {
    Rollkit(ConsensusState),
}

impl View for AnyConsensusState {
    type V = ConsensusStateView;

    open spec fn view(&self) -> ConsensusStateView {
        match self {
            AnyConsensusState::Rollkit(cs) => cs@,
        }
    }
}

impl AnyConsensusState {
    /// The consensus state held by the union.
    pub fn into_inner(self) -> (r: ConsensusState)
        ensures
            r@ == self@,
    {
        match self {
            AnyConsensusState::Rollkit(cs) => cs,
        }
    }
}

} // verus!
