//! Headers submitted to update the client: a Tendermint consensus header
//! paired with data-availability evidence.

use vstd::prelude::*;
use crate::height::Height;
use crate::da_data::{DaData, DaDataView};
use crate::consensus_state::{ConsensusState, ConsensusStateView};
use crate::error::ContractError;

verus! {

/// Mathematical model of [`TendermintHeader`].
pub ghost struct TendermintHeaderView {
    pub chain_id: Seq<u8>,
    pub height: Height,
    pub timestamp: u64,
    pub trusted_height: Height,
    pub next_validators_hash: Seq<u8>,
    pub commitment_root: Seq<u8>,
    pub evidence: Seq<u8>,
}

impl TendermintHeaderView {
    /// The consensus state this header installs when accepted.
    pub open spec fn consensus_state(self) -> ConsensusStateView {
        ConsensusStateView {
            timestamp: self.timestamp,
            root: self.commitment_root,
            next_validators_hash: self.next_validators_hash,
        }
    }

    /// Field-level consistency of a header: the trusted height lies in the
    /// same revision strictly below the header's height, the header carries
    /// a positive timestamp and 32-byte hashes, and its height is positive.
    pub open spec fn basic_valid(self) -> bool {
        &&& self.trusted_height.revision_number == self.height.revision_number
        &&& self.trusted_height.spec_lt(self.height)
        &&& self.height.revision_height > 0
        &&& self.timestamp > 0
        &&& self.next_validators_hash.len() == 32
        &&& self.commitment_root.len() == 32
    }
}

/// The consensus part of a submitted header, modelled by the fields the
/// client's logic reads. The raw signed header and validator sets travel in
/// `evidence`, which only the embedded Tendermint stack interprets;
/// verification accepts the header only when every plain field here equals
/// what that evidence itself asserts.
#[derive(Clone, Debug, PartialEq, Eq)]
pub struct TendermintHeader {
    /// Identifier of the chain that produced the header.
    pub chain_id: Vec<u8>,
    /// Height of the new block.
    pub height: Height,
    /// Block time, in nanoseconds since the unix epoch.
    pub timestamp: u64,
    /// Height of the already-trusted consensus state this update builds on.
    pub trusted_height: Height,
    /// Hash of the validator set for the following block.
    pub next_validators_hash: Vec<u8>,
    /// Commitment root (app hash) committed by this header.
    pub commitment_root: Vec<u8>,
    /// Protobuf-encoded signed header and validator sets, checked by the
    /// embedded Tendermint verification capability.
    pub evidence: Vec<u8>,
}

impl View for TendermintHeader {
    type V = TendermintHeaderView;

    open spec fn view(&self) -> TendermintHeaderView {
        TendermintHeaderView {
            chain_id: self.chain_id@,
            height: self.height,
            timestamp: self.timestamp,
            trusted_height: self.trusted_height,
            next_validators_hash: self.next_validators_hash@,
            commitment_root: self.commitment_root@,
            evidence: self.evidence@,
        }
    }
}

impl TendermintHeader {
    /// Checks the field-level consistency of the header; succeeds exactly
    /// when the model-level consistency holds.
    pub fn validate_basic(&self) -> (r: Result<(), ContractError>)
        ensures
            r is Ok <==> self@.basic_valid(),
            r is Err ==> r == Result::<(), ContractError>::Err(ContractError::InvalidHeader),
    {
        if self.trusted_height.revision_number == self.height.revision_number
            && self.trusted_height.lt(&self.height)
            && self.height.revision_height > 0
            && self.timestamp > 0
            && self.next_validators_hash.len() == 32
            && self.commitment_root.len() == 32 {
            Ok(())
        } else {
            Err(ContractError::InvalidHeader)
        }
    }

    /// The consensus state this header installs when accepted.
    pub fn consensus_state(&self) -> (r: ConsensusState)
        ensures
            r@ == self@.consensus_state(),
    {
        ConsensusState {
            timestamp: self.timestamp,
            root: self.commitment_root.clone(),
            next_validators_hash: self.next_validators_hash.clone(),
        }
    }
}

/// Mathematical model of [`Header`].
pub ghost struct HeaderView {
    pub tendermint_header: TendermintHeaderView,
    pub da_data: DaDataView,
}

/// A header of the tracked rollup: the embedded Tendermint consensus header
/// together with the proof that the block data was published on the
/// data-availability layer. A header is accepted only if both parts verify.
#[derive(Clone, Debug, PartialEq, Eq)]
pub struct Header {
    /// The embedded Tendermint consensus header.
    pub tendermint_header: TendermintHeader,
    /// The data-availability inclusion evidence.
    pub da_data: DaData,
}

impl View for Header {
    type V = HeaderView;

    open spec fn view(&self) -> HeaderView {
        HeaderView { tendermint_header: self.tendermint_header@, da_data: self.da_data@ }
    }
}

impl Header {
    /// Block time of the embedded consensus header, in nanoseconds.
    pub fn timestamp(&self) -> (r: u64)
        ensures
            r == self@.tendermint_header.timestamp,
    {
        self.tendermint_header.timestamp
    }

    /// Height of the embedded consensus header.
    pub fn height(&self) -> (r: Height)
        ensures
            r == self@.tendermint_header.height,
    {
        self.tendermint_header.height
    }

    /// Checks that the header's fields are consistent with its trusted
    /// fields; succeeds exactly when the model-level consistency holds.
    pub fn validate_basic(&self) -> (r: Result<(), ContractError>)
        ensures
            r is Ok <==> self@.tendermint_header.basic_valid(),
            r is Err ==> r == Result::<(), ContractError>::Err(ContractError::InvalidHeader),
    {
        self.tendermint_header.validate_basic()
    }
}

} // verus!
