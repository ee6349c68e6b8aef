//! The error taxonomy of the light client.
//!
//! Every operation either fully succeeds or returns one of these errors to
//! the host, which rolls back the enclosing transaction; the client never
//! recovers from an error locally.

use vstd::prelude::*;
use crate::height::Height;

verus! {

/// Errors surfaced by the light client's codec, verification engine and
/// state machine.
#[derive(Clone, Copy, Debug, PartialEq, Eq, Structural)]
pub enum ContractError {
    /// The `Any` envelope's type URL matches no registered domain type.
    UnknownTypeUrl,
    /// Protobuf decoding failed structurally: truncated input, a wrong wire
    /// type, a non-canonical varint, or trailing bytes.
    MalformedEncoding,
    /// A required sub-message was absent from the envelope.
    MissingField,
    /// The consensus state offered at instantiation or upgrade does not
    /// decode to the expected consensus-state type.
    UnknownConsensusStateType,
    /// A candidate consensus state carries an empty commitment root.
    InvalidConsensusState,
    /// A proof was supplied for a height above the client's latest height.
    ProofHeightTooHigh { latest_height: Height, proof_height: Height },
    /// The client message is neither a header nor a misbehaviour message.
    InvalidUpdateClientMessage,
    /// A host message is structurally invalid: a required part is absent,
    /// such as an empty key path.
    InvalidMsg,
    /// The header's own fields are inconsistent with its trusted fields.
    InvalidHeader,
    /// The upgraded client's height does not exceed the current latest height.
    LowUpgradeHeight { latest_height: Height, upgraded_height: Height },
    /// No upgrade path is configured, so the client cannot be upgraded.
    MissingUpgradePath,
    /// The substitute client state differs from the subject in a field other
    /// than frozen height, latest height, trusting period or chain id.
    SubstituteMismatch,
    /// The client is frozen; no update may succeed until recovery.
    FrozenClient,
    /// The supplied proof bytes cannot be parsed as a commitment proof.
    InvalidProofBytes,
    /// Cryptographic verification of a Merkle proof failed.
    ProofVerificationFailed,
    /// The data-availability inclusion proof failed to verify against the
    /// companion DA light client.
    DaProofVerificationFailed,
    /// Consensus-layer verification of a Tendermint header failed.
    ConsensusVerificationFailed,
    /// No client state is stored for the client instance.
    MissingClientState,
    /// No consensus state is stored at the requested height.
    MissingConsensusState,
    /// No update metadata is recorded at the requested height.
    MissingUpdateMeta,
}

} // verus!
