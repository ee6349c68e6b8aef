//! A light client for Rollkit rollups speaking the IBC protocol.
//!
//! The crate is organised as a deterministic state-transition module: the
//! wire codec decodes protobuf `Any` envelopes into typed domain values, the
//! verification engine checks headers, misbehaviour evidence and Merkle
//! proofs, and the state machine applies lifecycle transitions (initialise,
//! update, freeze, upgrade, recovery) through a store context.

pub mod bytes;
pub mod client_message;
pub mod client_state;
pub mod client_type;
pub mod codec;
pub mod consensus_state;
pub mod context;
pub mod contract;
pub mod da_data;
pub mod da_params;
pub mod error;
pub mod execution;
pub mod header;
pub mod height;
pub mod msg;
pub mod trusted;
pub mod verification;

pub use client_message::{ClientMessage, Misbehaviour};
pub use contract::{execute, instantiate, query, QueryResponse};
pub use msg::{
    Base64, CheckForMisbehaviourMsg, CheckForMisbehaviourMsgRaw, CheckSubstituteAndUpdateStateMsg,
    InstantiateMsg, MerklePath, MigrateClientStoreMsg, QueryMsg, StatusMsg, ExportMetadataMsg,
    SudoMsg, TimestampAtHeightMsg, UpdateStateMsg, UpdateStateMsgRaw, UpdateStateOnMisbehaviourMsg,
    UpdateStateOnMisbehaviourMsgRaw, VerifyClientMessageMsg, VerifyClientMessageRaw,
    VerifyMembershipMsg, VerifyMembershipMsgRaw, VerifyNonMembershipMsg, VerifyNonMembershipMsgRaw,
    VerifyUpgradeAndUpdateStateMsg, VerifyUpgradeAndUpdateStateMsgRaw,
};
pub use verification::Status;
pub use client_state::{ClientState, TendermintClientParams};
pub use client_type::RollkitClient;
pub use consensus_state::{AnyConsensusState, ConsensusState};
pub use da_data::DaData;
pub use da_params::DaParams;
pub use context::Context;
pub use error::ContractError;
pub use header::{Header, TendermintHeader};
pub use height::Height;
