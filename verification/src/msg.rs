//! The messages the host runtime sends to the client: the instantiation
//! payload, the mutating sudo-class operations and the read-only queries,
//! together with their typed forms and the verified conversions between
//! raw and typed messages.

use vstd::prelude::*;
use base64::Engine;
use vstd::string::{StrSliceExecFns, StringSliceAdditionalSpecFns};
use crate::client_message::ClientMessage;
use crate::client_state::ClientState;
use crate::codec::spec_dec_client_message;
use crate::consensus_state::ConsensusState;
use crate::error::ContractError;
use crate::height::Height;

verus! {

/// The base64 text of a byte sequence, as the standard alphabet with
/// padding renders it; a function of the bytes alone.
pub uninterp spec fn base64_of(b: Seq<u8>) -> Seq<char>;

/// The bytes a base64 text decodes to under the standard alphabet, if it
/// decodes at all; a function of the text alone.
pub uninterp spec fn base64_decoded(s: Seq<char>) -> Option<Seq<u8>>;

/// Helper for the base64 framing of byte fields in host messages.
#[derive(Clone, Copy, Debug, PartialEq, Eq, Structural)]
pub struct Base64;

impl Base64 {
    /// Relies on `base64::Engine::encode` with the standard alphabet: the
    /// text is the base64 rendering of the bytes, and decoding it yields
    /// the bytes back.
    #[verifier::external_body]
    pub fn encode(bytes: &Vec<u8>) -> (r: String)
        ensures
            r@ == base64_of(bytes@),
            base64_decoded(r@) == Some(bytes@),
    {
        base64::engine::general_purpose::STANDARD.encode(bytes)
    }

    /// Relies on `base64::Engine::decode` with the standard alphabet: the
    /// result is exactly what the text decodes to, when it decodes.
    #[verifier::external_body]
    pub fn decode(text: &str) -> (r: Option<Vec<u8>>)
        ensures
            match r {
                Some(b) => base64_decoded(text@) == Some(b@),
                None => base64_decoded(text@) is None,
            },
    {
        base64::engine::general_purpose::STANDARD.decode(text.as_bytes()).ok()
    }
}

/// The one-time instantiation payload: the initial client state and
/// consensus state as encoded envelopes, and the code checksum.
#[derive(Clone, Debug, PartialEq, Eq)]
pub struct InstantiateMsg {
    /// Encoded envelope of the initial client state.
    pub client_state: Vec<u8>,
    /// Encoded envelope of the initial consensus state.
    pub consensus_state: Vec<u8>,
    /// Checksum of the client code, recorded by the host.
    pub checksum: Vec<u8>,
}

/// The mutating operations the host invokes after instantiation.
#[derive(Clone, Debug, PartialEq, Eq)]
pub enum SudoMsg {
    UpdateState(UpdateStateMsgRaw),
    UpdateStateOnMisbehaviour(UpdateStateOnMisbehaviourMsgRaw),
    VerifyUpgradeAndUpdateState(VerifyUpgradeAndUpdateStateMsgRaw),
    VerifyMembership(VerifyMembershipMsgRaw),
    VerifyNonMembership(VerifyNonMembershipMsgRaw),
    MigrateClientStore(MigrateClientStoreMsg),
}

/// Raw update request: an encoded client message.
#[derive(Clone, Debug, PartialEq, Eq)]
pub struct UpdateStateMsgRaw {
    /// Encoded envelope of the client message.
    pub client_message: Vec<u8>,
}

/// Typed update request.
#[derive(Clone, Debug, PartialEq, Eq)]
pub struct UpdateStateMsg {
    /// The decoded client message.
    pub client_message: ClientMessage,
}

impl UpdateStateMsg {
    /// Decodes the raw update request.
    pub fn try_from(raw: UpdateStateMsgRaw) -> (r: Result<UpdateStateMsg, ContractError>)
        ensures
            match r {
                Ok(m) => spec_dec_client_message(raw.client_message@) == Ok::<
                    crate::client_message::ClientMessageView,
                    ContractError,
                >(m.client_message@),
                Err(e) => spec_dec_client_message(raw.client_message@) == Err::<
                    crate::client_message::ClientMessageView,
                    ContractError,
                >(e),
            },
    {
        let client_message = match ClientMessage::decode(raw.client_message) {
            Ok(m) => m,
            Err(e) => {
                return Err(e);
            },
        };
        Ok(UpdateStateMsg { client_message })
    }
}

/// Raw freeze request: an encoded client message proving misbehaviour.
#[derive(Clone, Debug, PartialEq, Eq)]
pub struct UpdateStateOnMisbehaviourMsgRaw {
    /// Encoded envelope of the client message.
    pub client_message: Vec<u8>,
}

/// Typed freeze request.
#[derive(Clone, Debug, PartialEq, Eq)]
pub struct UpdateStateOnMisbehaviourMsg {
    /// The decoded client message.
    pub client_message: ClientMessage,
}

impl UpdateStateOnMisbehaviourMsg {
    /// Decodes the raw freeze request.
    pub fn try_from(raw: UpdateStateOnMisbehaviourMsgRaw) -> (r: Result<
        UpdateStateOnMisbehaviourMsg,
        ContractError,
    >)
        ensures
            match r {
                Ok(m) => spec_dec_client_message(raw.client_message@) == Ok::<
                    crate::client_message::ClientMessageView,
                    ContractError,
                >(m.client_message@),
                Err(e) => spec_dec_client_message(raw.client_message@) == Err::<
                    crate::client_message::ClientMessageView,
                    ContractError,
                >(e),
            },
    {
        let client_message = match ClientMessage::decode(raw.client_message) {
            Ok(m) => m,
            Err(e) => {
                return Err(e);
            },
        };
        Ok(UpdateStateOnMisbehaviourMsg { client_message })
    }
}

/// Recovery request; the substitute client's store is bound by the host.
#[derive(Clone, Debug, PartialEq, Eq)]
pub struct CheckSubstituteAndUpdateStateMsg {}

/// Raw upgrade request: the upgraded states and their proofs.
#[derive(Clone, Debug, PartialEq, Eq)]
pub struct VerifyUpgradeAndUpdateStateMsgRaw {
    /// Encoded envelope of the upgraded client state.
    pub upgrade_client_state: Vec<u8>,
    /// Encoded envelope of the upgraded consensus state.
    pub upgrade_consensus_state: Vec<u8>,
    /// Commitment proof for the upgraded client state.
    pub proof_upgrade_client: Vec<u8>,
    /// Commitment proof for the upgraded consensus state.
    pub proof_upgrade_consensus_state: Vec<u8>,
}

/// Typed upgrade request.
#[derive(Clone, Debug, PartialEq, Eq)]
pub struct VerifyUpgradeAndUpdateStateMsg {
    /// The decoded upgraded client state.
    pub upgrade_client_state: ClientState,
    /// The decoded upgraded consensus state.
    pub upgrade_consensus_state: ConsensusState,
    /// Commitment proof for the upgraded client state.
    pub proof_upgrade_client: Vec<u8>,
    /// Commitment proof for the upgraded consensus state.
    pub proof_upgrade_consensus_state: Vec<u8>,
}

impl VerifyUpgradeAndUpdateStateMsg {
    /// Decodes the raw upgrade request; empty proof bytes are rejected as
    /// unparseable proofs.
    pub fn try_from(raw: VerifyUpgradeAndUpdateStateMsgRaw) -> (r: Result<
        VerifyUpgradeAndUpdateStateMsg,
        ContractError,
    >)
        ensures
            r is Ok <==> crate::codec::spec_dec_client_state_any(raw.upgrade_client_state@) is Ok
                && crate::codec::spec_dec_consensus_state_any(raw.upgrade_consensus_state@) is Ok
                && raw.proof_upgrade_client@.len() > 0
                && raw.proof_upgrade_consensus_state@.len() > 0,
            crate::codec::spec_dec_client_state_any(raw.upgrade_client_state@) matches Err(e)
                ==> r == Err::<VerifyUpgradeAndUpdateStateMsg, ContractError>(e),
            crate::codec::spec_dec_client_state_any(raw.upgrade_client_state@) is Ok ==> (
            crate::codec::spec_dec_consensus_state_any(raw.upgrade_consensus_state@) matches Err(e)
                ==> r == Err::<VerifyUpgradeAndUpdateStateMsg, ContractError>(e)),
            r matches Ok(m) ==> {
                &&& crate::codec::spec_dec_client_state_any(raw.upgrade_client_state@) == Ok::<
                    crate::client_state::ClientStateView,
                    ContractError,
                >(m.upgrade_client_state@)
                &&& crate::codec::spec_dec_consensus_state_any(raw.upgrade_consensus_state@)
                    == Ok::<crate::consensus_state::ConsensusStateView, ContractError>(
                    m.upgrade_consensus_state@,
                )
                &&& m.proof_upgrade_client@ == raw.proof_upgrade_client@
                &&& m.proof_upgrade_consensus_state@ == raw.proof_upgrade_consensus_state@
                &&& m.proof_upgrade_client@.len() > 0
                &&& m.proof_upgrade_consensus_state@.len() > 0
            },
    {
        let upgrade_client_state = match crate::codec::decode_client_state_any(
            &raw.upgrade_client_state,
        ) {
            Ok(v) => v,
            Err(e) => {
                return Err(e);
            },
        };
        let upgrade_consensus_state = match crate::codec::decode_consensus_state_any(
            &raw.upgrade_consensus_state,
        ) {
            Ok(v) => v.into_inner(),
            Err(e) => {
                return Err(e);
            },
        };
        if raw.proof_upgrade_client.len() == 0 || raw.proof_upgrade_consensus_state.len() == 0 {
            return Err(ContractError::InvalidProofBytes);
        }
        Ok(
            VerifyUpgradeAndUpdateStateMsg {
                upgrade_client_state,
                upgrade_consensus_state,
                proof_upgrade_client: raw.proof_upgrade_client,
                proof_upgrade_consensus_state: raw.proof_upgrade_consensus_state,
            },
        )
    }
}

/// A Merkle path: the commitment prefix followed by the store path
/// segments.
#[derive(Clone, Debug, PartialEq, Eq)]
pub struct MerklePath {
    /// The key path; the first segment is the commitment prefix.
    pub key_path: Vec<String>,
}

/// The concatenation of byte rows without separator.
pub open spec fn spec_concat_rows(rows: Seq<Seq<u8>>) -> Seq<u8>
    decreases rows.len(),
{
    if rows.len() == 0 {
        Seq::<u8>::empty()
    } else {
        rows[0] + spec_concat_rows(rows.subrange(1, rows.len() as int))
    }
}

/// The byte rows of a key path's segments.
pub open spec fn spec_path_bytes(key_path: Seq<Seq<char>>) -> Seq<Seq<u8>> {
    Seq::new(key_path.len(), |i: int| vstd::utf8::encode_utf8(key_path[i]))
}

/// Joins the path segments after the prefix into the store path string's
/// bytes, preserving the exact no-separator joining rule.
pub fn join_path_segments(key_path: &Vec<String>) -> (r: Vec<u8>)
    requires
        key_path@.len() >= 1,
    ensures
        r@ == spec_concat_rows(
            spec_path_bytes(key_path.deep_view()).subrange(
                1,
                key_path.deep_view().len() as int,
            ),
        ),
{
    let ghost rows = spec_path_bytes(key_path.deep_view()).subrange(
        1,
        key_path.deep_view().len() as int,
    );
    let mut out: Vec<u8> = Vec::new();
    let n = key_path.len();
    let mut i: usize = 1;
    while i < n
        invariant
            1 <= i <= n,
            n == key_path@.len(),
            rows == spec_path_bytes(key_path.deep_view()).subrange(
                1,
                key_path.deep_view().len() as int,
            ),
            out@ == spec_concat_rows(rows.subrange(0, i - 1)),
        decreases n - i,
    {
        let mut seg = key_path[i].as_str().as_bytes_vec();
        out.append(&mut seg);
        proof {
            assert(rows[i - 1] == vstd::utf8::encode_utf8(key_path.deep_view()[i as int]));
            lemma_concat_rows_snoc(rows, i - 1);
            assert(out@ =~= spec_concat_rows(rows.subrange(0, i as int)));
        }
        i = i + 1;
    }
    proof {
        assert(rows.subrange(0, rows.len() as int) =~= rows);
    }
    out
}

/// Extending a row prefix by one row appends that row to the
/// concatenation.
proof fn lemma_concat_rows_snoc(rows: Seq<Seq<u8>>, i: int)
    requires
        0 <= i < rows.len(),
    ensures
        spec_concat_rows(rows.subrange(0, i + 1)) == spec_concat_rows(rows.subrange(0, i))
            + rows[i],
    decreases i,
{
    if i == 0 {
        assert(rows.subrange(0, 1)[0] == rows[0]);
        assert(rows.subrange(0, 1).subrange(1, 1) =~= Seq::<Seq<u8>>::empty());
        assert(rows.subrange(0, 0) =~= Seq::<Seq<u8>>::empty());
        assert(spec_concat_rows(Seq::<Seq<u8>>::empty()) == Seq::<u8>::empty());
        assert(spec_concat_rows(rows.subrange(0, 1)) =~= Seq::<u8>::empty() + rows[0]);
    } else {
        let t = rows.subrange(1, rows.len() as int);
        lemma_concat_rows_snoc(t, i - 1);
        assert(rows.subrange(0, i + 1)[0] == rows[0]);
        assert(rows.subrange(0, i + 1).subrange(1, i + 1) =~= t.subrange(0, i));
        assert(rows.subrange(0, i)[0] == rows[0]);
        assert(rows.subrange(0, i).subrange(1, i) =~= t.subrange(0, i - 1));
        assert(t.subrange(0, i)[i - 1] == t[i - 1]);
        assert(t[i - 1] == rows[i]);
        assert(rows[0] + (spec_concat_rows(t.subrange(0, i - 1)) + rows[i]) =~= (rows[0]
            + spec_concat_rows(t.subrange(0, i - 1))) + rows[i]);
    }
}

/// Raw membership-verification request.
#[derive(Clone, Debug, PartialEq, Eq)]
pub struct VerifyMembershipMsgRaw {
    /// The commitment proof bytes.
    pub proof: Vec<u8>,
    /// The key path; the first segment is the commitment prefix.
    pub path: MerklePath,
    /// The value expected under the path.
    pub value: Vec<u8>,
    /// The height whose stored root the proof is checked against.
    pub height: Height,
    /// Delay in blocks before the proof may be accepted.
    pub delay_block_period: u64,
    /// Delay in time before the proof may be accepted.
    pub delay_time_period: u64,
}

/// Typed membership-verification request.
#[derive(Clone, Debug, PartialEq, Eq)]
pub struct VerifyMembershipMsg {
    /// The commitment prefix: the first key-path segment's bytes.
    pub prefix: Vec<u8>,
    /// The commitment proof bytes.
    pub proof: Vec<u8>,
    /// The store path: the remaining segments joined without separator,
    /// carried as opaque bytes.
    pub path: Vec<u8>,
    /// The value expected under the path.
    pub value: Vec<u8>,
    /// The height whose stored root the proof is checked against.
    pub height: Height,
    /// Delay in blocks before the proof may be accepted.
    pub delay_block_period: u64,
    /// Delay in time before the proof may be accepted.
    pub delay_time_period: u64,
}

impl VerifyMembershipMsg {
    /// Converts the raw request: the first key-path segment becomes the
    /// commitment prefix and the remaining segments, joined without
    /// separator, the store path. An empty key path is rejected.
    ///
    /// The joined path is carried as opaque bytes; no structured-path
    /// grammar is imposed on it. The joining rule means a path may arrive
    /// split into segments whose concatenation is not itself a grammatical
    /// store path, and soundness does not need the restriction: a Merkle
    /// proof verifies only against the committed root, so an arbitrary
    /// path can at worst fail verification, never prove a false claim.
    pub fn try_from(raw: VerifyMembershipMsgRaw) -> (r: Result<VerifyMembershipMsg, ContractError>)
        ensures
            raw.path.key_path@.len() == 0 <==> r == Err::<VerifyMembershipMsg, ContractError>(
                ContractError::InvalidMsg,
            ),
            r is Err ==> r == Err::<VerifyMembershipMsg, ContractError>(ContractError::InvalidMsg),
            r matches Ok(m) ==> {
                &&& m.prefix@ == vstd::utf8::encode_utf8(raw.path.key_path.deep_view()[0])
                &&& m.path@ == spec_concat_rows(
                    spec_path_bytes(raw.path.key_path.deep_view()).subrange(
                        1,
                        raw.path.key_path.deep_view().len() as int,
                    ),
                )
                &&& m.proof@ == raw.proof@
                &&& m.value@ == raw.value@
                &&& m.height == raw.height
                &&& m.delay_block_period == raw.delay_block_period
                &&& m.delay_time_period == raw.delay_time_period
            },
    {
        if raw.path.key_path.len() == 0 {
            return Err(ContractError::InvalidMsg);
        }
        let prefix = raw.path.key_path[0].as_str().as_bytes_vec();
        let path = join_path_segments(&raw.path.key_path);
        Ok(
            VerifyMembershipMsg {
                prefix,
                proof: raw.proof,
                path,
                value: raw.value,
                height: raw.height,
                delay_block_period: raw.delay_block_period,
                delay_time_period: raw.delay_time_period,
            },
        )
    }
}

/// Raw non-membership-verification request.
#[derive(Clone, Debug, PartialEq, Eq)]
pub struct VerifyNonMembershipMsgRaw {
    /// The commitment proof bytes.
    pub proof: Vec<u8>,
    /// The key path; the first segment is the commitment prefix.
    pub path: MerklePath,
    /// The height whose stored root the proof is checked against.
    pub height: Height,
    /// Delay in blocks before the proof may be accepted.
    pub delay_block_period: u64,
    /// Delay in time before the proof may be accepted.
    pub delay_time_period: u64,
}

/// Typed non-membership-verification request.
#[derive(Clone, Debug, PartialEq, Eq)]
pub struct VerifyNonMembershipMsg {
    /// The commitment prefix: the first key-path segment's bytes.
    pub prefix: Vec<u8>,
    /// The commitment proof bytes.
    pub proof: Vec<u8>,
    /// The store path: the remaining segments joined without separator,
    /// carried as opaque bytes.
    pub path: Vec<u8>,
    /// The height whose stored root the proof is checked against.
    pub height: Height,
    /// Delay in blocks before the proof may be accepted.
    pub delay_block_period: u64,
    /// Delay in time before the proof may be accepted.
    pub delay_time_period: u64,
}

impl VerifyNonMembershipMsg {
    /// Converts the raw request, with the same path rules as the
    /// membership request: the joined path is opaque bytes, constrained by
    /// no grammar, which is sound because a proof verifies only against
    /// the committed root.
    pub fn try_from(raw: VerifyNonMembershipMsgRaw) -> (r: Result<
        VerifyNonMembershipMsg,
        ContractError,
    >)
        ensures
            raw.path.key_path@.len() == 0 <==> r == Err::<VerifyNonMembershipMsg, ContractError>(
                ContractError::InvalidMsg,
            ),
            r is Err ==> r == Err::<VerifyNonMembershipMsg, ContractError>(
                ContractError::InvalidMsg,
            ),
            r matches Ok(m) ==> {
                &&& m.prefix@ == vstd::utf8::encode_utf8(raw.path.key_path.deep_view()[0])
                &&& m.path@ == spec_concat_rows(
                    spec_path_bytes(raw.path.key_path.deep_view()).subrange(
                        1,
                        raw.path.key_path.deep_view().len() as int,
                    ),
                )
                &&& m.proof@ == raw.proof@
                &&& m.height == raw.height
                &&& m.delay_block_period == raw.delay_block_period
                &&& m.delay_time_period == raw.delay_time_period
            },
    {
        if raw.path.key_path.len() == 0 {
            return Err(ContractError::InvalidMsg);
        }
        let prefix = raw.path.key_path[0].as_str().as_bytes_vec();
        let path = join_path_segments(&raw.path.key_path);
        Ok(
            VerifyNonMembershipMsg {
                prefix,
                proof: raw.proof,
                path,
                height: raw.height,
                delay_block_period: raw.delay_block_period,
                delay_time_period: raw.delay_time_period,
            },
        )
    }
}

/// Reserved store-migration request; currently a no-op placeholder.
#[derive(Clone, Debug, PartialEq, Eq)]
pub struct MigrateClientStoreMsg {}

/// The read-only queries.
#[derive(Clone, Debug, PartialEq, Eq)]
pub enum QueryMsg {
    Status(StatusMsg),
    ExportMetadata(ExportMetadataMsg),
    TimestampAtHeight(TimestampAtHeightMsg),
    VerifyClientMessage(VerifyClientMessageRaw),
    CheckForMisbehaviour(CheckForMisbehaviourMsgRaw),
}

/// Query for the client's status.
#[derive(Clone, Debug, PartialEq, Eq)]
pub struct StatusMsg {}

/// Query for the recorded update metadata.
#[derive(Clone, Debug, PartialEq, Eq)]
pub struct ExportMetadataMsg {}

/// Query for the consensus timestamp recorded at a height.
#[derive(Clone, Debug, PartialEq, Eq)]
pub struct TimestampAtHeightMsg {
    /// The trusted height queried.
    pub height: Height,
}

/// Raw client-message verification query.
#[derive(Clone, Debug, PartialEq, Eq)]
pub struct VerifyClientMessageRaw {
    /// Encoded envelope of the client message.
    pub client_message: Vec<u8>,
}

/// Typed client-message verification query.
#[derive(Clone, Debug, PartialEq, Eq)]
pub struct VerifyClientMessageMsg {
    /// The decoded client message.
    pub client_message: ClientMessage,
}

impl VerifyClientMessageMsg {
    /// Decodes the raw verification query.
    pub fn try_from(raw: VerifyClientMessageRaw) -> (r: Result<
        VerifyClientMessageMsg,
        ContractError,
    >)
        ensures
            match r {
                Ok(m) => spec_dec_client_message(raw.client_message@) == Ok::<
                    crate::client_message::ClientMessageView,
                    ContractError,
                >(m.client_message@),
                Err(e) => spec_dec_client_message(raw.client_message@) == Err::<
                    crate::client_message::ClientMessageView,
                    ContractError,
                >(e),
            },
    {
        let client_message = match ClientMessage::decode(raw.client_message) {
            Ok(m) => m,
            Err(e) => {
                return Err(e);
            },
        };
        Ok(VerifyClientMessageMsg { client_message })
    }
}

/// Raw misbehaviour-detection query.
#[derive(Clone, Debug, PartialEq, Eq)]
pub struct CheckForMisbehaviourMsgRaw {
    /// Encoded envelope of the client message.
    pub client_message: Vec<u8>,
}

/// Typed misbehaviour-detection query.
#[derive(Clone, Debug, PartialEq, Eq)]
pub struct CheckForMisbehaviourMsg {
    /// The decoded client message.
    pub client_message: ClientMessage,
}

impl CheckForMisbehaviourMsg {
    /// Decodes the raw misbehaviour-detection query.
    pub fn try_from(raw: CheckForMisbehaviourMsgRaw) -> (r: Result<
        CheckForMisbehaviourMsg,
        ContractError,
    >)
        ensures
            match r {
                Ok(m) => spec_dec_client_message(raw.client_message@) == Ok::<
                    crate::client_message::ClientMessageView,
                    ContractError,
                >(m.client_message@),
                Err(e) => spec_dec_client_message(raw.client_message@) == Err::<
                    crate::client_message::ClientMessageView,
                    ContractError,
                >(e),
            },
    {
        let client_message = match ClientMessage::decode(raw.client_message) {
            Ok(m) => m,
            Err(e) => {
                return Err(e);
            },
        };
        Ok(CheckForMisbehaviourMsg { client_message })
    }
}

} // verus!
