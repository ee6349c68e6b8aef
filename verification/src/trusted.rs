//! The crate's trusted boundary: named results and thin wrappers around the
//! outside cryptographic routines — ICS-23 Merkle proof verification and
//! Tendermint light-client header verification. Each wrapper's contract
//! states no more than the wrapped routine's source shows; everything built
//! on top of these contracts is verified.

use vstd::prelude::*;
use ibc_core::commitment_types::commitment::{CommitmentPrefix, CommitmentProofBytes, CommitmentRoot};
use ibc_core::commitment_types::merkle::MerkleProof;
use ibc_core::commitment_types::proto::ics23::HostFunctionsManager;
use ibc_core::commitment_types::specs::ProofSpecs;
use ibc_core::primitives::proto::Protobuf;
use ibc_core::primitives::{IntoHostTime, Timestamp};
use core::time::Duration;
use ibc_client_tendermint::types::Header as TmHeader;
use ibc_core::host::types::identifiers::ChainId;
use crate::height::Height as LibHeight;
use ibc_proto::ibc::lightclients::tendermint::v1::Header as RawTmHeader;
use tendermint::crypto::default::Sha256 as TmSha256;
use tendermint::hash::Algorithm;
use tendermint::{Hash as TmHash, Time};
use tendermint_light_client_verifier::options::Options;
use tendermint_light_client_verifier::types::TrustThreshold;
use tendermint_light_client_verifier::{ProdVerifier, Verdict, Verifier};

verus! {

/// Whether `proof` parses as a commitment proof: a protobuf `MerkleProof`
/// carried in non-empty proof bytes.
pub uninterp spec fn merkle_proof_parses(proof: Seq<u8>) -> bool;

/// Whether the commitment proof `proof` establishes, under the Cosmos proof
/// specifications, that `path` prefixed by `prefix` holds `value` in the
/// tree committed to by `root`.
pub uninterp spec fn merkle_membership(
    proof: Seq<u8>,
    root: Seq<u8>,
    prefix: Seq<u8>,
    path: Seq<u8>,
    value: Seq<u8>,
) -> bool;

/// Whether the commitment proof `proof` establishes, under the Cosmos proof
/// specifications, that `path` prefixed by `prefix` is absent from the tree
/// committed to by `root`.
pub uninterp spec fn merkle_non_membership(
    proof: Seq<u8>,
    root: Seq<u8>,
    prefix: Seq<u8>,
    path: Seq<u8>,
) -> bool;

/// The verdict of Tendermint light-client update-header verification on the
/// signed-header evidence, given the trusted snapshot (its block time and
/// next-validators hash), the trust fraction, the trusting period, the
/// clock-drift bound and the current time. The verdict is a function of
/// these arguments alone.
pub uninterp spec fn tm_header_verdict(
    evidence: Seq<u8>,
    trusted_timestamp: u64,
    trusted_next_validators_hash: Seq<u8>,
    trust_numerator: u64,
    trust_denominator: u64,
    trusting_period: u64,
    max_clock_drift: u64,
    now: u64,
) -> bool;

/// The verdict of Tendermint light-client misbehaviour-header verification,
/// which relaxes the header-in-the-future check; a function of the
/// arguments alone.
pub uninterp spec fn tm_misbehaviour_verdict(
    evidence: Seq<u8>,
    trusted_timestamp: u64,
    trusted_next_validators_hash: Seq<u8>,
    trust_numerator: u64,
    trust_denominator: u64,
    trusting_period: u64,
    max_clock_drift: u64,
    now: u64,
) -> bool;

/// Relies on `CommitmentProofBytes::try_from` and `MerkleProof::try_from`
/// of `ibc-core-commitment-types`: the bytes are non-empty and decode as a
/// protobuf `MerkleProof`.
#[verifier::external_body]
pub(crate) fn parse_commitment_proof(proof: &Vec<u8>) -> (r: bool)
    ensures
        r == merkle_proof_parses(proof@),
{
    match CommitmentProofBytes::try_from(proof.clone()) {
        Ok(p) => MerkleProof::try_from(&p).is_ok(),
        Err(_) => false,
    }
}

/// Relies on `ibc_client_tendermint::client_state::verify_membership` with
/// the Cosmos proof specifications: the proof chain verifies `value` at
/// `path` under `prefix` against `root`.
#[verifier::external_body]
pub(crate) fn verify_merkle_membership(
    prefix: &Vec<u8>,
    proof: &Vec<u8>,
    root: &Vec<u8>,
    path: &Vec<u8>,
    value: &Vec<u8>,
) -> (r: bool)
    ensures
        r == merkle_membership(proof@, root@, prefix@, path@, value@),
{
    let proof_bytes = match CommitmentProofBytes::try_from(proof.clone()) {
        Ok(p) => p,
        Err(_) => return false,
    };
    ibc_client_tendermint::client_state::verify_membership::<HostFunctionsManager>(
        &ProofSpecs::cosmos(),
        &CommitmentPrefix::from_bytes(prefix),
        &proof_bytes,
        &CommitmentRoot::from_bytes(root),
        path.clone().into(),
        value.clone(),
    ).is_ok()
}

/// Relies on `ibc_client_tendermint::client_state::verify_non_membership`
/// with the Cosmos proof specifications: the proof chain verifies the
/// absence of `path` under `prefix` against `root`.
#[verifier::external_body]
pub(crate) fn verify_merkle_non_membership(
    prefix: &Vec<u8>,
    proof: &Vec<u8>,
    root: &Vec<u8>,
    path: &Vec<u8>,
) -> (r: bool)
    ensures
        r == merkle_non_membership(proof@, root@, prefix@, path@),
{
    let proof_bytes = match CommitmentProofBytes::try_from(proof.clone()) {
        Ok(p) => p,
        Err(_) => return false,
    };
    ibc_client_tendermint::client_state::verify_non_membership::<HostFunctionsManager>(
        &ProofSpecs::cosmos(),
        &CommitmentPrefix::from_bytes(prefix),
        &proof_bytes,
        &CommitmentRoot::from_bytes(root),
        path.clone().into(),
    ).is_ok()
}

/// Mathematical model of [`EvidenceFields`].
pub ghost struct EvidenceFieldsView {
    pub chain_id: Seq<u8>,
    pub height: LibHeight,
    pub timestamp: u64,
    pub trusted_height: LibHeight,
    pub app_hash: Seq<u8>,
    pub next_validators_hash: Seq<u8>,
}

/// What the signed-header evidence itself asserts: the fields of the signed
/// header inside it, as the embedded Tendermint stack reads them. A
/// submitted header is accepted only when its own plain fields equal these,
/// so nothing the client stores can diverge from what the validators
/// signed.
#[derive(Clone, Debug, PartialEq, Eq)]
pub struct EvidenceFields {
    /// The signed header's chain identifier.
    pub chain_id: Vec<u8>,
    /// The signed header's height, with the revision number the chain
    /// identifier embeds.
    pub height: LibHeight,
    /// The signed header's block time, in nanoseconds since the unix epoch.
    pub timestamp: u64,
    /// The trusted height the evidence claims to extend.
    pub trusted_height: LibHeight,
    /// The application hash the signed header commits to.
    pub app_hash: Vec<u8>,
    /// The hash of the validator set for the following block.
    pub next_validators_hash: Vec<u8>,
}

impl View for EvidenceFields {
    type V = EvidenceFieldsView;

    open spec fn view(&self) -> EvidenceFieldsView {
        EvidenceFieldsView {
            chain_id: self.chain_id@,
            height: self.height,
            timestamp: self.timestamp,
            trusted_height: self.trusted_height,
            app_hash: self.app_hash@,
            next_validators_hash: self.next_validators_hash@,
        }
    }
}

/// The fields the signed-header evidence asserts, if the evidence decodes
/// at all; a function of the evidence bytes alone.
pub uninterp spec fn tm_evidence_fields(evidence: Seq<u8>) -> Option<EvidenceFieldsView>;

/// Relies on `Header::try_from` of `ibc-client-tendermint` and
/// `ChainId::new` of `ibc-core-host-types`: decodes the evidence and hands
/// out the signed header's own fields, the revision number being the one
/// the chain identifier embeds, as the embedded stack computes it.
#[verifier::external_body]
pub(crate) fn extract_tm_evidence_fields(evidence: &Vec<u8>) -> (r: Option<EvidenceFields>)
    ensures
        match r {
            Some(f) => tm_evidence_fields(evidence@) == Some(f@),
            None => tm_evidence_fields(evidence@) is None,
        },
{
    let h = <TmHeader as Protobuf<RawTmHeader>>::decode_vec(evidence).ok()?;
    let hd = &h.signed_header.header;
    let revision_number = ChainId::new(hd.chain_id.as_str()).ok()?.revision_number();
    let timestamp: u64 = hd.time.unix_timestamp_nanos().try_into().ok()?;
    Some(EvidenceFields {
        chain_id: hd.chain_id.as_str().as_bytes().to_vec(),
        height: LibHeight { revision_number, revision_height: hd.height.value() },
        timestamp,
        trusted_height: LibHeight {
            revision_number: h.trusted_height.revision_number(),
            revision_height: h.trusted_height.revision_height(),
        },
        app_hash: hd.app_hash.as_bytes().to_vec(),
        next_validators_hash: hd.next_validators_hash.as_bytes().to_vec(),
    })
}

/// The declared outside type of a decoded Tendermint header.
#[verifier::external_type_specification]
#[verifier::external_body]
pub struct ExTmHeader(TmHeader);

/// Relies on `Header::try_from`, `Header::validate_basic` and
/// `Header::check_trusted_next_validator_set` of `ibc-client-tendermint`:
/// decodes the signed-header evidence and checks its internal consistency
/// and that the relayer-supplied trusted validator set matches the stored
/// hash. Evidence whose signed header carries block height zero or a chain
/// identifier outside the ICS-24 grammar is refused up front: on such
/// input the embedded `Header::height` would abort instead of erring, so
/// the guard makes the refusal the wrapper's answer on every byte string.
/// Only the verdict wrappers below consume the result.
#[verifier::external_body]
fn parse_tm_evidence(evidence: &Vec<u8>, trusted_next_validators_hash: &Vec<u8>) -> Option<
    TmHeader,
> {
    let h = <TmHeader as Protobuf<RawTmHeader>>::decode_vec(evidence).ok()?;
    if h.signed_header.header.height.value() == 0 {
        return None;
    }
    ChainId::new(h.signed_header.header.chain_id.as_str()).ok()?;
    h.validate_basic::<TmSha256>().ok()?;
    let nvh = TmHash::from_bytes(Algorithm::Sha256, trusted_next_validators_hash).ok()?;
    h.check_trusted_next_validator_set::<TmSha256>(&nvh).ok()?;
    Some(h)
}

/// Relies on `tendermint_light_client_verifier::Verifier::verify_update_header`
/// of `ProdVerifier`: runs the verifier on a decoded header against the
/// trusted snapshot under the given trust options at time `now`. Only the
/// verdict wrappers below consume the result.
#[verifier::external_body]
fn tm_run_update(
    h: &TmHeader,
    ts: u64,
    nvh: &Vec<u8>,
    num: u64,
    den: u64,
    period: u64,
    drift: u64,
    now: u64,
) -> Option<bool> {
    let nv = TmHash::from_bytes(Algorithm::Sha256, nvh).ok()?;
    let ht: Time = Timestamp::from_nanoseconds(ts).into_host_time().ok()?;
    let nt: Time = Timestamp::from_nanoseconds(now).into_host_time().ok()?;
    let tt = TrustThreshold::new(num, den).ok()?;
    let o = Options { trust_threshold: tt, trusting_period: Duration::from_nanos(period), clock_drift: Duration::from_nanos(drift) };
    let cid = h.signed_header.header.chain_id.clone();
    let t = h.as_trusted_block_state(&cid, ht, nv).ok()?;
    Some(matches!(ProdVerifier::default().verify_update_header(h.as_untrusted_block_state(), t, &o, nt), Verdict::Success))
}

/// Relies on `tendermint_light_client_verifier::Verifier::verify_misbehaviour_header`
/// of `ProdVerifier`: as `tm_run_update`, with the header-in-the-future
/// check relaxed. Only the verdict wrappers below consume the result.
#[verifier::external_body]
fn tm_run_misbehaviour(
    h: &TmHeader,
    ts: u64,
    nvh: &Vec<u8>,
    num: u64,
    den: u64,
    period: u64,
    drift: u64,
    now: u64,
) -> Option<bool> {
    let nv = TmHash::from_bytes(Algorithm::Sha256, nvh).ok()?;
    let ht: Time = Timestamp::from_nanoseconds(ts).into_host_time().ok()?;
    let nt: Time = Timestamp::from_nanoseconds(now).into_host_time().ok()?;
    let tt = TrustThreshold::new(num, den).ok()?;
    let o = Options { trust_threshold: tt, trusting_period: Duration::from_nanos(period), clock_drift: Duration::from_nanos(drift) };
    let cid = h.signed_header.header.chain_id.clone();
    let t = h.as_trusted_block_state(&cid, ht, nv).ok()?;
    Some(matches!(ProdVerifier::default().verify_misbehaviour_header(h.as_untrusted_block_state(), t, &o, nt), Verdict::Success))
}

/// The verdict of update-header verification: the evidence decodes and is
/// internally consistent, matches the trusted next-validators hash, and
/// the embedded Tendermint verifier accepts it against the trusted
/// snapshot under the given trust options at time `now`.
#[verifier::external_body]
pub(crate) fn tm_verify_update_header(
    evidence: &Vec<u8>,
    trusted_timestamp: u64,
    trusted_next_validators_hash: &Vec<u8>,
    trust_numerator: u64,
    trust_denominator: u64,
    trusting_period: u64,
    max_clock_drift: u64,
    now: u64,
) -> (r: bool)
    ensures
        r == tm_header_verdict(
            evidence@,
            trusted_timestamp,
            trusted_next_validators_hash@,
            trust_numerator,
            trust_denominator,
            trusting_period,
            max_clock_drift,
            now,
        ),
{
    match parse_tm_evidence(evidence, trusted_next_validators_hash) {
        Some(h) => tm_run_update(&h, trusted_timestamp, trusted_next_validators_hash, trust_numerator, trust_denominator, trusting_period, max_clock_drift, now).unwrap_or(false),
        None => false,
    }
}

/// The verdict of misbehaviour-header verification: as the update-header
/// verdict, with the header-in-the-future check relaxed.
#[verifier::external_body]
pub(crate) fn tm_verify_misbehaviour_header(
    evidence: &Vec<u8>,
    trusted_timestamp: u64,
    trusted_next_validators_hash: &Vec<u8>,
    trust_numerator: u64,
    trust_denominator: u64,
    trusting_period: u64,
    max_clock_drift: u64,
    now: u64,
) -> (r: bool)
    ensures
        r == tm_misbehaviour_verdict(
            evidence@,
            trusted_timestamp,
            trusted_next_validators_hash@,
            trust_numerator,
            trust_denominator,
            trusting_period,
            max_clock_drift,
            now,
        ),
{
    match parse_tm_evidence(evidence, trusted_next_validators_hash) {
        Some(h) => tm_run_misbehaviour(&h, trusted_timestamp, trusted_next_validators_hash, trust_numerator, trust_denominator, trusting_period, max_clock_drift, now).unwrap_or(false),
        None => false,
    }
}

} // verus!
