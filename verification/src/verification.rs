//! The stateless verification engine: header and misbehaviour validation,
//! Merkle (non-)membership checking, misbehaviour detection, status
//! computation and the substitute check used in client recovery.

use vstd::prelude::*;
use vstd::string::{StrSliceExecFns, StringSliceAdditionalSpecFns};
use crate::bytes::bytes_eq;
use crate::client_message::ClientMessage;
use crate::client_state::ClientState;
use crate::consensus_state::ConsensusState;
use crate::context::Context;
use crate::error::ContractError;
use crate::header::TendermintHeader;
use crate::height::Height;
use crate::trusted::{
    extract_tm_evidence_fields, merkle_membership, merkle_non_membership, merkle_proof_parses,
    parse_commitment_proof, tm_evidence_fields, tm_header_verdict, tm_misbehaviour_verdict,
    tm_verify_misbehaviour_header, tm_verify_update_header, verify_merkle_membership,
    verify_merkle_non_membership,
};

verus! {

/// The externally observable condition of a client.
#[derive(Clone, Copy, Debug, PartialEq, Eq, Structural)]
pub enum Status {
    /// The client tracks its chain and accepts new headers.
    Active,
    /// Misbehaviour was proven; the client accepts no more updates.
    Frozen,
    /// The latest consensus state has outlived the trusting period.
    Expired,
    /// The client's condition cannot be determined.
    Unknown,
}

/// Rejects a candidate consensus state whose commitment root is empty.
pub fn verify_consensus_state(consensus_state: &ConsensusState) -> (r: Result<(), ContractError>)
    ensures
        r is Ok <==> consensus_state@.root.len() > 0,
        r is Err ==> r == Result::<(), ContractError>::Err(ContractError::InvalidConsensusState),
{
    if consensus_state.root.len() == 0 {
        Err(ContractError::InvalidConsensusState)
    } else {
        Ok(())
    }
}

/// Rejects a proof height above the client's latest height.
pub fn validate_proof_height(client_state: &ClientState, proof_height: Height) -> (r: Result<
    (),
    ContractError,
>)
    ensures
        r is Ok <==> proof_height.spec_le(client_state@.latest_height()),
        r is Err ==> r == Result::<(), ContractError>::Err(
            ContractError::ProofHeightTooHigh {
                latest_height: client_state@.latest_height(),
                proof_height,
            },
        ),
{
    let latest_height = client_state.latest_height();
    if latest_height.lt(&proof_height) {
        Err(ContractError::ProofHeightTooHigh { latest_height, proof_height })
    } else {
        Ok(())
    }
}

/// Verifies that `value` lives at `path` under `prefix` in the tree
/// committed to by `root`, by the supplied Merkle proof. Fails with
/// `InvalidProofBytes` exactly when the proof bytes do not parse, and with
/// `ProofVerificationFailed` exactly when the parsed proof does not verify.
pub fn verify_membership(
    client_state: &ClientState,
    prefix: &Vec<u8>,
    proof: &Vec<u8>,
    root: &Vec<u8>,
    path: &Vec<u8>,
    value: &Vec<u8>,
) -> (r: Result<(), ContractError>)
    ensures
        r is Ok <==> merkle_proof_parses(proof@) && merkle_membership(
            proof@,
            root@,
            prefix@,
            path@,
            value@,
        ),
        !merkle_proof_parses(proof@) ==> r == Result::<(), ContractError>::Err(
            ContractError::InvalidProofBytes,
        ),
        merkle_proof_parses(proof@) && !merkle_membership(proof@, root@, prefix@, path@, value@)
            ==> r == Result::<(), ContractError>::Err(ContractError::ProofVerificationFailed),
{
    let _ = client_state;
    if !parse_commitment_proof(proof) {
        return Err(ContractError::InvalidProofBytes);
    }
    if verify_merkle_membership(prefix, proof, root, path, value) {
        Ok(())
    } else {
        Err(ContractError::ProofVerificationFailed)
    }
}

/// Verifies that `path` under `prefix` is absent from the tree committed to
/// by `root`, by the supplied Merkle proof. The error cases mirror
/// [`verify_membership`].
pub fn verify_non_membership(
    client_state: &ClientState,
    prefix: &Vec<u8>,
    proof: &Vec<u8>,
    root: &Vec<u8>,
    path: &Vec<u8>,
) -> (r: Result<(), ContractError>)
    ensures
        r is Ok <==> merkle_proof_parses(proof@) && merkle_non_membership(
            proof@,
            root@,
            prefix@,
            path@,
        ),
        !merkle_proof_parses(proof@) ==> r == Result::<(), ContractError>::Err(
            ContractError::InvalidProofBytes,
        ),
        merkle_proof_parses(proof@) && !merkle_non_membership(proof@, root@, prefix@, path@) ==> r
            == Result::<(), ContractError>::Err(ContractError::ProofVerificationFailed),
{
    let _ = client_state;
    if !parse_commitment_proof(proof) {
        return Err(ContractError::InvalidProofBytes);
    }
    if verify_merkle_non_membership(prefix, proof, root, path) {
        Ok(())
    } else {
        Err(ContractError::ProofVerificationFailed)
    }
}

/// Whether a submitted header's plain fields are exactly what its signed
/// evidence asserts: the evidence decodes, and its chain id, height (with
/// the chain id's revision number), block time, claimed trusted height,
/// application hash and next-validators hash all equal the header's own
/// fields. Without this binding a genuine signature could smuggle in a
/// forged commitment root or validator hash.
pub open spec fn spec_evidence_bound(h: crate::header::TendermintHeaderView) -> bool {
    match tm_evidence_fields(h.evidence) {
        Some(f) => {
            &&& f.chain_id == h.chain_id
            &&& f.height == h.height
            &&& f.timestamp == h.timestamp
            &&& f.trusted_height == h.trusted_height
            &&& f.app_hash == h.commitment_root
            &&& f.next_validators_hash == h.next_validators_hash
        },
        None => false,
    }
}

/// Everything the client itself checks of a submitted header before
/// consulting the embedded Tendermint verifier: field-level consistency,
/// the right chain identifier, and the binding of every plain field to the
/// signed evidence.
pub open spec fn spec_header_prechecks(
    cs: crate::client_state::ClientStateView,
    h: crate::header::TendermintHeaderView,
) -> bool {
    &&& h.basic_valid()
    &&& h.chain_id == cs.tendermint_client_state.chain_id
    &&& spec_evidence_bound(h)
}

/// The full acceptance condition of a header: prechecks pass, a trusted
/// consensus state exists at the header's trusted height, the
/// data-availability proof verified, and the embedded Tendermint verifier
/// accepts the evidence against that trusted snapshot at the host's
/// current time.
pub open spec fn spec_header_accepted(
    cs: crate::client_state::ClientStateView,
    ctx: Context,
    h: crate::header::TendermintHeaderView,
    da_verified: bool,
) -> bool {
    &&& spec_header_prechecks(cs, h)
    &&& ctx.consensus_at(h.trusted_height) is Some
    &&& da_verified
    &&& tm_header_verdict(
        h.evidence,
        ctx.consensus_at(h.trusted_height)->Some_0.timestamp,
        ctx.consensus_at(h.trusted_height)->Some_0.next_validators_hash,
        cs.tendermint_client_state.trust_level_numerator,
        cs.tendermint_client_state.trust_level_denominator,
        cs.tendermint_client_state.trusting_period,
        cs.tendermint_client_state.max_clock_drift,
        ctx.spec_host_timestamp(),
    )
}

/// The acceptance condition of one misbehaviour header, checked with the
/// relaxed misbehaviour verdict.
pub open spec fn spec_misbehaviour_header_accepted(
    cs: crate::client_state::ClientStateView,
    ctx: Context,
    h: crate::header::TendermintHeaderView,
) -> bool {
    &&& spec_header_prechecks(cs, h)
    &&& ctx.consensus_at(h.trusted_height) is Some
    &&& tm_misbehaviour_verdict(
        h.evidence,
        ctx.consensus_at(h.trusted_height)->Some_0.timestamp,
        ctx.consensus_at(h.trusted_height)->Some_0.next_validators_hash,
        cs.tendermint_client_state.trust_level_numerator,
        cs.tendermint_client_state.trust_level_denominator,
        cs.tendermint_client_state.trusting_period,
        cs.tendermint_client_state.max_clock_drift,
        ctx.spec_host_timestamp(),
    )
}

/// Whether the header's plain fields equal what its evidence asserts.
fn check_evidence_bound(header: &TendermintHeader) -> (r: bool)
    ensures
        r == spec_evidence_bound(header@),
{
    match extract_tm_evidence_fields(&header.evidence) {
        Some(f) => bytes_eq(&f.chain_id, &header.chain_id) && f.height == header.height
            && f.timestamp == header.timestamp && f.trusted_height == header.trusted_height
            && bytes_eq(&f.app_hash, &header.commitment_root) && bytes_eq(
            &f.next_validators_hash,
            &header.next_validators_hash,
        ),
        None => false,
    }
}

/// Checks one header of a misbehaviour message.
fn verify_one_misbehaviour_header(
    client_state: &ClientState,
    ctx: &Context,
    header: &TendermintHeader,
) -> (r: Result<(), ContractError>)
    ensures
        r is Ok <==> spec_misbehaviour_header_accepted(client_state@, *ctx, header@),
{
    if header.validate_basic().is_err() {
        return Err(ContractError::InvalidUpdateClientMessage);
    }
    if !bytes_eq(&header.chain_id, &client_state.tendermint_client_state.chain_id) {
        return Err(ContractError::InvalidUpdateClientMessage);
    }
    if !check_evidence_bound(header) {
        return Err(ContractError::InvalidUpdateClientMessage);
    }
    let trusted = match ctx.consensus_state(header.trusted_height) {
        Ok(cs) => cs,
        Err(_) => {
            return Err(ContractError::MissingConsensusState);
        },
    };
    let params = &client_state.tendermint_client_state;
    if tm_verify_misbehaviour_header(
        &header.evidence,
        trusted.timestamp,
        &trusted.next_validators_hash,
        params.trust_level_numerator,
        params.trust_level_denominator,
        params.trusting_period,
        params.max_clock_drift,
        ctx.host_timestamp(),
    ) {
        Ok(())
    } else {
        Err(ContractError::ConsensusVerificationFailed)
    }
}

/// Validates a client message against the current client and store state.
///
/// For a header this is the hybrid check that defines the rollup client: a
/// header is accepted only when the data-availability inclusion proof has
/// verified against the companion DA client — the `da_verified` outcome of
/// the host's DA membership query — *and* the embedded Tendermint verifier
/// accepts its consensus evidence. A header failing either side is
/// rejected; it is never trusted on consensus signatures alone. Every
/// plain field of an accepted header — height, time, commitment root,
/// next-validators hash, chain id, claimed trusted height — is further
/// bound to the signed evidence itself, so the consensus state a later
/// update installs is exactly what the validators signed.
///
/// For misbehaviour evidence both conflicting headers are validated the
/// same way against their own trusted heights.
pub fn verify_client_message(
    client_state: &ClientState,
    ctx: &Context,
    message: &ClientMessage,
    da_verified: bool,
) -> (r: Result<(), ContractError>)
    ensures
        message matches ClientMessage::Header(h) ==> {
            &&& (r is Ok <==> spec_header_accepted(
                client_state@,
                *ctx,
                h@.tendermint_header,
                da_verified,
            ))
            &&& (!da_verified && spec_header_prechecks(client_state@, h@.tendermint_header)
                && ctx.consensus_at(h@.tendermint_header.trusted_height) is Some ==> r
                == Result::<(), ContractError>::Err(ContractError::DaProofVerificationFailed))
        },
        message matches ClientMessage::Misbehaviour(m) ==> (r is Ok <==> {
            &&& spec_misbehaviour_header_accepted(client_state@, *ctx, m@.header1)
            &&& spec_misbehaviour_header_accepted(client_state@, *ctx, m@.header2)
        }),
{
    match message {
        ClientMessage::Header(header) => {
            let h = &header.tendermint_header;
            if header.validate_basic().is_err() {
                return Err(ContractError::InvalidUpdateClientMessage);
            }
            if !bytes_eq(&h.chain_id, &client_state.tendermint_client_state.chain_id) {
                return Err(ContractError::InvalidUpdateClientMessage);
            }
            if !check_evidence_bound(h) {
                return Err(ContractError::InvalidUpdateClientMessage);
            }
            let trusted = match ctx.consensus_state(h.trusted_height) {
                Ok(cs) => cs,
                Err(_) => {
                    return Err(ContractError::MissingConsensusState);
                },
            };
            if !da_verified {
                return Err(ContractError::DaProofVerificationFailed);
            }
            let params = &client_state.tendermint_client_state;
            if tm_verify_update_header(
                &h.evidence,
                trusted.timestamp,
                &trusted.next_validators_hash,
                params.trust_level_numerator,
                params.trust_level_denominator,
                params.trusting_period,
                params.max_clock_drift,
                ctx.host_timestamp(),
            ) {
                Ok(())
            } else {
                Err(ContractError::ConsensusVerificationFailed)
            }
        },
        ClientMessage::Misbehaviour(misbehaviour) => {
            let r1 = verify_one_misbehaviour_header(client_state, ctx, &misbehaviour.header1);
            if r1.is_err() {
                return r1;
            }
            verify_one_misbehaviour_header(client_state, ctx, &misbehaviour.header2)
        },
    }
}

/// Whether two headers are the same, field for field.
fn tendermint_header_eq(a: &TendermintHeader, b: &TendermintHeader) -> (r: bool)
    ensures
        r == (a@ == b@),
{
    let fields_eq = bytes_eq(&a.chain_id, &b.chain_id) && a.height.revision_number
        == b.height.revision_number && a.height.revision_height == b.height.revision_height
        && a.timestamp == b.timestamp && a.trusted_height.revision_number
        == b.trusted_height.revision_number && a.trusted_height.revision_height
        == b.trusted_height.revision_height && bytes_eq(
        &a.next_validators_hash,
        &b.next_validators_hash,
    ) && bytes_eq(&a.commitment_root, &b.commitment_root) && bytes_eq(&a.evidence, &b.evidence);
    proof {
        if fields_eq {
            assert(a@ == b@);
        }
    }
    fields_eq
}

/// Whether two consensus states are the same, field for field.
fn consensus_state_eq(a: &ConsensusState, b: &ConsensusState) -> (r: bool)
    ensures
        r == (a@ == b@),
{
    let fields_eq = a.timestamp == b.timestamp && bytes_eq(&a.root, &b.root) && bytes_eq(
        &a.next_validators_hash,
        &b.next_validators_hash,
    );
    proof {
        if fields_eq {
            assert(a@ == b@);
        }
    }
    fields_eq
}

/// Whether a header at a fresh height violates timestamp monotonicity
/// against the greatest stored height below it: that state's timestamp is
/// not strictly before the header's.
pub open spec fn spec_prev_timestamp_violation(
    ctx: Context,
    h: crate::header::TendermintHeaderView,
) -> bool {
    exists|hp: Height|
        {
            &&& #[trigger] ctx.consensus_at(hp) is Some
            &&& hp.spec_lt(h.height)
            &&& (forall|h2: Height|
                #[trigger] ctx.consensus_at(h2) is Some && h2.spec_lt(h.height) ==> h2.spec_le(
                    hp,
                ))
            &&& h.timestamp <= ctx.consensus_at(hp)->Some_0.timestamp
        }
}

/// Whether a header below the latest height violates timestamp
/// monotonicity against the smallest stored height above it: that state's
/// timestamp is not strictly after the header's.
pub open spec fn spec_next_timestamp_violation(
    ctx: Context,
    latest: Height,
    h: crate::header::TendermintHeaderView,
) -> bool {
    &&& h.height.spec_lt(latest)
    &&& exists|hn: Height|
        {
            &&& #[trigger] ctx.consensus_at(hn) is Some
            &&& h.height.spec_lt(hn)
            &&& (forall|h2: Height|
                #[trigger] ctx.consensus_at(h2) is Some && h.height.spec_lt(h2) ==> hn.spec_le(
                    h2,
                ))
            &&& h.timestamp >= ctx.consensus_at(hn)->Some_0.timestamp
        }
}

/// Whether a header at a fresh height breaks the strict monotonicity of
/// stored consensus timestamps with height, against either neighbouring
/// stored state.
pub open spec fn spec_timestamp_violation(
    ctx: Context,
    latest: Height,
    h: crate::header::TendermintHeaderView,
) -> bool {
    spec_prev_timestamp_violation(ctx, h) || spec_next_timestamp_violation(ctx, latest, h)
}

/// Detects misbehaviour in a client message.
///
/// For a header at a height that already holds a committed consensus state,
/// misbehaviour is a mismatch between the stored state and the one the
/// header would install: a fork is reported rather than silently stored.
/// For a header at a fresh height, stored consensus timestamps must stay
/// strictly monotonic with height against the adjacent stored states. For
/// a misbehaviour message, two same-height headers conflict when they
/// differ, and two different-height headers conflict when the later one
/// does not have the later timestamp.
#[verifier::rlimit(100)]
pub fn check_for_misbehaviour(
    client_state: &ClientState,
    ctx: &Context,
    message: &ClientMessage,
) -> (r: Result<bool, ContractError>)
    requires
        ctx.wf(),
    ensures
        r is Ok,
        message matches ClientMessage::Header(h) ==> (ctx.consensus_at(h@.tendermint_header.height)
            matches Some(stored) ==> r == Result::<bool, ContractError>::Ok(
            stored != h@.tendermint_header.consensus_state(),
        )),
        message matches ClientMessage::Header(h) ==> (ctx.consensus_at(h@.tendermint_header.height)
            is None ==> r == Result::<bool, ContractError>::Ok(
            spec_timestamp_violation(*ctx, client_state@.latest_height(), h@.tendermint_header),
        )),
        message matches ClientMessage::Misbehaviour(m) ==> r == Result::<bool, ContractError>::Ok(
            if m@.header1.height == m@.header2.height {
                m@.header1 != m@.header2
            } else {
                m@.header1.timestamp <= m@.header2.timestamp
            },
        ),
{
    match message {
        ClientMessage::Header(header) => {
            let h = &header.tendermint_header;
            let ghost hv = header@.tendermint_header;
            match ctx.consensus_state(h.height) {
                Ok(stored) => {
                    let installed = h.consensus_state();
                    Ok(!consensus_state_eq(&stored, &installed))
                },
                Err(_) => {
                    // No state at this height yet: timestamps must stay
                    // monotonic against the neighbouring stored states. The
                    // adjacent stored heights are unique, so each branch
                    // settles its half of the violation predicate.
                    match ctx.prev_consensus_state(h.height) {
                        Some(prev) => {
                            proof {
                                let hh = choose|hh: Height|
                                    {
                                        &&& #[trigger] ctx.consensus_at(hh) == Some(prev@)
                                        &&& hh.spec_lt(hv.height)
                                        &&& (forall|h2: Height|
                                            #[trigger] ctx.consensus_at(h2) is Some && h2.spec_lt(
                                                hv.height,
                                            ) ==> h2.spec_le(hh))
                                    };
                                if hv.timestamp <= prev@.timestamp {
                                    assert(ctx.consensus_at(hh) is Some && hh.spec_lt(hv.height)
                                        && (forall|h2: Height|
                                        #[trigger] ctx.consensus_at(h2) is Some && h2.spec_lt(
                                            hv.height,
                                        ) ==> h2.spec_le(hh)) && hv.timestamp <= ctx.consensus_at(
                                        hh,
                                    )->Some_0.timestamp);
                                    assert(spec_prev_timestamp_violation(*ctx, hv));
                                } else {
                                    assert(!spec_prev_timestamp_violation(*ctx, hv)) by {
                                        if spec_prev_timestamp_violation(*ctx, hv) {
                                            let hp = choose|hp: Height|
                                                {
                                                    &&& #[trigger] ctx.consensus_at(hp) is Some
                                                    &&& hp.spec_lt(hv.height)
                                                    &&& (forall|h2: Height|
                                                        #[trigger] ctx.consensus_at(h2) is Some
                                                            && h2.spec_lt(hv.height)
                                                            ==> h2.spec_le(hp))
                                                    &&& hv.timestamp <= ctx.consensus_at(
                                                        hp,
                                                    )->Some_0.timestamp
                                                };
                                            assert(hp.spec_le(hh));
                                            assert(hh.spec_le(hp));
                                            assert(hp == hh);
                                            assert(false);
                                        }
                                    }
                                }
                            }
                            if h.timestamp <= prev.timestamp {
                                return Ok(true);
                            }
                        },
                        None => {
                            proof {
                                assert(!spec_prev_timestamp_violation(*ctx, hv)) by {
                                    if spec_prev_timestamp_violation(*ctx, hv) {
                                        let hp = choose|hp: Height|
                                            {
                                                &&& #[trigger] ctx.consensus_at(hp) is Some
                                                &&& hp.spec_lt(hv.height)
                                                &&& (forall|h2: Height|
                                                    #[trigger] ctx.consensus_at(h2) is Some
                                                        && h2.spec_lt(hv.height) ==> h2.spec_le(
                                                        hp,
                                                    ))
                                                &&& hv.timestamp <= ctx.consensus_at(
                                                    hp,
                                                )->Some_0.timestamp
                                            };
                                        assert(false);
                                    }
                                }
                            }
                        },
                    }
                    if h.height.lt(&client_state.latest_height()) {
                        match ctx.next_consensus_state(h.height) {
                            Some(next) => {
                                proof {
                                    let hn = choose|hn: Height|
                                        {
                                            &&& #[trigger] ctx.consensus_at(hn) == Some(next@)
                                            &&& hv.height.spec_lt(hn)
                                            &&& (forall|h2: Height|
                                                #[trigger] ctx.consensus_at(h2) is Some
                                                    && hv.height.spec_lt(h2) ==> hn.spec_le(h2))
                                        };
                                    if hv.timestamp >= next@.timestamp {
                                        assert(ctx.consensus_at(hn) is Some && hv.height.spec_lt(
                                            hn,
                                        ) && (forall|h2: Height|
                                            #[trigger] ctx.consensus_at(h2) is Some
                                                && hv.height.spec_lt(h2) ==> hn.spec_le(h2))
                                            && hv.timestamp >= ctx.consensus_at(
                                            hn,
                                        )->Some_0.timestamp);
                                        assert(spec_next_timestamp_violation(
                                            *ctx,
                                            client_state@.latest_height(),
                                            hv,
                                        ));
                                    } else {
                                        assert(!spec_next_timestamp_violation(
                                            *ctx,
                                            client_state@.latest_height(),
                                            hv,
                                        )) by {
                                            if spec_next_timestamp_violation(
                                                *ctx,
                                                client_state@.latest_height(),
                                                hv,
                                            ) {
                                                let hx = choose|hx: Height|
                                                    {
                                                        &&& #[trigger] ctx.consensus_at(hx)
                                                            is Some
                                                        &&& hv.height.spec_lt(hx)
                                                        &&& (forall|h2: Height|
                                                            #[trigger] ctx.consensus_at(h2)
                                                                is Some && hv.height.spec_lt(h2)
                                                                ==> hx.spec_le(h2))
                                                        &&& hv.timestamp >= ctx.consensus_at(
                                                            hx,
                                                        )->Some_0.timestamp
                                                    };
                                                assert(hx.spec_le(hn));
                                                assert(hn.spec_le(hx));
                                                assert(hx == hn);
                                                assert(false);
                                            }
                                        }
                                    }
                                }
                                if h.timestamp >= next.timestamp {
                                    return Ok(true);
                                }
                            },
                            None => {
                                proof {
                                    assert(!spec_next_timestamp_violation(
                                        *ctx,
                                        client_state@.latest_height(),
                                        hv,
                                    )) by {
                                        if spec_next_timestamp_violation(
                                            *ctx,
                                            client_state@.latest_height(),
                                            hv,
                                        ) {
                                            let hx = choose|hx: Height|
                                                {
                                                    &&& #[trigger] ctx.consensus_at(hx) is Some
                                                    &&& hv.height.spec_lt(hx)
                                                    &&& (forall|h2: Height|
                                                        #[trigger] ctx.consensus_at(h2) is Some
                                                            && hv.height.spec_lt(h2)
                                                            ==> hx.spec_le(h2))
                                                    &&& hv.timestamp >= ctx.consensus_at(
                                                        hx,
                                                    )->Some_0.timestamp
                                                };
                                            assert(false);
                                        }
                                    }
                                }
                            },
                        }
                    } else {
                        proof {
                            assert(!spec_next_timestamp_violation(
                                *ctx,
                                client_state@.latest_height(),
                                hv,
                            ));
                        }
                    }
                    Ok(false)
                },
            }
        },
        ClientMessage::Misbehaviour(misbehaviour) => {
            let h1 = &misbehaviour.header1;
            let h2 = &misbehaviour.header2;
            if h1.height.revision_number == h2.height.revision_number
                && h1.height.revision_height == h2.height.revision_height {
                Ok(!tendermint_header_eq(h1, h2))
            } else {
                Ok(h1.timestamp <= h2.timestamp)
            }
        },
    }
}

/// Computes the client's status: `Frozen` once a frozen height is set,
/// `Expired` when the consensus state at the latest height is missing or
/// its timestamp plus the trusting period has elapsed relative to host
/// time, and `Active` otherwise.
pub fn status(client_state: &ClientState, ctx: &Context) -> (r: Result<Status, ContractError>)
    ensures
        r is Ok,
        client_state@.is_frozen() ==> r == Result::<Status, ContractError>::Ok(Status::Frozen),
        !client_state@.is_frozen() && ctx.consensus_at(client_state@.latest_height()) is None ==> r
            == Result::<Status, ContractError>::Ok(Status::Expired),
        !client_state@.is_frozen() && ctx.consensus_at(client_state@.latest_height()) is Some ==> r
            == Result::<Status, ContractError>::Ok(
            if ctx.consensus_at(client_state@.latest_height())->Some_0.timestamp
                + client_state@.tendermint_client_state.trusting_period
                <= ctx.spec_host_timestamp() {
                Status::Expired
            } else {
                Status::Active
            },
        ),
{
    if client_state.is_frozen() {
        return Ok(Status::Frozen);
    }
    let latest = client_state.latest_height();
    match ctx.consensus_state(latest) {
        Ok(cs) => {
            let now = ctx.host_timestamp();
            let trusting_period = client_state.tendermint_client_state.trusting_period;
            if now >= cs.timestamp && now - cs.timestamp >= trusting_period {
                Ok(Status::Expired)
            } else {
                Ok(Status::Active)
            }
        },
        Err(_) => Ok(Status::Expired),
    }
}

/// The decimal digits of `n`, most significant first.
pub open spec fn spec_decimal(n: u64) -> Seq<u8>
    decreases n,
{
    if n < 10 {
        seq![(48 + n) as u8]
    } else {
        spec_decimal(n / 10) + seq![(48 + n % 10) as u8]
    }
}

/// Renders `n` in decimal.
pub fn u64_to_decimal(n: u64) -> (r: Vec<u8>)
    ensures
        r@ == spec_decimal(n),
    decreases n,
{
    if n < 10 {
        let mut r: Vec<u8> = Vec::new();
        r.push((48 + n) as u8);
        proof {
            assert(r@ =~= spec_decimal(n));
        }
        r
    } else {
        let mut r = u64_to_decimal(n / 10);
        r.push((48 + n % 10) as u8);
        proof {
            assert(r@ =~= spec_decimal(n));
        }
        r
    }
}

/// The store path under which the chain commits its upgraded client state
/// for the given upgrade height.
pub open spec fn spec_upgrade_client_path(h: u64) -> Seq<u8> {
    "upgradedIBCState/".spec_bytes() + spec_decimal(h) + "/upgradedClient".spec_bytes()
}

/// The store path under which the chain commits its upgraded consensus
/// state for the given upgrade height.
pub open spec fn spec_upgrade_consensus_path(h: u64) -> Seq<u8> {
    "upgradedIBCState/".spec_bytes() + spec_decimal(h) + "/upgradedConsState".spec_bytes()
}

/// Builds the upgraded-client-state store path for the given height.
pub fn upgrade_client_path(h: u64) -> (r: Vec<u8>)
    ensures
        r@ == spec_upgrade_client_path(h),
{
    let head: &str = "upgradedIBCState/";
    let tail: &str = "/upgradedClient";
    let mut r = head.as_bytes_vec();
    let mut digits = u64_to_decimal(h);
    r.append(&mut digits);
    let mut t = tail.as_bytes_vec();
    r.append(&mut t);
    proof {
        assert(r@ =~= spec_upgrade_client_path(h));
    }
    r
}

/// Builds the upgraded-consensus-state store path for the given height.
pub fn upgrade_consensus_path(h: u64) -> (r: Vec<u8>)
    ensures
        r@ == spec_upgrade_consensus_path(h),
{
    let head: &str = "upgradedIBCState/";
    let tail: &str = "/upgradedConsState";
    let mut r = head.as_bytes_vec();
    let mut digits = u64_to_decimal(h);
    r.append(&mut digits);
    let mut t = tail.as_bytes_vec();
    r.append(&mut t);
    proof {
        assert(r@ =~= spec_upgrade_consensus_path(h));
    }
    r
}

/// Whether an upgrade passes verification: the upgraded height exceeds the
/// current one, an upgrade path is configured, and both upgraded states
/// verify as members under the upgrade-path prefix against `root`.
pub open spec fn spec_upgrade_verified(
    cs: crate::client_state::ClientStateView,
    upgraded_client_state: crate::client_state::ClientStateView,
    upgraded_consensus_state: crate::consensus_state::ConsensusStateView,
    proof_upgrade_client: Seq<u8>,
    proof_upgrade_consensus_state: Seq<u8>,
    root: Seq<u8>,
) -> bool {
    &&& cs.latest_height().spec_lt(upgraded_client_state.latest_height())
    &&& cs.tendermint_client_state.upgrade_path.len() > 0
    &&& merkle_proof_parses(proof_upgrade_client)
    &&& merkle_proof_parses(proof_upgrade_consensus_state)
    &&& merkle_membership(
        proof_upgrade_client,
        root,
        cs.tendermint_client_state.upgrade_path[0],
        spec_upgrade_client_path(cs.latest_height().revision_height),
        crate::codec::spec_encode_client_state_any(upgraded_client_state),
    )
    &&& merkle_membership(
        proof_upgrade_consensus_state,
        root,
        cs.tendermint_client_state.upgrade_path[0],
        spec_upgrade_consensus_path(cs.latest_height().revision_height),
        crate::codec::spec_encode_consensus_state_any(upgraded_consensus_state),
    )
}

/// Verifies an upgrade: checks that the upgraded client's height exceeds
/// the current latest height (`LowUpgradeHeight` otherwise), that an
/// upgrade path is configured (`MissingUpgradePath` otherwise), and that
/// both upgraded states are committed under the upgrade-path prefix by the
/// supplied proofs against `root`.
pub fn verify_upgrade_client(
    client_state: &ClientState,
    upgraded_client_state: &ClientState,
    upgraded_consensus_state: &ConsensusState,
    proof_upgrade_client: &Vec<u8>,
    proof_upgrade_consensus_state: &Vec<u8>,
    root: &Vec<u8>,
) -> (r: Result<(), ContractError>)
    ensures
        r is Ok <==> spec_upgrade_verified(
            client_state@,
            upgraded_client_state@,
            upgraded_consensus_state@,
            proof_upgrade_client@,
            proof_upgrade_consensus_state@,
            root@,
        ),
        upgraded_client_state@.latest_height().spec_le(client_state@.latest_height()) ==> r
            == Result::<(), ContractError>::Err(
            ContractError::LowUpgradeHeight {
                latest_height: client_state@.latest_height(),
                upgraded_height: upgraded_client_state@.latest_height(),
            },
        ),
        client_state@.latest_height().spec_lt(upgraded_client_state@.latest_height())
            && client_state@.tendermint_client_state.upgrade_path.len() == 0 ==> r
            == Result::<(), ContractError>::Err(ContractError::MissingUpgradePath),
        client_state@.latest_height().spec_lt(upgraded_client_state@.latest_height()) ==> (r
            matches Err(e) ==> !(e matches ContractError::LowUpgradeHeight { .. })),
{
    let latest_height = client_state.latest_height();
    let upgraded_height = upgraded_client_state.latest_height();
    if upgraded_height.le(&latest_height) {
        return Err(ContractError::LowUpgradeHeight { latest_height, upgraded_height });
    }
    if client_state.tendermint_client_state.upgrade_path.len() == 0 {
        return Err(ContractError::MissingUpgradePath);
    }
    let prefix = &client_state.tendermint_client_state.upgrade_path[0];
    proof {
        let up = &client_state.tendermint_client_state.upgrade_path;
        assert(up.deep_view()[0] == up@[0].deep_view());
        assert(up@[0].deep_view() =~= up@[0]@);
    }
    let last_height = latest_height.revision_height;
    let client_path = upgrade_client_path(last_height);
    let client_value = crate::codec::encode_client_state_any(upgraded_client_state);
    match verify_membership(
        client_state,
        prefix,
        proof_upgrade_client,
        root,
        &client_path,
        &client_value,
    ) {
        Ok(()) => {},
        Err(e) => {
            return Err(e);
        },
    }
    let consensus_path = upgrade_consensus_path(last_height);
    let consensus_value = crate::codec::encode_consensus_state_any(
        &crate::consensus_state::AnyConsensusState::Rollkit(
            upgraded_consensus_state.clone_value(),
        ),
    );
    match verify_membership(
        client_state,
        prefix,
        proof_upgrade_consensus_state,
        root,
        &consensus_path,
        &consensus_value,
    ) {
        Ok(()) => Ok(()),
        Err(e) => Err(e),
    }
}

/// Whether a host membership request verifies: the key path names a
/// prefix, the proof height does not exceed the client's latest height,
/// and the proof establishes the value at the joined path under the
/// prefix against the trusted root.
pub open spec fn spec_membership_request_verified(
    cs: crate::client_state::ClientStateView,
    trusted: crate::consensus_state::ConsensusStateView,
    proof: Seq<u8>,
    key_path: Seq<Seq<char>>,
    value: Seq<u8>,
    height: Height,
) -> bool {
    &&& key_path.len() >= 1
    &&& height.spec_le(cs.latest_height())
    &&& merkle_proof_parses(proof)
    &&& merkle_membership(
        proof,
        trusted.root,
        vstd::utf8::encode_utf8(key_path[0]),
        crate::msg::spec_concat_rows(
            crate::msg::spec_path_bytes(key_path).subrange(1, key_path.len() as int),
        ),
        value,
    )
}

/// Whether a host non-membership request verifies: the key path names a
/// prefix, the proof height does not exceed the client's latest height,
/// and the proof establishes the joined path's absence under the prefix
/// against the trusted root.
pub open spec fn spec_non_membership_request_verified(
    cs: crate::client_state::ClientStateView,
    trusted: crate::consensus_state::ConsensusStateView,
    proof: Seq<u8>,
    key_path: Seq<Seq<char>>,
    height: Height,
) -> bool {
    &&& key_path.len() >= 1
    &&& height.spec_le(cs.latest_height())
    &&& merkle_proof_parses(proof)
    &&& merkle_non_membership(
        proof,
        trusted.root,
        vstd::utf8::encode_utf8(key_path[0]),
        crate::msg::spec_concat_rows(
            crate::msg::spec_path_bytes(key_path).subrange(1, key_path.len() as int),
        ),
    )
}

/// The protobuf query the host performs against the companion
/// data-availability client to verify the shared proof's membership: the
/// DA client's identifier and the proof bytes.
pub open spec fn spec_da_membership_request(client_id: Seq<u8>, proof: Seq<u8>) -> Seq<u8> {
    crate::codec::spec_bytes_field(1, client_id) + crate::codec::spec_bytes_field(2, proof)
}

/// Builds the verify-membership query for the companion data-availability
/// light client; the host executes the query and reports whether the
/// inclusion proof verified.
pub fn query_verify_membermship_da(client_id: &Vec<u8>, shared_proof: &Vec<u8>) -> (r: Vec<u8>)
    ensures
        r@ == spec_da_membership_request(client_id@, shared_proof@),
{
    let mut out: Vec<u8> = Vec::new();
    crate::codec::encode_bytes_field(&mut out, 1, client_id);
    crate::codec::encode_bytes_field(&mut out, 2, shared_proof);
    proof {
        assert(out@ =~= spec_da_membership_request(client_id@, shared_proof@));
    }
    out
}

/// Whether subject and substitute agree on every client-state field other
/// than frozen height, latest height, trusting period and chain id.
pub open spec fn spec_substitute_matches(
    subject: crate::client_state::ClientStateView,
    substitute: crate::client_state::ClientStateView,
) -> bool {
    &&& subject.tendermint_client_state.trust_level_numerator
        == substitute.tendermint_client_state.trust_level_numerator
    &&& subject.tendermint_client_state.trust_level_denominator
        == substitute.tendermint_client_state.trust_level_denominator
    &&& subject.tendermint_client_state.unbonding_period
        == substitute.tendermint_client_state.unbonding_period
    &&& subject.tendermint_client_state.max_clock_drift
        == substitute.tendermint_client_state.max_clock_drift
    &&& subject.tendermint_client_state.upgrade_path
        == substitute.tendermint_client_state.upgrade_path
    &&& subject.da_params == substitute.da_params
}

/// Checks that subject and substitute client states match on every field
/// except frozen height, latest height, trusting period and chain id, as
/// client recovery requires; fails with `SubstituteMismatch` otherwise.
pub fn check_substitute(
    subject_client_state: &ClientState,
    substitute_client_state: &ClientState,
) -> (r: Result<(), ContractError>)
    ensures
        r is Ok <==> spec_substitute_matches(subject_client_state@, substitute_client_state@),
        r is Err ==> r == Result::<(), ContractError>::Err(ContractError::SubstituteMismatch),
{
    let a = &subject_client_state.tendermint_client_state;
    let b = &substitute_client_state.tendermint_client_state;
    let upgrade_path_eq = crate::bytes::bytes_vec_eq(&a.upgrade_path, &b.upgrade_path);
    let matches = upgrade_path_eq && a.trust_level_numerator == b.trust_level_numerator
        && a.trust_level_denominator == b.trust_level_denominator && a.unbonding_period
        == b.unbonding_period && a.max_clock_drift == b.max_clock_drift && bytes_eq(
        &subject_client_state.da_params.client_id,
        &substitute_client_state.da_params.client_id,
    ) && subject_client_state.da_params.fraud_period_window
        == substitute_client_state.da_params.fraud_period_window;
    if matches {
        Ok(())
    } else {
        Err(ContractError::SubstituteMismatch)
    }
}

} // verus!
