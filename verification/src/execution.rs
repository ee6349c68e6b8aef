//! The client lifecycle state machine: initialise, update, freeze on
//! misbehaviour, upgrade and recovery. Every operation either fully commits
//! its writes through the store context or returns an error having written
//! nothing; the host applies or rolls back the enclosing transaction
//! atomically.

use vstd::prelude::*;
use crate::height::Height;
use crate::client_state::{ClientState, ClientStateView, TendermintClientParamsView};
use crate::consensus_state::ConsensusState;
use crate::context::Context;
use crate::error::ContractError;
use crate::header::Header;

verus! {

/// The canonical sentinel height recorded as the frozen height on every
/// misbehaviour event, identical for all events.
pub open spec fn spec_frozen_sentinel() -> Height {
    Height { revision_number: 1, revision_height: 0 }
}

/// The client state as frozen by a misbehaviour event.
pub open spec fn spec_freeze(cs: ClientStateView) -> ClientStateView {
    ClientStateView {
        tendermint_client_state: TendermintClientParamsView {
            frozen_height: Some(spec_frozen_sentinel()),
            ..cs.tendermint_client_state
        },
        ..cs
    }
}

/// The client state after trusting a header at height `h`: the latest
/// height advances when `h` is greater and stays put otherwise.
pub open spec fn spec_with_latest(cs: ClientStateView, h: Height) -> ClientStateView {
    ClientStateView {
        tendermint_client_state: TendermintClientParamsView {
            latest_height: if cs.latest_height().spec_lt(h) {
                h
            } else {
                cs.latest_height()
            },
            ..cs.tendermint_client_state
        },
        ..cs
    }
}

/// Freezing is idempotent: freezing an already-frozen client state yields
/// the very same state, and the frozen height is always the one canonical
/// sentinel.
pub proof fn lemma_freeze_idempotent(cs: ClientStateView)
    ensures
        spec_freeze(spec_freeze(cs)) == spec_freeze(cs),
        spec_freeze(cs).frozen_height() == Some(spec_frozen_sentinel()),
{
}

/// The latest height never decreases: applying any header to a client
/// state leaves the latest height at least where it was, so it is
/// non-decreasing over any sequence of successful updates.
pub proof fn lemma_latest_height_monotonic(cs: ClientStateView, h: Height)
    ensures
        cs.latest_height().spec_le(spec_with_latest(cs, h).latest_height()),
{
}

/// The canonical sentinel height recorded on freeze.
pub fn frozen_sentinel() -> (r: Height)
    ensures
        r == spec_frozen_sentinel(),
{
    Height { revision_number: 1, revision_height: 0 }
}

/// Seeds the store with the initial client state and its consensus state
/// at the client's latest height, plus the update metadata for that height.
pub fn initialise(
    client_state: &ClientState,
    ctx: &mut Context,
    consensus_state: &ConsensusState,
) -> (r: Result<(), ContractError>)
    requires
        old(ctx).wf(),
    ensures
        r is Ok,
        final(ctx).wf(),
        final(ctx).client_state_view() == Some(client_state@),
        forall|h: Height|
            final(ctx).consensus_at(h) == if h == client_state@.latest_height() {
                Some(consensus_state@)
            } else {
                old(ctx).consensus_at(h)
            },
        forall|h: Height|
            final(ctx).meta_at(h) == if h == client_state@.latest_height() {
                Some(
                    (old(ctx).spec_host_timestamp(), old(ctx).spec_host_height().revision_height),
                )
            } else {
                old(ctx).meta_at(h)
            },
        final(ctx).spec_host_timestamp() == old(ctx).spec_host_timestamp(),
        final(ctx).spec_host_height() == old(ctx).spec_host_height(),
{
    let host_timestamp = ctx.host_timestamp();
    let host_height = ctx.host_height();
    let latest = client_state.latest_height();
    let r1 = ctx.store_client_state(client_state.clone_value());
    if r1.is_err() {
        return r1;
    }
    let r2 = ctx.store_consensus_state(latest, consensus_state.clone_value());
    if r2.is_err() {
        return r2;
    }
    ctx.store_update_meta(latest, host_timestamp, host_height)
}

/// Applies a verified header: stores its consensus state at the header's
/// height, advances the latest height when the header is newer, records
/// update metadata, and returns the newly trusted height.
///
/// A height that already holds a committed consensus state is never
/// overwritten: the call is a no-op then. A frozen client accepts no
/// update until recovery. Together with the ensured advance rule this
/// makes the stored latest height non-decreasing over any sequence of
/// successful calls.
pub fn update_state(client_state: &ClientState, ctx: &mut Context, header: &Header) -> (r: Result<
    Vec<Height>,
    ContractError,
>)
    requires
        old(ctx).wf(),
    ensures
        final(ctx).wf(),
        final(ctx).spec_host_timestamp() == old(ctx).spec_host_timestamp(),
        final(ctx).spec_host_height() == old(ctx).spec_host_height(),
        r is Err <==> client_state@.is_frozen(),
        client_state@.is_frozen() ==> {
            &&& r == Err::<Vec<Height>, ContractError>(ContractError::FrozenClient)
            &&& final(ctx).client_state_view() == old(ctx).client_state_view()
            &&& forall|h: Height| final(ctx).consensus_at(h) == old(ctx).consensus_at(h)
            &&& forall|h: Height| final(ctx).meta_at(h) == old(ctx).meta_at(h)
        },
        !client_state@.is_frozen() && old(ctx).consensus_at(header@.tendermint_header.height)
            is Some ==> {
            &&& final(ctx).client_state_view() == old(ctx).client_state_view()
            &&& forall|h: Height| final(ctx).consensus_at(h) == old(ctx).consensus_at(h)
            &&& forall|h: Height| final(ctx).meta_at(h) == old(ctx).meta_at(h)
        },
        !client_state@.is_frozen() && old(ctx).consensus_at(header@.tendermint_header.height)
            is None ==> {
            &&& final(ctx).client_state_view() == Some(
                spec_with_latest(client_state@, header@.tendermint_header.height),
            )
            &&& forall|h: Height|
                final(ctx).consensus_at(h) == if h == header@.tendermint_header.height {
                    Some(header@.tendermint_header.consensus_state())
                } else {
                    old(ctx).consensus_at(h)
                }
            &&& forall|h: Height|
                final(ctx).meta_at(h) == if h == header@.tendermint_header.height {
                    Some(
                        (
                            old(ctx).spec_host_timestamp(),
                            old(ctx).spec_host_height().revision_height,
                        ),
                    )
                } else {
                    old(ctx).meta_at(h)
                }
        },
        r matches Ok(hs) ==> hs@ == seq![header@.tendermint_header.height],
        !client_state@.is_frozen() ==> client_state@.latest_height().spec_le(
            spec_with_latest(client_state@, header@.tendermint_header.height).latest_height(),
        ),
{
    if client_state.is_frozen() {
        return Err(ContractError::FrozenClient);
    }
    let header_height = header.tendermint_header.height;
    let existing = ctx.consensus_state(header_height);
    if existing.is_ok() {
        // Already installed by a previous relayer: a no-op, never an
        // overwrite.
        let mut heights: Vec<Height> = Vec::new();
        heights.push(header_height);
        proof {
            assert(heights@ =~= seq![header@.tendermint_header.height]);
        }
        return Ok(heights);
    }
    let host_timestamp = ctx.host_timestamp();
    let host_height = ctx.host_height();
    let new_consensus_state = header.tendermint_header.consensus_state();
    let mut new_client_state = client_state.clone_value();
    new_client_state.tendermint_client_state.latest_height = header_height.max(
        client_state.latest_height(),
    );
    proof {
        assert(new_client_state@ == spec_with_latest(client_state@, header@.tendermint_header.height));
    }
    let r1 = ctx.store_consensus_state(header_height, new_consensus_state);
    if r1.is_err() {
        return Err(ContractError::MissingConsensusState);
    }
    let r2 = ctx.store_client_state(new_client_state);
    if r2.is_err() {
        return Err(ContractError::MissingClientState);
    }
    let r3 = ctx.store_update_meta(header_height, host_timestamp, host_height);
    if r3.is_err() {
        return Err(ContractError::MissingUpdateMeta);
    }
    let mut heights: Vec<Height> = Vec::new();
    heights.push(header_height);
    proof {
        assert(heights@ =~= seq![header@.tendermint_header.height]);
    }
    Ok(heights)
}

/// Commits the frozen client state after proven misbehaviour: the frozen
/// height is set to the canonical sentinel, identical for every
/// misbehaviour event, and no consensus state is deleted.
pub fn update_on_misbehaviour(client_state: &ClientState, ctx: &mut Context) -> (r: Result<
    (),
    ContractError,
>)
    requires
        old(ctx).wf(),
    ensures
        r is Ok,
        final(ctx).wf(),
        final(ctx).client_state_view() == Some(spec_freeze(client_state@)),
        spec_freeze(client_state@).frozen_height() == Some(spec_frozen_sentinel()),
        forall|h: Height| final(ctx).consensus_at(h) == old(ctx).consensus_at(h),
        forall|h: Height| final(ctx).meta_at(h) == old(ctx).meta_at(h),
        final(ctx).spec_host_timestamp() == old(ctx).spec_host_timestamp(),
        final(ctx).spec_host_height() == old(ctx).spec_host_height(),
{
    let frozen_client_state = client_state.clone_value().with_frozen_height(frozen_sentinel());
    proof {
        assert(frozen_client_state@ == spec_freeze(client_state@));
    }
    ctx.store_client_state(frozen_client_state)
}

/// Commits the upgraded client and consensus state. Fails with
/// `LowUpgradeHeight` exactly when the upgraded client's latest height does
/// not exceed the current one, and with `MissingUpgradePath` exactly when
/// the current client has no upgrade path configured; on success the
/// upgraded states are committed at the new latest height, which is
/// returned. Proof verification against the committed root happens in the
/// upgrade-verification step preceding this commit.
pub fn update_state_on_upgrade(
    client_state: &ClientState,
    ctx: &mut Context,
    upgraded_client_state: &ClientState,
    upgraded_consensus_state: &ConsensusState,
) -> (r: Result<Height, ContractError>)
    requires
        old(ctx).wf(),
    ensures
        final(ctx).wf(),
        final(ctx).spec_host_timestamp() == old(ctx).spec_host_timestamp(),
        final(ctx).spec_host_height() == old(ctx).spec_host_height(),
        upgraded_client_state@.latest_height().spec_le(client_state@.latest_height()) <==> r == Err::<
            Height,
            ContractError,
        >(
            ContractError::LowUpgradeHeight {
                latest_height: client_state@.latest_height(),
                upgraded_height: upgraded_client_state@.latest_height(),
            },
        ),
        !upgraded_client_state@.latest_height().spec_le(client_state@.latest_height())
            && client_state@.tendermint_client_state.upgrade_path.len() == 0 ==> r == Err::<
            Height,
            ContractError,
        >(ContractError::MissingUpgradePath),
        r is Ok <==> client_state@.latest_height().spec_lt(upgraded_client_state@.latest_height())
            && client_state@.tendermint_client_state.upgrade_path.len() > 0,
        r is Err ==> {
            &&& final(ctx).client_state_view() == old(ctx).client_state_view()
            &&& forall|h: Height| final(ctx).consensus_at(h) == old(ctx).consensus_at(h)
            &&& forall|h: Height| final(ctx).meta_at(h) == old(ctx).meta_at(h)
        },
        r matches Ok(new_height) ==> {
            &&& new_height == upgraded_client_state@.latest_height()
            &&& client_state@.latest_height().spec_lt(new_height)
            &&& final(ctx).client_state_view() == Some(upgraded_client_state@)
            &&& forall|h: Height|
                final(ctx).consensus_at(h) == if h == upgraded_client_state@.latest_height() {
                    Some(upgraded_consensus_state@)
                } else {
                    old(ctx).consensus_at(h)
                }
            &&& forall|h: Height|
                final(ctx).meta_at(h) == if h == upgraded_client_state@.latest_height() {
                    Some(
                        (
                            old(ctx).spec_host_timestamp(),
                            old(ctx).spec_host_height().revision_height,
                        ),
                    )
                } else {
                    old(ctx).meta_at(h)
                }
        },
{
    let latest = client_state.latest_height();
    let upgraded_height = upgraded_client_state.latest_height();
    if upgraded_height.le(&latest) {
        return Err(
            ContractError::LowUpgradeHeight { latest_height: latest, upgraded_height },
        );
    }
    if client_state.tendermint_client_state.upgrade_path.len() == 0 {
        return Err(ContractError::MissingUpgradePath);
    }
    let host_timestamp = ctx.host_timestamp();
    let host_height = ctx.host_height();
    let r1 = ctx.store_client_state(upgraded_client_state.clone_value());
    if r1.is_err() {
        return Err(ContractError::MissingClientState);
    }
    let r2 = ctx.store_consensus_state(upgraded_height, upgraded_consensus_state.clone_value());
    if r2.is_err() {
        return Err(ContractError::MissingConsensusState);
    }
    let r3 = ctx.store_update_meta(upgraded_height, host_timestamp, host_height);
    if r3.is_err() {
        return Err(ContractError::MissingUpdateMeta);
    }
    Ok(upgraded_height)
}

/// The subject client state after recovery by a substitute: the frozen
/// height is cleared and the chain id, trusting period and latest height
/// are taken from the substitute, while all other fields keep the
/// subject's values.
pub open spec fn spec_recovered(
    subject: ClientStateView,
    substitute: ClientStateView,
) -> ClientStateView {
    ClientStateView {
        tendermint_client_state: TendermintClientParamsView {
            chain_id: substitute.tendermint_client_state.chain_id,
            trusting_period: substitute.tendermint_client_state.trusting_period,
            latest_height: substitute.tendermint_client_state.latest_height,
            frozen_height: None,
            ..subject.tendermint_client_state
        },
        ..subject
    }
}

/// Replaces the subject's mutable fields from the substitute after a
/// successful substitute check: the frozen height is cleared, chain id,
/// trusting period and latest height come from the substitute, and the
/// substitute's consensus state is committed at its latest height.
pub fn update_on_recovery(
    subject_client_state: &ClientState,
    ctx: &mut Context,
    substitute_client_state: &ClientState,
    substitute_consensus_state: &ConsensusState,
) -> (r: Result<(), ContractError>)
    requires
        old(ctx).wf(),
    ensures
        r is Ok,
        final(ctx).wf(),
        final(ctx).spec_host_timestamp() == old(ctx).spec_host_timestamp(),
        final(ctx).spec_host_height() == old(ctx).spec_host_height(),
        final(ctx).client_state_view() == Some(
            spec_recovered(subject_client_state@, substitute_client_state@),
        ),
        spec_recovered(subject_client_state@, substitute_client_state@).frozen_height() is None,
        forall|h: Height|
            final(ctx).consensus_at(h)
                == if h == substitute_client_state@.latest_height() {
                Some(substitute_consensus_state@)
            } else {
                old(ctx).consensus_at(h)
            },
        forall|h: Height|
            final(ctx).meta_at(h) == if h == substitute_client_state@.latest_height() {
                Some(
                    (old(ctx).spec_host_timestamp(), old(ctx).spec_host_height().revision_height),
                )
            } else {
                old(ctx).meta_at(h)
            },
{
    let host_timestamp = ctx.host_timestamp();
    let host_height = ctx.host_height();
    let latest = substitute_client_state.latest_height();
    let mut new_client_state = subject_client_state.clone_value();
    new_client_state.tendermint_client_state.chain_id = crate::bytes::clone_bytes(
        &substitute_client_state.tendermint_client_state.chain_id,
    );
    new_client_state.tendermint_client_state.trusting_period =
        substitute_client_state.tendermint_client_state.trusting_period;
    new_client_state.tendermint_client_state.latest_height = latest;
    new_client_state.tendermint_client_state.frozen_height = None;
    proof {
        assert(new_client_state@ == spec_recovered(
            subject_client_state@,
            substitute_client_state@,
        ));
    }
    let r1 = ctx.store_consensus_state(latest, substitute_consensus_state.clone_value());
    if r1.is_err() {
        return r1;
    }
    let r2 = ctx.store_client_state(new_client_state);
    if r2.is_err() {
        return r2;
    }
    ctx.store_update_meta(latest, host_timestamp, host_height)
}

} // verus!
