//! The deterministic state-transition module the host invokes once per
//! message: instantiation, the mutating sudo-class operations, and the
//! read-only queries. Every operation either fully commits its writes
//! through the store context or returns an error having changed nothing.

use vstd::prelude::*;
use crate::client_message::ClientMessage;
use crate::codec::{spec_dec_client_message, spec_dec_client_state_any, spec_dec_consensus_state_any};
use crate::context::Context;
use crate::error::ContractError;
use crate::execution;
use crate::height::Height;
use crate::msg::{
    CheckForMisbehaviourMsg, InstantiateMsg, QueryMsg, SudoMsg, UpdateStateMsg,
    UpdateStateOnMisbehaviourMsg, VerifyClientMessageMsg, VerifyMembershipMsg,
    VerifyNonMembershipMsg, VerifyUpgradeAndUpdateStateMsg,
};
use crate::verification;
use crate::verification::Status;

verus! {

/// Whether two store contexts hold the same client state, consensus
/// states and update metadata.
pub open spec fn spec_ctx_unchanged(a: Context, b: Context) -> bool {
    &&& a.client_state_view() == b.client_state_view()
    &&& forall|h: Height| a.consensus_at(h) == b.consensus_at(h)
    &&& forall|h: Height| a.meta_at(h) == b.meta_at(h)
}

/// What a read-only query returns.
#[derive(Clone, Debug, PartialEq, Eq)]
pub enum QueryResponse {
    /// The client's status.
    Status(Status),
    /// The consensus timestamp recorded at the queried height.
    Timestamp(u64),
    /// The queried client message passed verification.
    Verified,
    /// Whether the queried client message evidences misbehaviour.
    Misbehaviour(bool),
    /// The update metadata recorded per trusted height, ascending by
    /// height: height, host timestamp, host height.
    Metadata(Vec<(Height, u64, u64)>),
}

/// Instantiates the client: decodes the initial client and consensus
/// state envelopes and seeds the store with them at the client's latest
/// height. Fails with the decode error — `UnknownConsensusStateType` when
/// the consensus envelope carries an unregistered type — and writes
/// nothing then.
pub fn instantiate(ctx: &mut Context, msg: &InstantiateMsg) -> (r: Result<(), ContractError>)
    requires
        old(ctx).wf(),
    ensures
        final(ctx).wf(),
        final(ctx).spec_host_timestamp() == old(ctx).spec_host_timestamp(),
        final(ctx).spec_host_height() == old(ctx).spec_host_height(),
        r is Ok <==> spec_dec_client_state_any(msg.client_state@) is Ok
            && spec_dec_consensus_state_any(msg.consensus_state@) is Ok,
        r is Err ==> spec_ctx_unchanged(*old(ctx), *final(ctx)),
        spec_dec_client_state_any(msg.client_state@) matches Err(e) ==> r == Result::<
            (),
            ContractError,
        >::Err(e),
        spec_dec_client_state_any(msg.client_state@) is Ok ==> (spec_dec_consensus_state_any(
            msg.consensus_state@,
        ) matches Err(e) ==> r == Result::<(), ContractError>::Err(e)),
        spec_dec_client_state_any(msg.client_state@) matches Ok(cs)
            ==> (spec_dec_consensus_state_any(msg.consensus_state@) matches Ok(vs) ==> {
            &&& final(ctx).client_state_view() == Some(cs)
            &&& forall|h: Height|
                final(ctx).consensus_at(h) == if h == cs.latest_height() {
                    Some(vs)
                } else {
                    old(ctx).consensus_at(h)
                }
            &&& forall|h: Height|
                final(ctx).meta_at(h) == if h == cs.latest_height() {
                    Some(
                        (
                            old(ctx).spec_host_timestamp(),
                            old(ctx).spec_host_height().revision_height,
                        ),
                    )
                } else {
                    old(ctx).meta_at(h)
                }
        }),
{
    let client_state = match crate::codec::decode_client_state_any(&msg.client_state) {
        Ok(cs) => cs,
        Err(e) => {
            return Err(e);
        },
    };
    let consensus_state = match crate::codec::decode_consensus_state_any(&msg.consensus_state) {
        Ok(vs) => vs.into_inner(),
        Err(e) => {
            return Err(e);
        },
    };
    execution::initialise(&client_state, ctx, &consensus_state)
}

/// Handles a membership-verification request read-only: converts the raw
/// request, checks the proof height, and verifies the proof against the
/// root stored at the requested height.
fn sudo_verify_membership(ctx: &Context, raw: crate::msg::VerifyMembershipMsgRaw) -> (r: Result<
    (),
    ContractError,
>)
    ensures
        r is Ok <==> ctx.client_state_view() is Some && ctx.consensus_at(raw.height) is Some
            && verification::spec_membership_request_verified(
            ctx.client_state_view()->Some_0,
            ctx.consensus_at(raw.height)->Some_0,
            raw.proof@,
            raw.path.key_path.deep_view(),
            raw.value@,
            raw.height,
        ),
{
    let typed = match VerifyMembershipMsg::try_from(raw) {
        Ok(t) => t,
        Err(e) => {
            return Err(e);
        },
    };
    let client_state = match ctx.client_state() {
        Ok(cs) => cs,
        Err(e) => {
            return Err(e);
        },
    };
    match verification::validate_proof_height(&client_state, typed.height) {
        Ok(()) => {},
        Err(e) => {
            return Err(e);
        },
    }
    let trusted = match ctx.consensus_state(typed.height) {
        Ok(cs) => cs,
        Err(e) => {
            return Err(e);
        },
    };
    verification::verify_membership(
        &client_state,
        &typed.prefix,
        &typed.proof,
        &trusted.root,
        &typed.path,
        &typed.value,
    )
}

/// Handles a non-membership-verification request read-only, mirroring
/// [`sudo_verify_membership`].
fn sudo_verify_non_membership(
    ctx: &Context,
    raw: crate::msg::VerifyNonMembershipMsgRaw,
) -> (r: Result<(), ContractError>)
    ensures
        r is Ok <==> ctx.client_state_view() is Some && ctx.consensus_at(raw.height) is Some
            && verification::spec_non_membership_request_verified(
            ctx.client_state_view()->Some_0,
            ctx.consensus_at(raw.height)->Some_0,
            raw.proof@,
            raw.path.key_path.deep_view(),
            raw.height,
        ),
{
    let typed = match VerifyNonMembershipMsg::try_from(raw) {
        Ok(t) => t,
        Err(e) => {
            return Err(e);
        },
    };
    let client_state = match ctx.client_state() {
        Ok(cs) => cs,
        Err(e) => {
            return Err(e);
        },
    };
    match verification::validate_proof_height(&client_state, typed.height) {
        Ok(()) => {},
        Err(e) => {
            return Err(e);
        },
    }
    let trusted = match ctx.consensus_state(typed.height) {
        Ok(cs) => cs,
        Err(e) => {
            return Err(e);
        },
    };
    verification::verify_non_membership(
        &client_state,
        &typed.prefix,
        &typed.proof,
        &trusted.root,
        &typed.path,
    )
}

/// Runs the upgrade operation: converts the raw request, verifies both
/// upgraded states against the root stored at the client's latest height,
/// and commits them. Succeeds exactly when the request decodes with
/// non-empty proofs, client and trusted consensus state are present, and
/// the upgrade verifies.
fn sudo_upgrade(ctx: &mut Context, raw: crate::msg::VerifyUpgradeAndUpdateStateMsgRaw) -> (r:
    Result<Height, ContractError>)
    requires
        old(ctx).wf(),
    ensures
        final(ctx).wf(),
        final(ctx).spec_host_timestamp() == old(ctx).spec_host_timestamp(),
        final(ctx).spec_host_height() == old(ctx).spec_host_height(),
        r is Err ==> spec_ctx_unchanged(*old(ctx), *final(ctx)),
        r is Ok <==> {
            &&& spec_dec_client_state_any(raw.upgrade_client_state@) is Ok
            &&& spec_dec_consensus_state_any(raw.upgrade_consensus_state@) is Ok
            &&& raw.proof_upgrade_client@.len() > 0
            &&& raw.proof_upgrade_consensus_state@.len() > 0
            &&& old(ctx).client_state_view() is Some
            &&& old(ctx).consensus_at(old(ctx).client_state_view()->Some_0.latest_height())
                is Some
            &&& verification::spec_upgrade_verified(
                old(ctx).client_state_view()->Some_0,
                spec_dec_client_state_any(raw.upgrade_client_state@)->Ok_0,
                spec_dec_consensus_state_any(raw.upgrade_consensus_state@)->Ok_0,
                raw.proof_upgrade_client@,
                raw.proof_upgrade_consensus_state@,
                old(ctx).consensus_at(
                    old(ctx).client_state_view()->Some_0.latest_height(),
                )->Some_0.root,
            )
        },
        r matches Ok(new_height) ==> {
            &&& new_height == spec_dec_client_state_any(raw.upgrade_client_state@)->Ok_0.latest_height()
            &&& final(ctx).client_state_view() == Some(
                spec_dec_client_state_any(raw.upgrade_client_state@)->Ok_0,
            )
            &&& forall|h: Height|
                final(ctx).consensus_at(h) == if h == new_height {
                    Some(spec_dec_consensus_state_any(raw.upgrade_consensus_state@)->Ok_0)
                } else {
                    old(ctx).consensus_at(h)
                }
            &&& forall|h: Height|
                final(ctx).meta_at(h) == if h == new_height {
                    Some(
                        (
                            old(ctx).spec_host_timestamp(),
                            old(ctx).spec_host_height().revision_height,
                        ),
                    )
                } else {
                    old(ctx).meta_at(h)
                }
        },
{
    let typed = match VerifyUpgradeAndUpdateStateMsg::try_from(raw) {
        Ok(t) => t,
        Err(e) => {
            return Err(e);
        },
    };
    let client_state = match ctx.client_state() {
        Ok(cs) => cs,
        Err(e) => {
            return Err(e);
        },
    };
    let latest = client_state.latest_height();
    let trusted = match ctx.consensus_state(latest) {
        Ok(cs) => cs,
        Err(e) => {
            return Err(e);
        },
    };
    match verification::verify_upgrade_client(
        &client_state,
        &typed.upgrade_client_state,
        &typed.upgrade_consensus_state,
        &typed.proof_upgrade_client,
        &typed.proof_upgrade_consensus_state,
        &trusted.root,
    ) {
        Ok(()) => {},
        Err(e) => {
            return Err(e);
        },
    }
    execution::update_state_on_upgrade(
        &client_state,
        ctx,
        &typed.upgrade_client_state,
        &typed.upgrade_consensus_state,
    )
}

/// Runs a mutating sudo-class operation. Update-class operations assume
/// the host verified the client message beforehand through the
/// verification query, as the host protocol requires. The returned
/// heights are the newly trusted heights, empty for operations that trust
/// none.
#[verifier::rlimit(100)]
#[verifier::spinoff_prover]
pub fn execute(ctx: &mut Context, msg: SudoMsg) -> (r: Result<Vec<Height>, ContractError>)
    requires
        old(ctx).wf(),
    ensures
        final(ctx).wf(),
        final(ctx).spec_host_timestamp() == old(ctx).spec_host_timestamp(),
        final(ctx).spec_host_height() == old(ctx).spec_host_height(),
        r is Err ==> spec_ctx_unchanged(*old(ctx), *final(ctx)),
        msg matches SudoMsg::UpdateState(raw) ==> {
            &&& spec_dec_client_message(raw.client_message@) matches Err(e) ==> r == Result::<
                Vec<Height>,
                ContractError,
            >::Err(e)
            &&& spec_dec_client_message(raw.client_message@) matches Ok(m)
                ==> (m matches crate::client_message::ClientMessageView::Misbehaviour(_) ==> r
                == Result::<Vec<Height>, ContractError>::Err(
                ContractError::InvalidUpdateClientMessage,
            ))
            &&& spec_dec_client_message(raw.client_message@) matches Ok(m) ==> (m matches
                crate::client_message::ClientMessageView::Header(_) ==> (old(
                ctx,
            ).client_state_view() is None ==> r == Result::<Vec<Height>, ContractError>::Err(
                ContractError::MissingClientState,
            )))
            &&& spec_dec_client_message(raw.client_message@) matches Ok(m)
                ==> (m matches crate::client_message::ClientMessageView::Header(h) ==> (old(
                ctx,
            ).client_state_view() matches Some(cs) ==> {
                &&& (r is Err <==> cs.is_frozen())
                &&& cs.is_frozen() ==> r == Result::<Vec<Height>, ContractError>::Err(
                    ContractError::FrozenClient,
                )
                &&& !cs.is_frozen() && old(ctx).consensus_at(h.tendermint_header.height)
                    is Some ==> spec_ctx_unchanged(*old(ctx), *final(ctx))
                &&& !cs.is_frozen() && old(ctx).consensus_at(h.tendermint_header.height)
                    is None ==> {
                    &&& final(ctx).client_state_view() == Some(
                        execution::spec_with_latest(cs, h.tendermint_header.height),
                    )
                    &&& forall|hh: Height|
                        final(ctx).consensus_at(hh) == if hh == h.tendermint_header.height {
                            Some(h.tendermint_header.consensus_state())
                        } else {
                            old(ctx).consensus_at(hh)
                        }
                }
                &&& r matches Ok(hs) ==> hs@ == seq![h.tendermint_header.height]
            }))
        },
        msg matches SudoMsg::UpdateStateOnMisbehaviour(raw) ==> {
            &&& spec_dec_client_message(raw.client_message@) matches Err(e) ==> r == Result::<
                Vec<Height>,
                ContractError,
            >::Err(e)
            &&& spec_dec_client_message(raw.client_message@) is Ok ==> (old(
                ctx,
            ).client_state_view() is None ==> r == Result::<Vec<Height>, ContractError>::Err(
                ContractError::MissingClientState,
            ))
            &&& spec_dec_client_message(raw.client_message@) is Ok ==> (old(
                ctx,
            ).client_state_view() matches Some(cs) ==> {
                &&& r matches Ok(hs) && hs@ == Seq::<Height>::empty()
                &&& final(ctx).client_state_view() == Some(execution::spec_freeze(cs))
                &&& forall|h: Height| final(ctx).consensus_at(h) == old(ctx).consensus_at(h)
                &&& forall|h: Height| final(ctx).meta_at(h) == old(ctx).meta_at(h)
            })
        },
        msg matches SudoMsg::MigrateClientStore(_) ==> r matches Ok(hs) && hs@ == Seq::<
            Height,
        >::empty() && spec_ctx_unchanged(*old(ctx), *final(ctx)),
        msg matches SudoMsg::VerifyMembership(raw) ==> {
            &&& spec_ctx_unchanged(*old(ctx), *final(ctx))
            &&& (r is Ok <==> old(ctx).client_state_view() is Some && old(ctx).consensus_at(
                raw.height,
            ) is Some && verification::spec_membership_request_verified(
                old(ctx).client_state_view()->Some_0,
                old(ctx).consensus_at(raw.height)->Some_0,
                raw.proof@,
                raw.path.key_path.deep_view(),
                raw.value@,
                raw.height,
            ))
        },
        msg matches SudoMsg::VerifyNonMembership(raw) ==> {
            &&& spec_ctx_unchanged(*old(ctx), *final(ctx))
            &&& (r is Ok <==> old(ctx).client_state_view() is Some && old(ctx).consensus_at(
                raw.height,
            ) is Some && verification::spec_non_membership_request_verified(
                old(ctx).client_state_view()->Some_0,
                old(ctx).consensus_at(raw.height)->Some_0,
                raw.proof@,
                raw.path.key_path.deep_view(),
                raw.height,
            ))
        },
        msg matches SudoMsg::VerifyUpgradeAndUpdateState(raw) ==> {
            &&& (r is Ok <==> {
                &&& spec_dec_client_state_any(raw.upgrade_client_state@) is Ok
                &&& spec_dec_consensus_state_any(raw.upgrade_consensus_state@) is Ok
                &&& raw.proof_upgrade_client@.len() > 0
                &&& raw.proof_upgrade_consensus_state@.len() > 0
                &&& old(ctx).client_state_view() is Some
                &&& old(ctx).consensus_at(
                    old(ctx).client_state_view()->Some_0.latest_height(),
                ) is Some
                &&& verification::spec_upgrade_verified(
                    old(ctx).client_state_view()->Some_0,
                    spec_dec_client_state_any(raw.upgrade_client_state@)->Ok_0,
                    spec_dec_consensus_state_any(raw.upgrade_consensus_state@)->Ok_0,
                    raw.proof_upgrade_client@,
                    raw.proof_upgrade_consensus_state@,
                    old(ctx).consensus_at(
                        old(ctx).client_state_view()->Some_0.latest_height(),
                    )->Some_0.root,
                )
            })
            &&& (r matches Ok(hs) ==> {
                &&& hs@ == seq![
                    spec_dec_client_state_any(raw.upgrade_client_state@)->Ok_0.latest_height(),
                ]
                &&& final(ctx).client_state_view() == Some(
                    spec_dec_client_state_any(raw.upgrade_client_state@)->Ok_0,
                )
                &&& forall|h: Height|
                    final(ctx).consensus_at(h) == if h == spec_dec_client_state_any(
                        raw.upgrade_client_state@,
                    )->Ok_0.latest_height() {
                        Some(spec_dec_consensus_state_any(raw.upgrade_consensus_state@)->Ok_0)
                    } else {
                        old(ctx).consensus_at(h)
                    }
            })
        },
{
    match msg {
        SudoMsg::UpdateState(raw) => {
            let typed = match UpdateStateMsg::try_from(raw) {
                Ok(t) => t,
                Err(e) => {
                    return Err(e);
                },
            };
            let header = match typed.client_message {
                ClientMessage::Header(h) => h,
                ClientMessage::Misbehaviour(_) => {
                    return Err(ContractError::InvalidUpdateClientMessage);
                },
            };
            let client_state = match ctx.client_state() {
                Ok(cs) => cs,
                Err(e) => {
                    return Err(e);
                },
            };
            execution::update_state(&client_state, ctx, &header)
        },
        SudoMsg::UpdateStateOnMisbehaviour(raw) => {
            let _typed = match UpdateStateOnMisbehaviourMsg::try_from(raw) {
                Ok(t) => t,
                Err(e) => {
                    return Err(e);
                },
            };
            let client_state = match ctx.client_state() {
                Ok(cs) => cs,
                Err(e) => {
                    return Err(e);
                },
            };
            match execution::update_on_misbehaviour(&client_state, ctx) {
                Ok(()) => Ok(Vec::new()),
                Err(e) => Err(e),
            }
        },
        SudoMsg::VerifyUpgradeAndUpdateState(raw) => {
            match sudo_upgrade(ctx, raw) {
                Ok(new_height) => {
                    let mut heights: Vec<Height> = Vec::new();
                    heights.push(new_height);
                    proof {
                        assert(heights@ =~= seq![new_height]);
                    }
                    Ok(heights)
                },
                Err(e) => Err(e),
            }
        },
        SudoMsg::VerifyMembership(raw) => {
            match sudo_verify_membership(ctx, raw) {
                Ok(()) => Ok(Vec::new()),
                Err(e) => Err(e),
            }
        },
        SudoMsg::VerifyNonMembership(raw) => {
            match sudo_verify_non_membership(ctx, raw) {
                Ok(()) => Ok(Vec::new()),
                Err(e) => Err(e),
            }
        },
        SudoMsg::MigrateClientStore(_) => {
            // Reserved: a no-op placeholder until the protocol specifies
            // the migration.
            Ok(Vec::new())
        },
    }
}

/// Answers a read-only query. `da_verified` is the outcome of the host's
/// membership query against the companion DA light client for the message
/// being verified, built by
/// [`verification::query_verify_membermship_da`]; it is consulted only by
/// the client-message verification query.
pub fn query(ctx: &Context, msg: QueryMsg, da_verified: bool) -> (r: Result<
    QueryResponse,
    ContractError,
>)
    requires
        ctx.wf(),
    ensures
        msg matches QueryMsg::Status(_) ==> {
            &&& ctx.client_state_view() is None ==> r == Result::<
                QueryResponse,
                ContractError,
            >::Ok(QueryResponse::Status(Status::Unknown))
            &&& ctx.client_state_view() matches Some(cs) ==> {
                &&& r is Ok
                &&& cs.is_frozen() ==> r == Result::<QueryResponse, ContractError>::Ok(
                    QueryResponse::Status(Status::Frozen),
                )
                &&& !cs.is_frozen() && ctx.consensus_at(cs.latest_height()) is None ==> r
                    == Result::<QueryResponse, ContractError>::Ok(
                    QueryResponse::Status(Status::Expired),
                )
                &&& !cs.is_frozen() && ctx.consensus_at(cs.latest_height()) is Some ==> r
                    == Result::<QueryResponse, ContractError>::Ok(
                    QueryResponse::Status(
                        if ctx.consensus_at(cs.latest_height())->Some_0.timestamp
                            + cs.tendermint_client_state.trusting_period
                            <= ctx.spec_host_timestamp() {
                            Status::Expired
                        } else {
                            Status::Active
                        },
                    ),
                )
            }
        },
        msg matches QueryMsg::TimestampAtHeight(q) ==> match ctx.consensus_at(q.height) {
            Some(cs) => r == Result::<QueryResponse, ContractError>::Ok(
                QueryResponse::Timestamp(cs.timestamp),
            ),
            None => r == Result::<QueryResponse, ContractError>::Err(
                ContractError::MissingConsensusState,
            ),
        },
        msg matches QueryMsg::VerifyClientMessage(raw) ==> {
            &&& spec_dec_client_message(raw.client_message@) matches Err(e) ==> r == Result::<
                QueryResponse,
                ContractError,
            >::Err(e)
            &&& spec_dec_client_message(raw.client_message@) is Ok ==> (ctx.client_state_view()
                is None ==> r == Result::<QueryResponse, ContractError>::Err(
                ContractError::MissingClientState,
            ))
            &&& spec_dec_client_message(raw.client_message@) matches Ok(m)
                ==> (ctx.client_state_view() matches Some(cs) ==> {
                &&& (r is Ok <==> match m {
                    crate::client_message::ClientMessageView::Header(h) =>
                        verification::spec_header_accepted(
                        cs,
                        *ctx,
                        h.tendermint_header,
                        da_verified,
                    ),
                    crate::client_message::ClientMessageView::Misbehaviour(mi) => {
                        &&& verification::spec_misbehaviour_header_accepted(
                            cs,
                            *ctx,
                            mi.header1,
                        )
                        &&& verification::spec_misbehaviour_header_accepted(
                            cs,
                            *ctx,
                            mi.header2,
                        )
                    },
                })
                &&& r is Ok ==> r == Result::<QueryResponse, ContractError>::Ok(
                    QueryResponse::Verified,
                )
            })
        },
        msg matches QueryMsg::CheckForMisbehaviour(raw) ==> {
            &&& spec_dec_client_message(raw.client_message@) matches Err(e) ==> r == Result::<
                QueryResponse,
                ContractError,
            >::Err(e)
            &&& spec_dec_client_message(raw.client_message@) is Ok ==> (ctx.client_state_view()
                is None ==> r == Result::<QueryResponse, ContractError>::Err(
                ContractError::MissingClientState,
            ))
            &&& spec_dec_client_message(raw.client_message@) matches Ok(m)
                ==> (ctx.client_state_view() is Some ==> {
                &&& r is Ok
                &&& m matches crate::client_message::ClientMessageView::Header(h)
                    ==> (ctx.consensus_at(
                    h.tendermint_header.height,
                ) matches Some(stored) ==> r == Result::<QueryResponse, ContractError>::Ok(
                    QueryResponse::Misbehaviour(
                        stored != h.tendermint_header.consensus_state(),
                    ),
                ))
                &&& m matches crate::client_message::ClientMessageView::Header(h)
                    ==> (ctx.consensus_at(h.tendermint_header.height) is None ==> r == Result::<
                    QueryResponse,
                    ContractError,
                >::Ok(
                    QueryResponse::Misbehaviour(
                        verification::spec_timestamp_violation(
                            *ctx,
                            ctx.client_state_view()->Some_0.latest_height(),
                            h.tendermint_header,
                        ),
                    ),
                ))
                &&& m matches crate::client_message::ClientMessageView::Misbehaviour(mi)
                    ==> r == Result::<QueryResponse, ContractError>::Ok(
                    QueryResponse::Misbehaviour(
                        if mi.header1.height == mi.header2.height {
                            mi.header1 != mi.header2
                        } else {
                            mi.header1.timestamp <= mi.header2.timestamp
                        },
                    ),
                )
            })
        },
        msg matches QueryMsg::ExportMetadata(_) ==> match r {
            Ok(QueryResponse::Metadata(m)) => {
                &&& forall|a: int, b: int|
                    0 <= a < b < m@.len() ==> (#[trigger] m@[a]).0.spec_lt((#[trigger] m@[b]).0)
                &&& forall|i: int|
                    0 <= i < m@.len() ==> ctx.meta_at(#[trigger] m@[i].0) == Some(
                        (m@[i].1, m@[i].2),
                    )
                &&& forall|h: Height| #[trigger] ctx.meta_at(h) is Some ==> (exists|i: int|
                    0 <= i < m@.len() && (#[trigger] m@[i]).0 == h)
            },
            _ => false,
        },
{
    match msg {
        QueryMsg::Status(_) => {
            let client_state = match ctx.client_state() {
                Ok(cs) => cs,
                Err(_) => {
                    return Ok(QueryResponse::Status(Status::Unknown));
                },
            };
            match verification::status(&client_state, ctx) {
                Ok(s) => Ok(QueryResponse::Status(s)),
                Err(e) => Err(e),
            }
        },
        QueryMsg::ExportMetadata(_) => Ok(QueryResponse::Metadata(ctx.export_metadata())),
        QueryMsg::TimestampAtHeight(q) => {
            match ctx.consensus_state(q.height) {
                Ok(cs) => Ok(QueryResponse::Timestamp(cs.timestamp)),
                Err(e) => Err(e),
            }
        },
        QueryMsg::VerifyClientMessage(raw) => {
            let typed = match VerifyClientMessageMsg::try_from(raw) {
                Ok(t) => t,
                Err(e) => {
                    return Err(e);
                },
            };
            let client_state = match ctx.client_state() {
                Ok(cs) => cs,
                Err(e) => {
                    return Err(e);
                },
            };
            match verification::verify_client_message(
                &client_state,
                ctx,
                &typed.client_message,
                da_verified,
            ) {
                Ok(()) => Ok(QueryResponse::Verified),
                Err(e) => Err(e),
            }
        },
        QueryMsg::CheckForMisbehaviour(raw) => {
            let typed = match CheckForMisbehaviourMsg::try_from(raw) {
                Ok(t) => t,
                Err(e) => {
                    return Err(e);
                },
            };
            let client_state = match ctx.client_state() {
                Ok(cs) => cs,
                Err(e) => {
                    return Err(e);
                },
            };
            match verification::check_for_misbehaviour(&client_state, ctx, &typed.client_message) {
                Ok(b) => Ok(QueryResponse::Misbehaviour(b)),
                Err(e) => Err(e),
            }
        },
    }
}

} // verus!
