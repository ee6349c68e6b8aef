use rollkit_ibc::codec;
use rollkit_ibc::contract::{execute, instantiate, query, QueryResponse};
use rollkit_ibc::execution;
use rollkit_ibc::msg::{
    InstantiateMsg, QueryMsg, StatusMsg, SudoMsg, TimestampAtHeightMsg, UpdateStateMsgRaw,
    UpdateStateOnMisbehaviourMsgRaw, VerifyUpgradeAndUpdateStateMsgRaw,
};
use rollkit_ibc::verification;
use rollkit_ibc::{
    AnyConsensusState, ClientMessage, ClientState, ConsensusState, Context, ContractError, DaData,
    DaParams, Header, Height, Status, TendermintClientParams, TendermintHeader,
};

const HOST_TIME: u64 = 1_700_000_200_000_000_000;

fn h(n: u64) -> Height {
    Height { revision_number: 1, revision_height: n }
}

fn client_state_at(latest: u64) -> ClientState {
    ClientState {
        tendermint_client_state: TendermintClientParams {
            chain_id: b"rollkit-1".to_vec(),
            trust_level_numerator: 1,
            trust_level_denominator: 3,
            trusting_period: 1_209_600_000_000_000,
            unbonding_period: 1_814_400_000_000_000,
            max_clock_drift: 40_000_000_000,
            frozen_height: None,
            latest_height: h(latest),
            upgrade_path: vec![b"upgrade".to_vec()],
        },
        da_params: DaParams { client_id: b"07-tendermint-3".to_vec(), fraud_period_window: 100 },
    }
}

fn consensus_at(ts: u64) -> ConsensusState {
    ConsensusState { timestamp: ts, root: vec![7u8; 32], next_validators_hash: vec![9u8; 32] }
}

fn header_at(height: u64, trusted: u64, ts: u64) -> Header {
    Header {
        tendermint_header: TendermintHeader {
            chain_id: b"rollkit-1".to_vec(),
            height: h(height),
            timestamp: ts,
            trusted_height: h(trusted),
            next_validators_hash: vec![9u8; 32],
            commitment_root: vec![8u8; 32],
            evidence: vec![1, 2, 3],
        },
        da_data: DaData { shared_proof: vec![0xaa] },
    }
}

fn fresh_client() -> Context {
    let mut ctx = Context::new(HOST_TIME, Height { revision_number: 0, revision_height: 500 });
    let msg = InstantiateMsg {
        client_state: codec::encode_client_state_any(&client_state_at(10)),
        consensus_state: codec::encode_consensus_state_any(&AnyConsensusState::Rollkit(
            consensus_at(1_700_000_000_000_000_000),
        )),
        checksum: vec![1, 2, 3],
    };
    instantiate(&mut ctx, &msg).expect("instantiate");
    ctx
}

fn update_raw(header: Header) -> SudoMsg {
    SudoMsg::UpdateState(UpdateStateMsgRaw {
        client_message: ClientMessage::Header(header).encode(),
    })
}

#[test]
fn fresh_client_is_active_and_reports_timestamp() {
    let ctx = fresh_client();
    let status = query(&ctx, QueryMsg::Status(StatusMsg {}), false).expect("status");
    assert_eq!(status, QueryResponse::Status(Status::Active));
    let ts = query(
        &ctx,
        QueryMsg::TimestampAtHeight(TimestampAtHeightMsg { height: h(10) }),
        false,
    )
    .expect("timestamp");
    assert_eq!(ts, QueryResponse::Timestamp(1_700_000_000_000_000_000));
}

#[test]
fn status_unknown_without_client_state() {
    let ctx = Context::new(HOST_TIME, h(500));
    let status = query(&ctx, QueryMsg::Status(StatusMsg {}), false).expect("status");
    assert_eq!(status, QueryResponse::Status(Status::Unknown));
}

#[test]
fn status_expires_after_trusting_period() {
    let mut ctx = Context::new(
        1_700_000_000_000_000_000 + 2_000_000_000_000_000,
        h(500),
    );
    let msg = InstantiateMsg {
        client_state: codec::encode_client_state_any(&client_state_at(10)),
        consensus_state: codec::encode_consensus_state_any(&AnyConsensusState::Rollkit(
            consensus_at(1_700_000_000_000_000_000),
        )),
        checksum: vec![],
    };
    instantiate(&mut ctx, &msg).expect("instantiate");
    let status = query(&ctx, QueryMsg::Status(StatusMsg {}), false).expect("status");
    assert_eq!(status, QueryResponse::Status(Status::Expired));
}

#[test]
fn update_advances_latest_height_monotonically() {
    let mut ctx = fresh_client();
    let heights =
        execute(&mut ctx, update_raw(header_at(12, 10, 1_700_000_050_000_000_000))).expect("update");
    assert_eq!(heights, vec![h(12)]);
    let cs = ctx.client_state().expect("client state");
    assert_eq!(cs.tendermint_client_state.latest_height, h(12));

    // An older header is accepted but never lowers the latest height.
    let heights =
        execute(&mut ctx, update_raw(header_at(11, 10, 1_700_000_020_000_000_000))).expect("update");
    assert_eq!(heights, vec![h(11)]);
    let cs = ctx.client_state().expect("client state");
    assert_eq!(cs.tendermint_client_state.latest_height, h(12));
}

#[test]
fn update_at_existing_height_is_a_no_op() {
    let mut ctx = fresh_client();
    execute(&mut ctx, update_raw(header_at(12, 10, 1_700_000_050_000_000_000))).expect("update");
    let stored = ctx.consensus_state(h(12)).expect("stored");
    // A conflicting header at the same height must never overwrite the
    // committed consensus state.
    let conflicting = header_at(12, 10, 1_700_000_060_000_000_000);
    execute(&mut ctx, update_raw(conflicting)).expect("no-op update");
    assert_eq!(ctx.consensus_state(h(12)).expect("stored"), stored);
}

#[test]
fn conflicting_header_is_flagged_as_misbehaviour() {
    let mut ctx = fresh_client();
    execute(&mut ctx, update_raw(header_at(12, 10, 1_700_000_050_000_000_000))).expect("update");
    let mut conflicting = header_at(12, 10, 1_700_000_050_000_000_000);
    conflicting.tendermint_header.commitment_root = vec![3u8; 32];
    let raw = rollkit_ibc::msg::CheckForMisbehaviourMsgRaw {
        client_message: ClientMessage::Header(conflicting).encode(),
    };
    let r = query(&ctx, QueryMsg::CheckForMisbehaviour(raw), false).expect("check");
    assert_eq!(r, QueryResponse::Misbehaviour(true));
}

#[test]
fn freeze_is_idempotent_and_blocks_updates() {
    let mut ctx = fresh_client();
    let freeze = SudoMsg::UpdateStateOnMisbehaviour(UpdateStateOnMisbehaviourMsgRaw {
        client_message: ClientMessage::Header(header_at(12, 10, 1_700_000_050_000_000_000))
            .encode(),
    });
    execute(&mut ctx, freeze.clone()).expect("freeze");
    let frozen_once = ctx.client_state().expect("client state");
    assert_eq!(
        frozen_once.tendermint_client_state.frozen_height,
        Some(Height { revision_number: 1, revision_height: 0 })
    );
    // Freezing again records the very same frozen height.
    execute(&mut ctx, freeze).expect("freeze again");
    let frozen_twice = ctx.client_state().expect("client state");
    assert_eq!(frozen_once, frozen_twice);
    // Status reports the freeze, and updates now fail.
    let status = query(&ctx, QueryMsg::Status(StatusMsg {}), false).expect("status");
    assert_eq!(status, QueryResponse::Status(Status::Frozen));
    let r = execute(&mut ctx, update_raw(header_at(13, 12, 1_700_000_070_000_000_000)));
    assert_eq!(r, Err(ContractError::FrozenClient));
}

#[test]
fn upgrade_with_low_height_is_rejected() {
    let mut ctx = fresh_client();
    let upgraded = client_state_at(10);
    let raw = SudoMsg::VerifyUpgradeAndUpdateState(VerifyUpgradeAndUpdateStateMsgRaw {
        upgrade_client_state: codec::encode_client_state_any(&upgraded),
        upgrade_consensus_state: codec::encode_consensus_state_any(&AnyConsensusState::Rollkit(
            consensus_at(1_700_000_100_000_000_000),
        )),
        proof_upgrade_client: vec![1],
        proof_upgrade_consensus_state: vec![1],
    });
    let r = execute(&mut ctx, raw);
    assert_eq!(
        r,
        Err(ContractError::LowUpgradeHeight { latest_height: h(10), upgraded_height: h(10) })
    );
}

#[test]
fn upgrade_without_upgrade_path_is_rejected() {
    let mut subject = client_state_at(10);
    subject.tendermint_client_state.upgrade_path = vec![];
    let upgraded = client_state_at(20);
    let vs = consensus_at(1_700_000_100_000_000_000);
    let mut ctx = Context::new(HOST_TIME, h(500));
    let r = execution::update_state_on_upgrade(&subject, &mut ctx, &upgraded, &vs);
    assert_eq!(r, Err(ContractError::MissingUpgradePath));
}

#[test]
fn upgrade_commits_the_upgraded_states() {
    let mut ctx = fresh_client();
    let subject = client_state_at(10);
    let upgraded = client_state_at(20);
    let upgraded_vs = ConsensusState {
        timestamp: 1_700_000_100_000_000_000,
        root: vec![6u8; 32],
        next_validators_hash: vec![5u8; 32],
    };
    let new_height =
        execution::update_state_on_upgrade(&subject, &mut ctx, &upgraded, &upgraded_vs)
            .expect("upgrade");
    assert_eq!(new_height, h(20));
    let cs = ctx.client_state().expect("client state");
    assert_eq!(cs, upgraded);
    assert_eq!(ctx.consensus_state(h(20)).expect("consensus"), upgraded_vs);
    // The earlier consensus state is kept; pruning is only ever explicit.
    assert!(ctx.consensus_state(h(10)).is_ok());
}

#[test]
fn recovery_clears_the_frozen_height() {
    let mut ctx = fresh_client();
    let mut subject = client_state_at(10);
    subject.tendermint_client_state.frozen_height =
        Some(Height { revision_number: 1, revision_height: 0 });
    let mut substitute = client_state_at(30);
    substitute.tendermint_client_state.chain_id = b"rollkit-2".to_vec();
    verification::check_substitute(&subject, &substitute).expect("substitute matches");
    let vs = consensus_at(1_700_000_150_000_000_000);
    execution::update_on_recovery(&subject, &mut ctx, &substitute, &vs).expect("recovery");
    let recovered = ctx.client_state().expect("client state");
    assert_eq!(recovered.tendermint_client_state.frozen_height, None);
    assert_eq!(recovered.tendermint_client_state.latest_height, h(30));
    assert_eq!(recovered.tendermint_client_state.chain_id, b"rollkit-2".to_vec());
    // Identity fields keep the subject's values.
    assert_eq!(
        recovered.da_params,
        DaParams { client_id: b"07-tendermint-3".to_vec(), fraud_period_window: 100 }
    );
}

#[test]
fn substitute_with_different_trust_level_is_rejected() {
    let subject = client_state_at(10);
    let mut substitute = client_state_at(30);
    substitute.tendermint_client_state.trust_level_numerator = 2;
    assert_eq!(
        verification::check_substitute(&subject, &substitute),
        Err(ContractError::SubstituteMismatch)
    );
}

#[test]
fn proof_height_above_latest_is_rejected() {
    let cs = client_state_at(10);
    assert_eq!(
        verification::validate_proof_height(&cs, h(11)),
        Err(ContractError::ProofHeightTooHigh { latest_height: h(10), proof_height: h(11) })
    );
    assert!(verification::validate_proof_height(&cs, h(10)).is_ok());
}

#[test]
fn empty_commitment_root_is_rejected() {
    let vs = ConsensusState { timestamp: 1, root: vec![], next_validators_hash: vec![9u8; 32] };
    assert_eq!(
        verification::verify_consensus_state(&vs),
        Err(ContractError::InvalidConsensusState)
    );
}

#[test]
fn export_metadata_lists_update_heights_in_order() {
    let mut ctx = fresh_client();
    // Updates arrive out of height order; the export is ascending anyway.
    execute(&mut ctx, update_raw(header_at(12, 10, 1_700_000_050_000_000_000))).expect("update");
    execute(&mut ctx, update_raw(header_at(11, 10, 1_700_000_020_000_000_000))).expect("update");
    let r = query(&ctx, QueryMsg::ExportMetadata(rollkit_ibc::msg::ExportMetadataMsg {}), false)
        .expect("metadata");
    match r {
        QueryResponse::Metadata(entries) => {
            let heights: Vec<u64> = entries.iter().map(|e| e.0.revision_height).collect();
            assert_eq!(heights, vec![10, 11, 12]);
            for e in &entries {
                assert_eq!(e.1, HOST_TIME);
                assert_eq!(e.2, 500);
            }
        }
        other => panic!("unexpected response: {:?}", other),
    }
}

#[test]
fn misbehaviour_message_with_equal_heights_detects_conflict() {
    let ctx = fresh_client();
    let h1 = header_at(12, 10, 1_700_000_050_000_000_000).tendermint_header;
    let mut h2 = header_at(12, 10, 1_700_000_050_000_000_000).tendermint_header;
    h2.commitment_root = vec![3u8; 32];
    let msg = ClientMessage::Misbehaviour(rollkit_ibc::Misbehaviour {
        client_id: b"07-rollkit-0".to_vec(),
        header1: h1.clone(),
        header2: h2,
    });
    let raw = rollkit_ibc::msg::CheckForMisbehaviourMsgRaw { client_message: msg.encode() };
    let r = query(&ctx, QueryMsg::CheckForMisbehaviour(raw), false).expect("check");
    assert_eq!(r, QueryResponse::Misbehaviour(true));
    // The same header twice is evidence of nothing.
    let msg = ClientMessage::Misbehaviour(rollkit_ibc::Misbehaviour {
        client_id: b"07-rollkit-0".to_vec(),
        header1: h1.clone(),
        header2: h1,
    });
    let raw = rollkit_ibc::msg::CheckForMisbehaviourMsgRaw { client_message: msg.encode() };
    let r = query(&ctx, QueryMsg::CheckForMisbehaviour(raw), false).expect("check");
    assert_eq!(r, QueryResponse::Misbehaviour(false));
}

#[test]
fn undecodable_evidence_is_rejected_as_invalid_update() {
    let ctx = fresh_client();
    // The DA proof verified, but the consensus evidence does not decode,
    // so no field binding can be established: the header is malformed.
    let raw = rollkit_ibc::msg::VerifyClientMessageRaw {
        client_message: ClientMessage::Header(header_at(12, 10, 1_700_000_050_000_000_000))
            .encode(),
    };
    let r = query(&ctx, QueryMsg::VerifyClientMessage(raw), true);
    assert_eq!(r, Err(ContractError::InvalidUpdateClientMessage));
}

#[test]
fn update_without_client_state_is_rejected() {
    let mut ctx = Context::new(HOST_TIME, h(500));
    let r = execute(&mut ctx, update_raw(header_at(12, 10, 1_700_000_050_000_000_000)));
    assert_eq!(r, Err(ContractError::MissingClientState));
}

#[test]
fn timestamp_query_at_unknown_height_fails() {
    let ctx = fresh_client();
    let r = query(
        &ctx,
        QueryMsg::TimestampAtHeight(TimestampAtHeightMsg { height: h(99) }),
        false,
    );
    assert_eq!(r, Err(ContractError::MissingConsensusState));
}

#[test]
fn update_meta_at_unknown_height_fails() {
    let ctx = fresh_client();
    assert_eq!(ctx.client_update_meta(h(99)), Err(ContractError::MissingUpdateMeta));
    let (t, hh) = ctx.client_update_meta(h(10)).expect("meta");
    assert_eq!(t, HOST_TIME);
    assert_eq!(hh, Height { revision_number: 0, revision_height: 500 });
}

#[test]
fn empty_key_path_is_an_invalid_message() {
    let raw = rollkit_ibc::msg::VerifyMembershipMsgRaw {
        proof: vec![1],
        path: rollkit_ibc::msg::MerklePath { key_path: vec![] },
        value: vec![2],
        height: h(10),
        delay_block_period: 0,
        delay_time_period: 0,
    };
    assert_eq!(
        rollkit_ibc::msg::VerifyMembershipMsg::try_from(raw),
        Err(ContractError::InvalidMsg)
    );
}

#[test]
fn inconsistent_header_fields_fail_basic_validation() {
    let mut header = header_at(12, 10, 1_700_000_050_000_000_000);
    header.tendermint_header.next_validators_hash = vec![9u8; 31];
    assert_eq!(header.validate_basic(), Err(ContractError::InvalidHeader));
    let header = header_at(12, 10, 1_700_000_050_000_000_000);
    assert!(header.validate_basic().is_ok());
}

#[test]
fn non_monotonic_timestamps_are_misbehaviour() {
    let mut ctx = fresh_client();
    // Trusted states at heights 10 (instantiation) and 14.
    execute(&mut ctx, update_raw(header_at(14, 10, 1_700_000_080_000_000_000))).expect("update");
    // A fresh header between them whose timestamp does not exceed the
    // previous state's timestamp is misbehaviour.
    let stale = header_at(12, 10, 1_700_000_000_000_000_000);
    let raw = rollkit_ibc::msg::CheckForMisbehaviourMsgRaw {
        client_message: ClientMessage::Header(stale).encode(),
    };
    let r = query(&ctx, QueryMsg::CheckForMisbehaviour(raw), false).expect("check");
    assert_eq!(r, QueryResponse::Misbehaviour(true));
    // One whose timestamp does not precede the next state's timestamp is
    // misbehaviour too.
    let rushed = header_at(12, 10, 1_700_000_080_000_000_000);
    let raw = rollkit_ibc::msg::CheckForMisbehaviourMsgRaw {
        client_message: ClientMessage::Header(rushed).encode(),
    };
    let r = query(&ctx, QueryMsg::CheckForMisbehaviour(raw), false).expect("check");
    assert_eq!(r, QueryResponse::Misbehaviour(true));
    // A header strictly between the neighbouring timestamps is fine.
    let sane = header_at(12, 10, 1_700_000_040_000_000_000);
    let raw = rollkit_ibc::msg::CheckForMisbehaviourMsgRaw {
        client_message: ClientMessage::Header(sane).encode(),
    };
    let r = query(&ctx, QueryMsg::CheckForMisbehaviour(raw), false).expect("check");
    assert_eq!(r, QueryResponse::Misbehaviour(false));
}

#[test]
fn malformed_header_is_rejected_as_invalid_update() {
    let ctx = fresh_client();
    // Trusted height not below the header's height.
    let raw = rollkit_ibc::msg::VerifyClientMessageRaw {
        client_message: ClientMessage::Header(header_at(10, 10, 1_700_000_050_000_000_000))
            .encode(),
    };
    let r = query(&ctx, QueryMsg::VerifyClientMessage(raw), true);
    assert_eq!(r, Err(ContractError::InvalidUpdateClientMessage));
}
