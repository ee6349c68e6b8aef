use prost::Message;
use rollkit_ibc::codec;
use rollkit_ibc::contract::{execute, instantiate, query, QueryResponse};
use rollkit_ibc::msg::{
    Base64, InstantiateMsg, MerklePath, QueryMsg, StatusMsg, SudoMsg, VerifyMembershipMsgRaw,
};
use rollkit_ibc::verification;
use rollkit_ibc::{
    AnyConsensusState, ClientState, ConsensusState, Context, ContractError, DaParams, Height,
    Status, TendermintClientParams,
};

const HOST_TIME: u64 = 1_700_000_200_000_000_000;

fn h(n: u64) -> Height {
    Height { revision_number: 1, revision_height: n }
}

/// Leaf op accepted by the ICS-23 IAVL spec: the prefix carries the
/// height, size and version varints of a depth-zero IAVL node.
fn iavl_leaf() -> ics23::LeafOp {
    ics23::LeafOp {
        hash: ics23::HashOp::Sha256.into(),
        prehash_key: 0,
        prehash_value: ics23::HashOp::Sha256.into(),
        length: ics23::LengthOp::VarProto.into(),
        prefix: vec![0x00, 0x02, 0x02],
    }
}

/// Leaf op accepted by the ICS-23 Tendermint spec.
fn tm_leaf() -> ics23::LeafOp {
    ics23::LeafOp {
        hash: ics23::HashOp::Sha256.into(),
        prehash_key: 0,
        prehash_value: ics23::HashOp::Sha256.into(),
        length: ics23::LengthOp::VarProto.into(),
        prefix: vec![0x00],
    }
}

fn existence(key: &[u8], value: &[u8], leaf: ics23::LeafOp) -> ics23::ExistenceProof {
    ics23::ExistenceProof { key: key.to_vec(), value: value.to_vec(), leaf: Some(leaf), path: vec![] }
}

fn commitment(ep: ics23::ExistenceProof) -> ics23::CommitmentProof {
    ics23::CommitmentProof { proof: Some(ics23::commitment_proof::Proof::Exist(ep)) }
}

/// Builds a two-level Cosmos-style membership proof for `value` at
/// `path` under `prefix`, returning the proof bytes and the root they
/// verify against.
fn membership_proof(prefix: &[u8], path: &[u8], value: &[u8]) -> (Vec<u8>, Vec<u8>) {
    let inner = existence(path, value, iavl_leaf());
    let subroot = ics23::calculate_existence_root::<ics23::HostFunctionsManager>(&inner)
        .expect("inner root");
    let outer = existence(prefix, &subroot, tm_leaf());
    let root = ics23::calculate_existence_root::<ics23::HostFunctionsManager>(&outer)
        .expect("outer root");
    let merkle_proof = ibc_proto::ibc::core::commitment::v1::MerkleProof {
        proofs: vec![commitment(inner), commitment(outer)],
    };
    (merkle_proof.encode_to_vec(), root)
}

fn client_with_root(root: Vec<u8>) -> (ClientState, ConsensusState) {
    let cs = ClientState {
        tendermint_client_state: TendermintClientParams {
            chain_id: b"rollkit-1".to_vec(),
            trust_level_numerator: 1,
            trust_level_denominator: 3,
            trusting_period: 1_209_600_000_000_000,
            unbonding_period: 1_814_400_000_000_000,
            max_clock_drift: 40_000_000_000,
            frozen_height: None,
            latest_height: h(10),
            upgrade_path: vec![b"upgrade".to_vec()],
        },
        da_params: DaParams { client_id: b"07-tendermint-3".to_vec(), fraud_period_window: 100 },
    };
    let vs = ConsensusState {
        timestamp: 1_700_000_000_000_000_000,
        root,
        next_validators_hash: vec![9u8; 32],
    };
    (cs, vs)
}

#[test]
fn membership_proof_verifies_and_mutation_is_rejected() {
    let value = b"commitment-value".to_vec();
    let (proof, root) = membership_proof(b"ibc", b"clients07-rollkit-0", &value);
    let (cs, vs) = client_with_root(root);

    let mut ctx = Context::new(HOST_TIME, h(500));
    let msg = InstantiateMsg {
        client_state: codec::encode_client_state_any(&cs),
        consensus_state: codec::encode_consensus_state_any(&AnyConsensusState::Rollkit(vs)),
        checksum: vec![],
    };
    instantiate(&mut ctx, &msg).expect("instantiate");

    let raw = VerifyMembershipMsgRaw {
        proof: proof.clone(),
        path: MerklePath {
            key_path: vec!["ibc".to_string(), "clients".to_string(), "07-rollkit-0".to_string()],
        },
        value: value.clone(),
        height: h(10),
        delay_block_period: 0,
        delay_time_period: 0,
    };
    let r = execute(&mut ctx, SudoMsg::VerifyMembership(raw.clone()));
    assert_eq!(r, Ok(vec![]));

    // The call mutates nothing: the client still reports the same status
    // and stored state afterwards.
    let status = query(&ctx, QueryMsg::Status(StatusMsg {}), false).expect("status");
    assert_eq!(status, QueryResponse::Status(Status::Active));

    // One flipped byte in the proof must fail verification.
    let mut broken = raw;
    let last = broken.proof.len() - 10;
    broken.proof[last] ^= 0x01;
    let r = execute(&mut ctx, SudoMsg::VerifyMembership(broken));
    match r {
        Err(ContractError::ProofVerificationFailed) | Err(ContractError::InvalidProofBytes) => {}
        other => panic!("expected a proof error, got {:?}", other),
    }
}

#[test]
fn membership_with_wrong_value_fails() {
    let value = b"commitment-value".to_vec();
    let (proof, root) = membership_proof(b"ibc", b"clients07-rollkit-0", &value);
    let (cs, _) = client_with_root(root.clone());
    let r = verification::verify_membership(
        &cs,
        &b"ibc".to_vec(),
        &proof,
        &root,
        &b"clients07-rollkit-0".to_vec(),
        &b"some-other-value".to_vec(),
    );
    assert_eq!(r, Err(ContractError::ProofVerificationFailed));
}

#[test]
fn unparseable_proof_bytes_are_reported() {
    let (cs, _) = client_with_root(vec![7u8; 32]);
    let r = verification::verify_membership(
        &cs,
        &b"ibc".to_vec(),
        &vec![0xff, 0xff, 0xff],
        &vec![7u8; 32],
        &b"clients07-rollkit-0".to_vec(),
        &b"value".to_vec(),
    );
    assert_eq!(r, Err(ContractError::InvalidProofBytes));
}

#[test]
fn non_membership_of_present_key_fails() {
    // A membership proof is not a non-membership proof: verification of
    // absence with an existence proof must fail.
    let value = b"commitment-value".to_vec();
    let (proof, root) = membership_proof(b"ibc", b"clients07-rollkit-0", &value);
    let (cs, _) = client_with_root(root.clone());
    let r = verification::verify_non_membership(
        &cs,
        &b"ibc".to_vec(),
        &proof,
        &root,
        &b"clients07-rollkit-0".to_vec(),
    );
    assert_eq!(r, Err(ContractError::ProofVerificationFailed));
}

#[test]
fn non_membership_of_absent_key_verifies() {
    // The absent key sits left of the tree's only leaf, so the proof
    // carries that leaf as the right neighbour and no left neighbour.
    let neighbour = existence(b"zzz-neighbour", b"neighbour-value", iavl_leaf());
    let subroot = ics23::calculate_existence_root::<ics23::HostFunctionsManager>(&neighbour)
        .expect("subroot");
    let non_existence = ics23::NonExistenceProof {
        key: b"clients07-rollkit-0".to_vec(),
        left: None,
        right: Some(neighbour),
    };
    let outer = existence(b"ibc", &subroot, tm_leaf());
    let root = ics23::calculate_existence_root::<ics23::HostFunctionsManager>(&outer)
        .expect("root");
    let proof = ibc_proto::ibc::core::commitment::v1::MerkleProof {
        proofs: vec![
            ics23::CommitmentProof {
                proof: Some(ics23::commitment_proof::Proof::Nonexist(non_existence)),
            },
            commitment(outer),
        ],
    }
    .encode_to_vec();
    let (cs, _) = client_with_root(root.clone());
    let r = verification::verify_non_membership(
        &cs,
        &b"ibc".to_vec(),
        &proof,
        &root,
        &b"clients07-rollkit-0".to_vec(),
    );
    assert_eq!(r, Ok(()));
    // The same proof cannot establish the absence of the key that is in
    // fact present.
    let r = verification::verify_non_membership(
        &cs,
        &b"ibc".to_vec(),
        &proof,
        &root,
        &b"zzz-neighbour".to_vec(),
    );
    assert_eq!(r, Err(ContractError::ProofVerificationFailed));
}

#[test]
fn base64_round_trip_and_known_vector() {
    let bytes = b"hello".to_vec();
    let text = Base64::encode(&bytes);
    assert_eq!(text, "aGVsbG8=");
    assert_eq!(Base64::decode(&text), Some(bytes));
    assert_eq!(Base64::decode("not/base64!!"), None);
}

#[test]
fn da_membership_request_carries_client_id_and_proof() {
    let request = verification::query_verify_membermship_da(
        &b"07-tendermint-3".to_vec(),
        &b"shared-proof".to_vec(),
    );
    // Protobuf: field 1 (client id) then field 2 (proof bytes), both
    // length-delimited.
    let mut expected = vec![0x0a, 15];
    expected.extend_from_slice(b"07-tendermint-3");
    expected.push(0x12);
    expected.push(12);
    expected.extend_from_slice(b"shared-proof");
    assert_eq!(request, expected);
}

#[test]
fn upgrade_with_valid_proofs_commits_through_execute() {
    // Both upgraded states are committed as the two leaves of one IAVL
    // subtree under the "upgrade" prefix, so both proofs verify against
    // the same stored root.
    let (cs, _) = client_with_root(vec![7u8; 32]);
    let mut upgraded = cs.clone();
    upgraded.tendermint_client_state.latest_height = h(20);
    let upgraded_vs = ConsensusState {
        timestamp: 1_700_000_100_000_000_000,
        root: vec![6u8; 32],
        next_validators_hash: vec![5u8; 32],
    };
    let client_value = codec::encode_client_state_any(&upgraded);
    let consensus_value =
        codec::encode_consensus_state_any(&AnyConsensusState::Rollkit(upgraded_vs.clone()));

    let left_key = b"upgradedIBCState/10/upgradedClient".to_vec();
    let right_key = b"upgradedIBCState/10/upgradedConsState".to_vec();
    let left_leaf = existence(&left_key, &client_value, iavl_leaf());
    let right_leaf = existence(&right_key, &consensus_value, iavl_leaf());
    let left_hash = ics23::calculate_existence_root::<ics23::HostFunctionsManager>(&left_leaf)
        .expect("left hash");
    let right_hash = ics23::calculate_existence_root::<ics23::HostFunctionsManager>(&right_leaf)
        .expect("right hash");

    // The parent IAVL node: height/size/version varints, then the two
    // length-prefixed child hashes.
    let mut left_op_prefix = vec![2u8, 4, 2, 0x20];
    let mut left_op_suffix = vec![0x20u8];
    left_op_suffix.extend_from_slice(&right_hash);
    let mut right_op_prefix = vec![2u8, 4, 2, 0x20];
    right_op_prefix.extend_from_slice(&left_hash);
    right_op_prefix.push(0x20);

    let mut left_proof = left_leaf;
    left_proof.path = vec![ics23::InnerOp {
        hash: ics23::HashOp::Sha256.into(),
        prefix: left_op_prefix,
        suffix: left_op_suffix,
    }];
    let mut right_proof = right_leaf;
    right_proof.path = vec![ics23::InnerOp {
        hash: ics23::HashOp::Sha256.into(),
        prefix: right_op_prefix,
        suffix: vec![],
    }];
    let subroot = ics23::calculate_existence_root::<ics23::HostFunctionsManager>(&left_proof)
        .expect("subroot");
    assert_eq!(
        subroot,
        ics23::calculate_existence_root::<ics23::HostFunctionsManager>(&right_proof)
            .expect("subroot"),
    );

    let outer = existence(b"upgrade", &subroot, tm_leaf());
    let root = ics23::calculate_existence_root::<ics23::HostFunctionsManager>(&outer)
        .expect("root");
    let proof_client = ibc_proto::ibc::core::commitment::v1::MerkleProof {
        proofs: vec![commitment(left_proof), commitment(outer.clone())],
    }
    .encode_to_vec();
    let proof_consensus = ibc_proto::ibc::core::commitment::v1::MerkleProof {
        proofs: vec![commitment(right_proof), commitment(outer)],
    }
    .encode_to_vec();

    // Instantiate with the committed root as the trusted root at the
    // latest height, then run the upgrade.
    let (cs, _) = client_with_root(root.clone());
    let trusted_vs = ConsensusState {
        timestamp: 1_700_000_000_000_000_000,
        root,
        next_validators_hash: vec![9u8; 32],
    };
    let mut ctx = Context::new(HOST_TIME, h(500));
    let msg = InstantiateMsg {
        client_state: codec::encode_client_state_any(&cs),
        consensus_state: codec::encode_consensus_state_any(&AnyConsensusState::Rollkit(trusted_vs)),
        checksum: vec![],
    };
    instantiate(&mut ctx, &msg).expect("instantiate");

    let raw = rollkit_ibc::msg::VerifyUpgradeAndUpdateStateMsgRaw {
        upgrade_client_state: client_value,
        upgrade_consensus_state: consensus_value,
        proof_upgrade_client: proof_client,
        proof_upgrade_consensus_state: proof_consensus,
    };
    let r = execute(&mut ctx, SudoMsg::VerifyUpgradeAndUpdateState(raw));
    assert_eq!(r, Ok(vec![h(20)]));
    assert_eq!(ctx.client_state().expect("client state"), upgraded);
    assert_eq!(ctx.consensus_state(h(20)).expect("consensus"), upgraded_vs);
}
