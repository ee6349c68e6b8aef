use prost::Message;
use tendermint_testgen::{Generator, LightBlock};

use rollkit_ibc::codec;
use rollkit_ibc::contract::{instantiate, query, QueryResponse};
use rollkit_ibc::msg::{InstantiateMsg, QueryMsg, VerifyClientMessageRaw};
use rollkit_ibc::{
    AnyConsensusState, ClientMessage, ClientState, ConsensusState, Context, ContractError, DaData,
    DaParams, Header, Height, TendermintClientParams, TendermintHeader,
};

const TRUSTED_SECS: i64 = 1_700_000_000;

fn h(n: u64) -> Height {
    Height { revision_number: 1, revision_height: n }
}

/// A genuinely signed pair of consecutive blocks: the trusted block at
/// height 10 and the untrusted block at height 11, produced and signed by
/// the same two-validator set, committing the application hash the tests
/// expect.
fn signed_chain() -> (tendermint_testgen::light_block::TmLightBlock, tendermint_testgen::light_block::TmLightBlock)
{
    let validators = [
        tendermint_testgen::Validator::new("1").voting_power(50),
        tendermint_testgen::Validator::new("2").voting_power(50),
    ];
    let app_hash = tendermint::AppHash::try_from(vec![8u8; 32]).expect("app hash");
    let trusted_header = tendermint_testgen::Header::new(&validators)
        .height(10)
        .chain_id("rollkit-1")
        .next_validators(&validators)
        .time(tendermint::Time::from_unix_timestamp(TRUSTED_SECS, 0).expect("time"))
        .app_hash(app_hash);
    let untrusted_header = trusted_header.next();
    let trusted = LightBlock::new_default_with_header(trusted_header);
    let untrusted = LightBlock::new_default_with_header(untrusted_header);
    (trusted.generate().expect("trusted block"), untrusted.generate().expect("untrusted block"))
}

/// The protobuf evidence the embedded Tendermint verifier consumes: the
/// untrusted signed header and validator set, with the trusted height and
/// the trusted validator set.
fn evidence_bytes(
    trusted: &tendermint_testgen::light_block::TmLightBlock,
    untrusted: &tendermint_testgen::light_block::TmLightBlock,
) -> Vec<u8> {
    let raw = ibc_proto::ibc::lightclients::tendermint::v1::Header {
        signed_header: Some(untrusted.signed_header.clone().into()),
        validator_set: Some(untrusted.validators.clone().into()),
        trusted_height: Some(ibc_proto::ibc::core::client::v1::Height {
            revision_number: 1,
            revision_height: 10,
        }),
        trusted_validators: Some(trusted.next_validators.clone().into()),
    };
    raw.encode_to_vec()
}

fn setup() -> (Context, Header) {
    let (trusted, untrusted) = signed_chain();
    let trusted_nvh = trusted.signed_header.header.next_validators_hash.as_bytes().to_vec();
    let untrusted_nvh = untrusted.signed_header.header.next_validators_hash.as_bytes().to_vec();

    let client_state = ClientState {
        tendermint_client_state: TendermintClientParams {
            chain_id: b"rollkit-1".to_vec(),
            trust_level_numerator: 1,
            trust_level_denominator: 3,
            trusting_period: 1_209_600_000_000_000,
            unbonding_period: 1_814_400_000_000_000,
            max_clock_drift: 40_000_000_000,
            frozen_height: None,
            latest_height: h(10),
            upgrade_path: vec![b"upgrade".to_vec()],
        },
        da_params: DaParams { client_id: b"07-tendermint-3".to_vec(), fraud_period_window: 100 },
    };
    let trusted_consensus = ConsensusState {
        timestamp: (TRUSTED_SECS as u64) * 1_000_000_000,
        root: vec![7u8; 32],
        next_validators_hash: trusted_nvh,
    };

    let host_time = (TRUSTED_SECS as u64 + 2) * 1_000_000_000;
    let mut ctx = Context::new(host_time, Height { revision_number: 0, revision_height: 900 });
    let msg = InstantiateMsg {
        client_state: codec::encode_client_state_any(&client_state),
        consensus_state: codec::encode_consensus_state_any(&AnyConsensusState::Rollkit(
            trusted_consensus,
        )),
        checksum: vec![],
    };
    instantiate(&mut ctx, &msg).expect("instantiate");

    let header = Header {
        tendermint_header: TendermintHeader {
            chain_id: b"rollkit-1".to_vec(),
            height: h(11),
            timestamp: (TRUSTED_SECS as u64 + 1) * 1_000_000_000,
            trusted_height: h(10),
            next_validators_hash: untrusted_nvh,
            commitment_root: vec![8u8; 32],
            evidence: evidence_bytes(&trusted, &untrusted),
        },
        da_data: DaData { shared_proof: vec![0xaa, 0xbb] },
    };
    (ctx, header)
}

#[test]
fn header_with_valid_consensus_and_da_proof_is_accepted() {
    let (ctx, header) = setup();
    let raw = VerifyClientMessageRaw { client_message: ClientMessage::Header(header).encode() };
    let r = query(&ctx, QueryMsg::VerifyClientMessage(raw), true);
    assert_eq!(r, Ok(QueryResponse::Verified));
}

#[test]
fn valid_consensus_without_da_proof_is_rejected() {
    // The defining hybrid property: consensus signatures alone never make
    // a header trusted; the DA layer must have confirmed publication.
    let (ctx, header) = setup();
    let raw = VerifyClientMessageRaw { client_message: ClientMessage::Header(header).encode() };
    let r = query(&ctx, QueryMsg::VerifyClientMessage(raw), false);
    assert_eq!(r, Err(ContractError::DaProofVerificationFailed));
}

#[test]
fn tampered_consensus_evidence_is_rejected_despite_da_proof() {
    let (ctx, mut header) = setup();
    // Corrupt one byte deep inside the signed evidence.
    let mid = header.tendermint_header.evidence.len() / 2;
    header.tendermint_header.evidence[mid] ^= 0x01;
    let raw = VerifyClientMessageRaw { client_message: ClientMessage::Header(header).encode() };
    let r = query(&ctx, QueryMsg::VerifyClientMessage(raw), true);
    assert_eq!(r, Err(ContractError::ConsensusVerificationFailed));
}

#[test]
fn wrong_chain_id_is_rejected() {
    let (ctx, mut header) = setup();
    header.tendermint_header.chain_id = b"rollkit-2".to_vec();
    let raw = VerifyClientMessageRaw { client_message: ClientMessage::Header(header).encode() };
    let r = query(&ctx, QueryMsg::VerifyClientMessage(raw), true);
    assert_eq!(r, Err(ContractError::InvalidUpdateClientMessage));
}

#[test]
fn forged_commitment_root_is_rejected_despite_valid_evidence() {
    // Genuine signatures over one application hash must not let a header
    // smuggle in another: the plain fields are bound to the evidence.
    let (ctx, mut header) = setup();
    header.tendermint_header.commitment_root = vec![9u8; 32];
    let raw = VerifyClientMessageRaw { client_message: ClientMessage::Header(header).encode() };
    let r = query(&ctx, QueryMsg::VerifyClientMessage(raw), true);
    assert_eq!(r, Err(ContractError::InvalidUpdateClientMessage));
}

#[test]
fn forged_timestamp_is_rejected_despite_valid_evidence() {
    let (ctx, mut header) = setup();
    header.tendermint_header.timestamp += 1;
    let raw = VerifyClientMessageRaw { client_message: ClientMessage::Header(header).encode() };
    let r = query(&ctx, QueryMsg::VerifyClientMessage(raw), true);
    assert_eq!(r, Err(ContractError::InvalidUpdateClientMessage));
}

#[test]
fn forged_next_validators_hash_is_rejected_despite_valid_evidence() {
    let (ctx, mut header) = setup();
    header.tendermint_header.next_validators_hash = vec![1u8; 32];
    let raw = VerifyClientMessageRaw { client_message: ClientMessage::Header(header).encode() };
    let r = query(&ctx, QueryMsg::VerifyClientMessage(raw), true);
    assert_eq!(r, Err(ContractError::InvalidUpdateClientMessage));
}

#[test]
fn forged_revision_number_is_rejected() {
    // The revision number must be the one the evidence's chain id embeds.
    let (ctx, mut header) = setup();
    header.tendermint_header.height.revision_number = 2;
    header.tendermint_header.trusted_height.revision_number = 2;
    let raw = VerifyClientMessageRaw { client_message: ClientMessage::Header(header).encode() };
    let r = query(&ctx, QueryMsg::VerifyClientMessage(raw), true);
    assert_eq!(r, Err(ContractError::InvalidUpdateClientMessage));
}

#[test]
fn header_with_unknown_trusted_height_is_rejected() {
    // Evidence claiming a trusted height the store does not hold.
    let (ctx, _) = setup();
    let (trusted, untrusted) = signed_chain();
    let untrusted_nvh = untrusted.signed_header.header.next_validators_hash.as_bytes().to_vec();
    let raw_header = ibc_proto::ibc::lightclients::tendermint::v1::Header {
        signed_header: Some(untrusted.signed_header.clone().into()),
        validator_set: Some(untrusted.validators.clone().into()),
        trusted_height: Some(ibc_proto::ibc::core::client::v1::Height {
            revision_number: 1,
            revision_height: 9,
        }),
        trusted_validators: Some(trusted.next_validators.clone().into()),
    };
    let header = Header {
        tendermint_header: TendermintHeader {
            chain_id: b"rollkit-1".to_vec(),
            height: h(11),
            timestamp: (TRUSTED_SECS as u64 + 1) * 1_000_000_000,
            trusted_height: h(9),
            next_validators_hash: untrusted_nvh,
            commitment_root: vec![8u8; 32],
            evidence: raw_header.encode_to_vec(),
        },
        da_data: DaData { shared_proof: vec![0xaa] },
    };
    let raw = VerifyClientMessageRaw { client_message: ClientMessage::Header(header).encode() };
    let r = query(&ctx, QueryMsg::VerifyClientMessage(raw), true);
    assert_eq!(r, Err(ContractError::MissingConsensusState));
}

#[test]
fn wrong_stored_validator_hash_fails_consensus_verification() {
    // The evidence is genuine and bound, but the trusted snapshot in the
    // store names a different next-validators hash: the embedded verifier
    // must refuse the update.
    let (trusted, untrusted) = signed_chain();
    let untrusted_nvh = untrusted.signed_header.header.next_validators_hash.as_bytes().to_vec();

    let client_state = ClientState {
        tendermint_client_state: TendermintClientParams {
            chain_id: b"rollkit-1".to_vec(),
            trust_level_numerator: 1,
            trust_level_denominator: 3,
            trusting_period: 1_209_600_000_000_000,
            unbonding_period: 1_814_400_000_000_000,
            max_clock_drift: 40_000_000_000,
            frozen_height: None,
            latest_height: h(10),
            upgrade_path: vec![b"upgrade".to_vec()],
        },
        da_params: DaParams { client_id: b"07-tendermint-3".to_vec(), fraud_period_window: 100 },
    };
    let trusted_consensus = ConsensusState {
        timestamp: (TRUSTED_SECS as u64) * 1_000_000_000,
        root: vec![7u8; 32],
        next_validators_hash: vec![2u8; 32],
    };
    let host_time = (TRUSTED_SECS as u64 + 2) * 1_000_000_000;
    let mut ctx = Context::new(host_time, Height { revision_number: 0, revision_height: 900 });
    let msg = InstantiateMsg {
        client_state: codec::encode_client_state_any(&client_state),
        consensus_state: codec::encode_consensus_state_any(&AnyConsensusState::Rollkit(
            trusted_consensus,
        )),
        checksum: vec![],
    };
    instantiate(&mut ctx, &msg).expect("instantiate");

    let header = Header {
        tendermint_header: TendermintHeader {
            chain_id: b"rollkit-1".to_vec(),
            height: h(11),
            timestamp: (TRUSTED_SECS as u64 + 1) * 1_000_000_000,
            trusted_height: h(10),
            next_validators_hash: untrusted_nvh,
            commitment_root: vec![8u8; 32],
            evidence: evidence_bytes(&trusted, &untrusted),
        },
        da_data: DaData { shared_proof: vec![0xaa] },
    };
    let raw = VerifyClientMessageRaw { client_message: ClientMessage::Header(header).encode() };
    let r = query(&ctx, QueryMsg::VerifyClientMessage(raw), true);
    assert_eq!(r, Err(ContractError::ConsensusVerificationFailed));
}
