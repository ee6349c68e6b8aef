use rollkit_ibc::codec;
use rollkit_ibc::{
    ClientMessage, ClientState, ConsensusState, ContractError, DaData, DaParams, Header, Height,
    Misbehaviour, TendermintClientParams, TendermintHeader,
};

fn sample_height() -> Height {
    Height { revision_number: 1, revision_height: 42 }
}

fn sample_params(frozen: Option<Height>) -> TendermintClientParams {
    TendermintClientParams {
        chain_id: b"rollkit-1".to_vec(),
        trust_level_numerator: 1,
        trust_level_denominator: 3,
        trusting_period: 1_209_600_000_000_000,
        unbonding_period: 1_814_400_000_000_000,
        max_clock_drift: 40_000_000_000,
        frozen_height: frozen,
        latest_height: Height { revision_number: 1, revision_height: 10 },
        upgrade_path: vec![b"upgrade".to_vec(), b"upgradedIBCState".to_vec()],
    }
}

fn sample_client_state() -> ClientState {
    ClientState {
        tendermint_client_state: sample_params(None),
        da_params: DaParams { client_id: b"07-tendermint-3".to_vec(), fraud_period_window: 100 },
    }
}

fn sample_consensus_state() -> ConsensusState {
    ConsensusState {
        timestamp: 1_700_000_000_000_000_000,
        root: vec![7u8; 32],
        next_validators_hash: vec![9u8; 32],
    }
}

fn sample_tm_header() -> TendermintHeader {
    TendermintHeader {
        chain_id: b"rollkit-1".to_vec(),
        height: Height { revision_number: 1, revision_height: 11 },
        timestamp: 1_700_000_100_000_000_000,
        trusted_height: Height { revision_number: 1, revision_height: 10 },
        next_validators_hash: vec![9u8; 32],
        commitment_root: vec![8u8; 32],
        evidence: vec![1, 2, 3, 4, 5],
    }
}

fn sample_header() -> Header {
    Header {
        tendermint_header: sample_tm_header(),
        da_data: DaData { shared_proof: vec![0xaa, 0xbb, 0xcc] },
    }
}

#[test]
fn height_round_trip() {
    let h = sample_height();
    let bytes = codec::encode_height(&h);
    assert_eq!(codec::decode_height(&bytes), Ok(h));
}

#[test]
fn da_params_round_trip() {
    let v = DaParams { client_id: b"07-tendermint-0".to_vec(), fraud_period_window: 7 };
    let bytes = codec::encode_da_params(&v);
    assert_eq!(codec::decode_da_params(&bytes), Ok(v));
}

#[test]
fn da_data_round_trip() {
    let v = DaData { shared_proof: vec![1, 2, 3] };
    let bytes = codec::encode_da_data(&v);
    assert_eq!(codec::decode_da_data(&bytes), Ok(v));
}

#[test]
fn da_data_empty_proof_round_trip() {
    let v = DaData { shared_proof: vec![] };
    let bytes = codec::encode_da_data(&v);
    assert_eq!(codec::decode_da_data(&bytes), Ok(v));
}

#[test]
fn consensus_state_round_trip() {
    let v = sample_consensus_state();
    let bytes = codec::encode_consensus_state(&v);
    assert_eq!(codec::decode_consensus_state(&bytes), Ok(v));
}

#[test]
fn tm_params_round_trip_unfrozen() {
    let v = sample_params(None);
    let bytes = codec::encode_tm_params(&v);
    assert_eq!(codec::decode_tm_params(&bytes), Ok(v));
}

#[test]
fn tm_params_round_trip_frozen() {
    let v = sample_params(Some(Height { revision_number: 1, revision_height: 0 }));
    let bytes = codec::encode_tm_params(&v);
    assert_eq!(codec::decode_tm_params(&bytes), Ok(v));
}

#[test]
fn tm_params_round_trip_empty_upgrade_path() {
    let mut v = sample_params(None);
    v.upgrade_path = vec![];
    let bytes = codec::encode_tm_params(&v);
    assert_eq!(codec::decode_tm_params(&bytes), Ok(v));
}

#[test]
fn client_state_round_trip() {
    let v = sample_client_state();
    let bytes = codec::encode_client_state(&v);
    assert_eq!(codec::decode_client_state(&bytes), Ok(v));
}

#[test]
fn client_state_envelope_round_trip() {
    let v = sample_client_state();
    let bytes = codec::encode_client_state_any(&v);
    assert_eq!(codec::decode_client_state_any(&bytes), Ok(v));
}

#[test]
fn header_round_trip() {
    let v = sample_header();
    let bytes = codec::encode_header(&v);
    assert_eq!(codec::decode_header(&bytes), Ok(v));
}

#[test]
fn misbehaviour_round_trip() {
    let mut h2 = sample_tm_header();
    h2.commitment_root = vec![5u8; 32];
    let v = Misbehaviour {
        client_id: b"07-rollkit-0".to_vec(),
        header1: sample_tm_header(),
        header2: h2,
    };
    let bytes = codec::encode_misbehaviour(&v);
    assert_eq!(codec::decode_misbehaviour(&bytes), Ok(v));
}

#[test]
fn client_message_header_round_trip() {
    let m = ClientMessage::Header(sample_header());
    let bytes = m.encode();
    assert_eq!(ClientMessage::decode(bytes), Ok(m));
}

#[test]
fn client_message_misbehaviour_round_trip() {
    let m = ClientMessage::Misbehaviour(Misbehaviour {
        client_id: b"07-rollkit-0".to_vec(),
        header1: sample_tm_header(),
        header2: sample_tm_header(),
    });
    let bytes = m.encode();
    assert_eq!(ClientMessage::decode(bytes), Ok(m));
}

#[test]
fn canonical_encoding_is_deterministic() {
    let a = codec::encode_client_state(&sample_client_state());
    let b = codec::encode_client_state(&sample_client_state());
    assert_eq!(a, b);
}

#[test]
fn unknown_type_url_is_rejected() {
    let envelope = codec::AnyEnvelope {
        type_url: b"/ibc.lightclients.other.v1.ClientState".to_vec(),
        value: codec::encode_client_state(&sample_client_state()),
    };
    let bytes = codec::encode_any(&envelope);
    assert_eq!(
        ClientMessage::decode(bytes.clone()),
        Err(ContractError::InvalidUpdateClientMessage)
    );
    assert_eq!(
        codec::decode_client_state_any(&bytes),
        Err(ContractError::UnknownTypeUrl)
    );
    assert_eq!(
        codec::decode_consensus_state_any(&bytes),
        Err(ContractError::UnknownConsensusStateType)
    );
}

#[test]
fn truncated_encoding_is_malformed() {
    let mut bytes = codec::encode_client_state(&sample_client_state());
    bytes.pop();
    assert_eq!(
        codec::decode_client_state(&bytes),
        Err(ContractError::MalformedEncoding)
    );
}

#[test]
fn trailing_bytes_are_malformed() {
    let mut bytes = codec::encode_consensus_state(&sample_consensus_state());
    bytes.push(0);
    assert_eq!(
        codec::decode_consensus_state(&bytes),
        Err(ContractError::MalformedEncoding)
    );
}

#[test]
fn missing_field_is_reported() {
    // A client-state message whose first field is the da-params tag: the
    // required tendermint-parameters sub-message is absent.
    let inner = codec::encode_da_params(&DaParams {
        client_id: b"07-tendermint-3".to_vec(),
        fraud_period_window: 100,
    });
    let mut bytes = vec![0x12, inner.len() as u8];
    bytes.extend_from_slice(&inner);
    assert_eq!(
        codec::decode_client_state(&bytes),
        Err(ContractError::MissingField)
    );
}

#[test]
fn non_minimal_varint_is_rejected() {
    // Field 1 of a height message carrying `1` as a two-byte varint with a
    // redundant continuation: canonical decoding must reject it.
    let bytes = vec![0x08, 0x81, 0x00, 0x10, 0x01];
    assert_eq!(codec::decode_height(&bytes), Err(ContractError::MalformedEncoding));
}
