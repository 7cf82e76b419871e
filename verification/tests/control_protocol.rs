use nitro_helper::config::{AwsCredentials, SigningEndpointConfig, TransportKind};
use nitro_helper::errors::{ConfigError, ProtocolError};
use nitro_helper::protocol::{decode, encode, ControlRequest};

fn tcp_config() -> SigningEndpointConfig {
    SigningEndpointConfig {
        chain_id: b"testchain-1".to_vec(),
        max_height: Some(500_000),
        sealed_consensus_key: vec![0xDE, 0xAD, 0xBE, 0xEF, 0x42],
        sealed_id_key: Some(vec![0x01, 0x02, 0x03]),
        peer_id: Some(b"6aeb4b9b0f1c7a2e".to_vec()),
        enclave_state_port: 5555,
        transport: TransportKind::Tcp {
            host: b"127.0.0.1".to_vec(),
            port: 26658,
            peer_id: Some(b"6aeb4b9b0f1c7a2e".to_vec()),
        },
        credentials: AwsCredentials {
            aws_key_id: b"SECRET-REDACTED".to_vec(),
            aws_secret_key: b"SECRET-REDACTED".to_vec(),
            aws_session_token: b"SECRET-REDACTED".to_vec(),
        },
        aws_region: b"ap-southeast-1".to_vec(),
    }
}

fn unix_config() -> SigningEndpointConfig {
    SigningEndpointConfig {
        chain_id: b"chain".to_vec(),
        max_height: None,
        sealed_consensus_key: vec![9; 48],
        sealed_id_key: None,
        peer_id: None,
        enclave_state_port: 1,
        transport: TransportKind::Unix { path: b"/run/signer.sock".to_vec() },
        credentials: AwsCredentials {
            aws_key_id: Vec::new(),
            aws_secret_key: Vec::new(),
            aws_session_token: Vec::new(),
        },
        aws_region: b"eu-west-1".to_vec(),
    }
}

#[test]
fn identity_key_without_tcp_is_an_invalid_config() {
    let mut config = unix_config();
    config.sealed_id_key = Some(vec![1, 2, 3]);
    assert_eq!(config.validate().unwrap_err(), ConfigError::IdentityKeyWithoutTcp);
    assert!(tcp_config().validate().is_ok());
    assert!(unix_config().validate().is_ok());
}

#[test]
fn request_round_trip_tcp_all_fields() {
    let request = ControlRequest::Start(tcp_config());
    let bytes = encode(&request);
    let back = decode(&bytes).unwrap();
    assert_eq!(back, ControlRequest::Start(tcp_config()));
}

#[test]
fn request_round_trip_unix_minimal() {
    let request = ControlRequest::Start(unix_config());
    let bytes = encode(&request);
    let back = decode(&bytes).unwrap();
    assert_eq!(back, ControlRequest::Start(unix_config()));
}

#[test]
fn encoding_starts_with_the_variant_tag() {
    let bytes = encode(&ControlRequest::Start(unix_config()));
    assert_eq!(bytes[0], nitro_helper::protocol::TAG_START);
}

#[test]
fn unknown_variant_tag_is_rejected_as_unknown() {
    let bytes: Vec<u8> = vec![7, 0, 0, 0];
    assert_eq!(decode(&bytes).unwrap_err(), ProtocolError::UnknownVariant);
}

#[test]
fn empty_message_is_malformed() {
    let bytes: Vec<u8> = Vec::new();
    assert_eq!(decode(&bytes).unwrap_err(), ProtocolError::MalformedPayload);
}

#[test]
fn truncated_message_is_malformed() {
    let mut bytes = encode(&ControlRequest::Start(tcp_config()));
    bytes.pop();
    assert_eq!(decode(&bytes).unwrap_err(), ProtocolError::MalformedPayload);
}

#[test]
fn trailing_bytes_are_malformed() {
    let mut bytes = encode(&ControlRequest::Start(unix_config()));
    bytes.push(0);
    assert_eq!(decode(&bytes).unwrap_err(), ProtocolError::MalformedPayload);
}

#[test]
fn decode_is_not_the_identity_on_the_wire_bytes() {
    let request = ControlRequest::Start(unix_config());
    let bytes = encode(&request);
    let ControlRequest::Start(decoded) = decode(&bytes).unwrap();
    assert_ne!(bytes, decoded.sealed_consensus_key);
    assert_eq!(decoded.chain_id, b"chain".to_vec());
}
