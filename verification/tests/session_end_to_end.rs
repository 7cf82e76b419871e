//! One whole session, driven over the verified control plane with the
//! shell's I/O simulated: launch, readiness poll, configuration push,
//! relay, one durable state update, operator interrupt, clean exit.

use nitro_helper::config::{AwsCredentials, EnclaveConfig, EnclaveOpt, NitroSignOpt, TransportKind};
use nitro_helper::frame::read_frame;
use nitro_helper::launcher::{launch_all, LauncherPhase};
use nitro_helper::protocol::{decode, ControlRequest};
use nitro_helper::proxy::{relay_chunk, run_vsock_proxy, VSockProxyOpt};
use nitro_helper::pusher::{build_enclave_config, encode_start_request};
use nitro_helper::state_sync::{decode_state, AtomicFile, StateSyncer, Step, SyncedState};
use nitro_helper::supervisor::{
    describe_outcome, DaemonReply, EnclaveHandle, EnclaveStatus, PollOutcome, ReadinessPoll,
};

#[test]
fn full_session_runs_and_exits_zero() {
    let sign_opt = NitroSignOpt {
        chain_id: b"testchain-1".to_vec(),
        max_height: Some(9_000_000),
        sealed_consensus_key_path: b"/secrets/consensus.key".to_vec(),
        sealed_id_key_path: Some(b"/secrets/id.key".to_vec()),
        state_file_path: b"/state/priv_validator_state".to_vec(),
        address: TransportKind::Tcp {
            host: b"26.0.0.1".to_vec(),
            port: 26658,
            peer_id: Some(b"f1a2d9".to_vec()),
        },
        enclave_config_cid: 15,
        enclave_config_port: 5050,
        enclave_state_port: 5555,
        credentials: None,
        aws_region: b"ap-southeast-1".to_vec(),
    };
    let enclave_config = EnclaveConfig {
        enclave: EnclaveOpt {
            eif_path: b"/images/signer.eif".to_vec(),
            cpu_count: 2,
            memory_mib: 512,
            cid: None,
            log_server_port: 6050,
        },
        vsock_proxy: VSockProxyOpt {
            local_port: 8000,
            remote_addr: b"kms.ap-southeast-1.amazonaws.com".to_vec(),
            remote_port: 443,
            num_workers: 4,
        },
    };

    // Orchestrator start: units spawn in their fixed order.
    let mut launcher = launch_all(sign_opt, enclave_config);
    assert_eq!(launcher.phase, LauncherPhase::Starting);

    // The proxy unit fixes its plan from the resolver's answer.
    let plan =
        run_vsock_proxy(&launcher.enclave_config.vsock_proxy, &vec![0x1A00_0007]).unwrap();
    assert_eq!(plan.remote_ip, 0x1A00_0007);

    // Enclave boot is asynchronous: the first fourteen describe polls come
    // back empty, the fifteenth reports the handle — within the bound.
    let mut poll = ReadinessPoll::new();
    let empty: Vec<DaemonReply> = Vec::new();
    for _ in 0..14 {
        assert_eq!(poll.step(&describe_outcome(&empty)), PollOutcome::RetryAfterDelay);
    }
    let replies = vec![DaemonReply {
        handle: EnclaveHandle {
            enclave_id: b"i-enclave-1".to_vec(),
            enclave_cid: 16,
            status: EnclaveStatus::Running,
        },
        status_code: 0,
    }];
    let cid = match poll.step(&describe_outcome(&replies)) {
        PollOutcome::Ready(cid) => cid,
        other => panic!("unexpected poll outcome: {:?}", other),
    };
    assert_eq!(cid, 16);

    // The config pusher builds and frames the start request; the enclave
    // side reads the frame and decodes exactly the pushed configuration.
    let built = build_enclave_config(
        &launcher.tmkms_config,
        vec![0xEE; 64],
        Some(vec![0x1D; 64]),
        AwsCredentials {
            aws_key_id: b"SECRET-REDACTED".to_vec(),
            aws_secret_key: b"SECRET-REDACTED".to_vec(),
            aws_session_token: b"SECRET-REDACTED".to_vec(),
        },
    );
    let framed = encode_start_request(built).unwrap();
    let received = read_frame(&framed).unwrap();
    let ControlRequest::Start(config) = decode(&received.payload).unwrap();
    assert_eq!(config.chain_id, b"testchain-1".to_vec());
    assert_eq!(config.sealed_id_key, Some(vec![0x1D; 64]));
    assert_eq!(config.enclave_state_port, 5555);
    launcher.on_session_ready();
    assert_eq!(launcher.phase, LauncherPhase::Running);

    // One external connection: bytes relayed unchanged in both directions.
    let outbound: Vec<u8> = (0u16..300).map(|x| (x % 251) as u8).collect();
    let inbound: Vec<u8> = b"signed-vote-response".to_vec();
    assert_eq!(relay_chunk(&outbound), outbound);
    assert_eq!(relay_chunk(&inbound), inbound);

    // The state synchronizer persists one update durably.
    let mut syncer = StateSyncer::new(None, launcher.tmkms_config.enclave_state_port).unwrap();
    let mut state_file = AtomicFile::absent();
    let update = SyncedState { height: 1, round: 0, step: Step::Propose };
    syncer.apply_update(update, &mut state_file).unwrap();
    assert_eq!(decode_state(&state_file.read().clone().unwrap()).unwrap(), update);

    // Operator interrupt: one fan-out, every unit observes it, all join.
    launcher.on_interrupt();
    assert_eq!(launcher.phase, LauncherPhase::ShuttingDown);
    assert!(launcher.shutdown.is_signaled());
    launcher.on_all_joined();
    assert_eq!(launcher.phase, LauncherPhase::Stopped);
    assert_eq!(launcher.exit_code(), 0);
}
