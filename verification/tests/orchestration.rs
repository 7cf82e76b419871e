use nitro_helper::config::{AwsCredentials, EnclaveConfig, EnclaveOpt, NitroSignOpt, TransportKind};
use nitro_helper::errors::{LifecycleError, ProxyError};
use nitro_helper::launcher::{launch_all, Launcher, LauncherPhase, ShutdownSignal, UnitId};
use nitro_helper::proxy::{
    proxy_event_fatal, relay_chunk, run_vsock_proxy, ProxyEvent, VSockProxyOpt,
};
use nitro_helper::supervisor::{
    describe_outcome, poll_result, precheck_not_running, run_outcome, terminate_outcome,
    DaemonReply, EnclaveHandle, EnclaveStatus, PollOutcome, ReadinessPoll, TerminateReply,
    MAX_POLL_ATTEMPTS,
};

fn handle(id: &str, cid: u32) -> EnclaveHandle {
    EnclaveHandle {
        enclave_id: id.as_bytes().to_vec(),
        enclave_cid: cid,
        status: EnclaveStatus::Running,
    }
}

fn sign_opt() -> NitroSignOpt {
    NitroSignOpt {
        chain_id: b"testchain-1".to_vec(),
        max_height: None,
        sealed_consensus_key_path: b"/secrets/consensus.key".to_vec(),
        sealed_id_key_path: None,
        state_file_path: b"/state/priv_validator_state".to_vec(),
        address: TransportKind::Unix { path: b"/run/signer.sock".to_vec() },
        enclave_config_cid: 15,
        enclave_config_port: 5050,
        enclave_state_port: 5555,
        credentials: None,
        aws_region: b"ap-southeast-1".to_vec(),
    }
}

fn enclave_config() -> EnclaveConfig {
    EnclaveConfig {
        enclave: EnclaveOpt {
            eif_path: b"/images/signer.eif".to_vec(),
            cpu_count: 2,
            memory_mib: 512,
            cid: None,
            log_server_port: 6050,
        },
        vsock_proxy: VSockProxyOpt {
            local_port: 8000,
            remote_addr: b"kms.ap-southeast-1.amazonaws.com".to_vec(),
            remote_port: 443,
            num_workers: 4,
        },
    }
}

#[test]
fn describe_with_no_enclaves_is_an_empty_collection_not_an_error() {
    let replies: Vec<DaemonReply> = Vec::new();
    let active = describe_outcome(&replies);
    assert!(active.is_empty());
}

#[test]
fn describe_keeps_only_zero_status_replies_in_order() {
    let replies = vec![
        DaemonReply { handle: handle("i-1", 16), status_code: 0 },
        DaemonReply { handle: handle("i-2", 17), status_code: 3 },
        DaemonReply { handle: handle("i-3", 18), status_code: 0 },
    ];
    let active = describe_outcome(&replies);
    assert_eq!(active, vec![handle("i-1", 16), handle("i-3", 18)]);
}

#[test]
fn run_with_no_reply_is_no_run_info() {
    let replies: Vec<DaemonReply> = Vec::new();
    assert_eq!(run_outcome(&replies).unwrap_err(), LifecycleError::NoRunInfo);
}

#[test]
fn run_with_zero_status_yields_the_handle() {
    let replies = vec![DaemonReply { handle: handle("i-1", 16), status_code: 0 }];
    assert_eq!(run_outcome(&replies).unwrap(), handle("i-1", 16));
}

#[test]
fn run_with_nonzero_status_is_launch_failed_with_that_code() {
    let replies = vec![DaemonReply { handle: handle("i-1", 16), status_code: 5 }];
    assert_eq!(run_outcome(&replies).unwrap_err(), LifecycleError::LaunchFailed(5));
}

#[test]
fn terminate_all_reports_success() {
    let replies: Vec<TerminateReply> = Vec::new();
    assert_eq!(terminate_outcome(true, &replies).unwrap(), true);
}

#[test]
fn terminate_named_without_reply_reports_nothing_terminated() {
    let replies: Vec<TerminateReply> = Vec::new();
    assert_eq!(terminate_outcome(false, &replies).unwrap(), false);
}

#[test]
fn terminate_named_reports_the_daemon_flag() {
    let replies = vec![TerminateReply { terminated: true, status_code: 0 }];
    assert_eq!(terminate_outcome(false, &replies).unwrap(), true);
}

#[test]
fn terminate_named_with_nonzero_status_fails_with_that_code() {
    let replies = vec![TerminateReply { terminated: false, status_code: 2 }];
    assert_eq!(
        terminate_outcome(false, &replies).unwrap_err(),
        LifecycleError::TerminateFailed(2)
    );
}

#[test]
fn launch_precheck_refuses_an_active_enclave() {
    assert!(precheck_not_running(&Vec::new()).is_ok());
    let existing = vec![handle("i-1", 16)];
    assert_eq!(
        precheck_not_running(&existing).unwrap_err(),
        LifecycleError::AlreadyRunning
    );
}

#[test]
fn readiness_poll_gives_up_after_fifteen_empty_polls() {
    let mut poll = ReadinessPoll::new();
    let empty: Vec<EnclaveHandle> = Vec::new();
    for _ in 0..(MAX_POLL_ATTEMPTS - 1) {
        assert_eq!(poll.step(&empty), PollOutcome::RetryAfterDelay);
    }
    assert_eq!(poll.step(&empty), PollOutcome::Exhausted);
}

#[test]
fn exhausted_poll_surfaces_enclave_not_ready() {
    assert_eq!(poll_result(&PollOutcome::RetryAfterDelay), None);
    assert_eq!(poll_result(&PollOutcome::Ready(16)), Some(Ok(16)));
    assert_eq!(
        poll_result(&PollOutcome::Exhausted),
        Some(Err(LifecycleError::EnclaveNotReady))
    );
}

#[test]
fn readiness_poll_reports_the_first_cid() {
    let mut poll = ReadinessPoll::new();
    let empty: Vec<EnclaveHandle> = Vec::new();
    assert_eq!(poll.step(&empty), PollOutcome::RetryAfterDelay);
    let described = vec![handle("i-1", 16), handle("i-2", 99)];
    assert_eq!(poll.step(&described), PollOutcome::Ready(16));
}

#[test]
fn proxy_plan_picks_the_first_resolved_address() {
    let opt = enclave_config().vsock_proxy;
    let resolved: Vec<u32> = vec![0x0A00_0001, 0x0A00_0002];
    let plan = run_vsock_proxy(&opt, &resolved).unwrap();
    assert_eq!(plan.local_port, 8000);
    assert_eq!(plan.remote_ip, 0x0A00_0001);
    assert_eq!(plan.remote_port, 443);
    assert_eq!(plan.num_workers, 4);
}

#[test]
fn proxy_with_no_resolved_address_fails() {
    let opt = enclave_config().vsock_proxy;
    let resolved: Vec<u32> = Vec::new();
    assert_eq!(run_vsock_proxy(&opt, &resolved).unwrap_err(), ProxyError::NoAddressFound);
}

#[test]
fn relay_passes_bytes_through_unchanged() {
    let chunk: Vec<u8> = b"consensus wire bytes".to_vec();
    assert_eq!(relay_chunk(&chunk), chunk);
}

#[test]
fn bind_failure_is_fatal_but_a_worker_error_is_not() {
    assert!(proxy_event_fatal(&ProxyEvent::BindFailed));
    assert!(!proxy_event_fatal(&ProxyEvent::WorkerIoError));
}

#[test]
fn shutdown_signal_send_is_idempotent() {
    let mut signal = ShutdownSignal::new();
    assert!(!signal.is_signaled());
    signal.send();
    signal.send();
    assert!(signal.is_signaled());
}

#[test]
fn two_units_failing_fan_out_one_shutdown_without_deadlock() {
    let mut launcher = launch_all(sign_opt(), enclave_config());
    assert_eq!(launcher.phase, LauncherPhase::Starting);

    launcher.on_unit_failure(UnitId::Enclave);
    assert_eq!(launcher.phase, LauncherPhase::ShuttingDown);
    assert!(launcher.shutdown.is_signaled());

    // A second unit fails concurrently: the duplicate fan-out changes
    // nothing and nothing blocks.
    launcher.on_unit_failure(UnitId::Proxy);
    assert_eq!(launcher.phase, LauncherPhase::ShuttingDown);
    assert!(launcher.shutdown.is_signaled());

    launcher.on_all_joined();
    assert_eq!(launcher.phase, LauncherPhase::Stopped);
    assert_eq!(launcher.exit_code(), 1);
}

#[test]
fn interrupt_after_failure_keeps_the_session_failed() {
    let mut launcher = launch_all(sign_opt(), enclave_config());
    launcher.on_unit_failure(UnitId::Helper);
    launcher.on_interrupt();
    launcher.on_all_joined();
    assert_eq!(launcher.exit_code(), 1);
}

#[test]
fn clean_interrupt_exits_zero() {
    let mut launcher = Launcher::new(sign_opt(), enclave_config());
    assert_eq!(launcher.phase, LauncherPhase::Idle);
    let order = launcher.begin_run();
    assert_eq!(order, vec![UnitId::Enclave, UnitId::Proxy, UnitId::Helper]);
    launcher.on_session_ready();
    assert_eq!(launcher.phase, LauncherPhase::Running);
    launcher.on_interrupt();
    launcher.on_all_joined();
    assert_eq!(launcher.exit_code(), 0);
}
