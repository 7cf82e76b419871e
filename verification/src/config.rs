//! The data model of one signing session: the transport kind, the cloud
//! credentials, and the authoritative signing-endpoint configuration that
//! is pushed to the enclave once at session start.
//!
//! Textual fields (chain id, region, paths, peer ids) are carried as their
//! UTF-8 bytes: the control plane only stores and forwards them, and the
//! unverified shell converts at the boundary.

use vstd::prelude::*;

verus! {

/// The external transport the consensus node connects over.
#[derive(Debug, PartialEq)]
pub enum TransportKind {
    /// A TCP endpoint, with the remote peer's identifier when one is pinned.
    Tcp { host: Vec<u8>, port: u16, peer_id: Option<Vec<u8>> },
    /// A Unix domain socket path; the platform authenticates peers itself.
    Unix { path: Vec<u8> },
}

/// Mathematical image of a `TransportKind`.
pub ghost enum TransportView {
    Tcp { host: Seq<u8>, port: u16, peer_id: Option<Seq<u8>> },
    Unix { path: Seq<u8> },
}

impl View for TransportKind {
    type V = TransportView;

    open spec fn view(&self) -> TransportView {
        match self {
            TransportKind::Tcp { host, port, peer_id } => TransportView::Tcp {
                host: host@,
                port: *port,
                peer_id: match peer_id {
                    Some(p) => Some(p@),
                    None => None,
                },
            },
            TransportKind::Unix { path } => TransportView::Unix { path: path@ },
        }
    }
}

/// Ephemeral cloud credentials. All three fields are opaque secrets: the
/// control plane stores and forwards them and never inspects them.
#[derive(Debug, PartialEq)]
pub struct AwsCredentials {
    pub aws_key_id: Vec<u8>,
    pub aws_secret_key: Vec<u8>,
    pub aws_session_token: Vec<u8>,
}

/// Mathematical image of `AwsCredentials`.
pub ghost struct CredentialsView {
    pub aws_key_id: Seq<u8>,
    pub aws_secret_key: Seq<u8>,
    pub aws_session_token: Seq<u8>,
}

impl View for AwsCredentials {
    type V = CredentialsView;

    open spec fn view(&self) -> CredentialsView {
        CredentialsView {
            aws_key_id: self.aws_key_id@,
            aws_secret_key: self.aws_secret_key@,
            aws_session_token: self.aws_session_token@,
        }
    }
}

/// The authoritative configuration of one signing session, pushed to the
/// enclave over the control channel. Immutable after construction.
#[derive(Debug, PartialEq)]
pub struct SigningEndpointConfig {
    /// Chain identifier, as UTF-8 bytes.
    pub chain_id: Vec<u8>,
    /// Optional upper bound on the signable block height.
    pub max_height: Option<u64>,
    /// Sealed consensus key: ciphertext opaque to the host.
    pub sealed_consensus_key: Vec<u8>,
    /// Sealed identity key; only present over a TCP transport.
    pub sealed_id_key: Option<Vec<u8>>,
    /// Remote peer identifier, when the transport pins one.
    pub peer_id: Option<Vec<u8>>,
    /// Control-channel port the enclave reports state updates on.
    pub enclave_state_port: u32,
    /// The external transport the consensus node connects over.
    pub transport: TransportKind,
    /// Ephemeral cloud credentials.
    pub credentials: AwsCredentials,
    /// Cloud region, as UTF-8 bytes.
    pub aws_region: Vec<u8>,
}

/// Mathematical image of a `SigningEndpointConfig`.
pub ghost struct ConfigView {
    pub chain_id: Seq<u8>,
    pub max_height: Option<u64>,
    pub sealed_consensus_key: Seq<u8>,
    pub sealed_id_key: Option<Seq<u8>>,
    pub peer_id: Option<Seq<u8>>,
    pub enclave_state_port: u32,
    pub transport: TransportView,
    pub credentials: CredentialsView,
    pub aws_region: Seq<u8>,
}

impl View for SigningEndpointConfig {
    type V = ConfigView;

    open spec fn view(&self) -> ConfigView {
        ConfigView {
            chain_id: self.chain_id@,
            max_height: self.max_height,
            sealed_consensus_key: self.sealed_consensus_key@,
            sealed_id_key: match &self.sealed_id_key {
                Some(k) => Some(k@),
                None => None,
            },
            peer_id: match &self.peer_id {
                Some(p) => Some(p@),
                None => None,
            },
            enclave_state_port: self.enclave_state_port,
            transport: self.transport@,
            credentials: self.credentials@,
            aws_region: self.aws_region@,
        }
    }
}

impl ConfigView {
    /// The session invariant: a sealed identity key is only carried over a
    /// TCP transport; a Unix-transport session authenticates peers at the
    /// transport layer and must not hold one.
    pub open spec fn wf(self) -> bool {
        self.sealed_id_key is Some ==> self.transport is Tcp
    }
}

impl SigningEndpointConfig {
    /// The session invariant, stated of the executable value.
    pub open spec fn wf(&self) -> bool {
        self@.wf()
    }

    /// Checks the session invariant on a constructed configuration.
    pub fn validate(&self) -> (r: Result<(), crate::errors::ConfigError>)
        ensures
            r is Ok <==> self.wf(),
            r is Err ==> r == Err::<(), crate::errors::ConfigError>(
                crate::errors::ConfigError::IdentityKeyWithoutTcp,
            ),
    {
        match (&self.sealed_id_key, &self.transport) {
            (Some(_), TransportKind::Unix { .. }) => Err(
                crate::errors::ConfigError::IdentityKeyWithoutTcp,
            ),
            _ => Ok(()),
        }
    }
}

/// The operator's signing options: where the sealed keys and the durable
/// state live, which channel ports the enclave listens on, and how the
/// consensus node connects.
pub struct NitroSignOpt {
    /// Chain identifier, as UTF-8 bytes.
    pub chain_id: Vec<u8>,
    /// Optional upper bound on the signable block height.
    pub max_height: Option<u64>,
    /// Path of the sealed consensus key file, as UTF-8 bytes.
    pub sealed_consensus_key_path: Vec<u8>,
    /// Path of the sealed identity key file, when one is configured.
    pub sealed_id_key_path: Option<Vec<u8>>,
    /// Path of the durable state file, as UTF-8 bytes.
    pub state_file_path: Vec<u8>,
    /// The external transport the consensus node connects over.
    pub address: TransportKind,
    /// Default channel-identifier the configuration push connects to.
    pub enclave_config_cid: u32,
    /// Channel port the configuration push connects to.
    pub enclave_config_port: u32,
    /// Channel port the enclave reports state updates on.
    pub enclave_state_port: u32,
    /// Credentials from the configuration file; fetched from the metadata
    /// service by the shell when absent.
    pub credentials: Option<AwsCredentials>,
    /// Cloud region, as UTF-8 bytes.
    pub aws_region: Vec<u8>,
}

/// Resource and image options the enclave is launched with.
pub struct EnclaveOpt {
    /// Path of the enclave image file, as UTF-8 bytes.
    pub eif_path: Vec<u8>,
    /// How many CPUs the enclave is given.
    pub cpu_count: u64,
    /// How much memory the enclave is given, in mebibytes.
    pub memory_mib: u64,
    /// A fixed channel-identifier, when the operator pins one.
    pub cid: Option<u32>,
    /// Port the enclave's log server listens on.
    pub log_server_port: u32,
}

/// Everything the orchestrator starts besides the signing options: the
/// enclave itself and the outbound proxy.
pub struct EnclaveConfig {
    pub enclave: EnclaveOpt,
    pub vsock_proxy: crate::proxy::VSockProxyOpt,
}

} // verus!
