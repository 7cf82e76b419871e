//! The error taxonomy of the control plane: transport-level, protocol-level,
//! enclave-lifecycle, durable-state, proxy and configuration errors.

use vstd::prelude::*;

verus! {

/// Transport-level failures of the framing codec.
#[derive(Clone, Copy, Debug, PartialEq, Eq)]
pub enum FrameError {
    /// The payload does not fit behind the 16-bit length prefix.
    PayloadTooLarge,
    /// The stream ended before one whole frame was read.
    ConnectionClosed,
}

/// Malformed or unknown control messages.
#[derive(Clone, Copy, Debug, PartialEq, Eq)]
pub enum ProtocolError {
    /// The variant tag is not one this protocol defines.
    UnknownVariant,
    /// The fields after the tag do not parse, or trailing bytes remain.
    MalformedPayload,
}

/// Failures of the enclave's lifecycle operations.
#[derive(Clone, Copy, Debug, PartialEq, Eq)]
pub enum LifecycleError {
    /// The launch daemon answered with a non-zero status code.
    LaunchFailed(i32),
    /// An enclave is already active; callers must stop it first.
    AlreadyRunning,
    /// The bounded readiness poll was exhausted without a handle.
    EnclaveNotReady,
    /// The launch daemon sent no run report at all.
    NoRunInfo,
    /// The terminate command answered with a non-zero status code.
    TerminateFailed(i32),
}

/// Corrupt or regressing durable signing state.
#[derive(Clone, Copy, Debug, PartialEq, Eq)]
pub enum StateError {
    /// An existing state file does not parse; resetting it silently would
    /// reopen a double-signing window.
    CorruptState,
    /// An update moved backwards relative to the last durable value.
    RegressedUpdate,
}

/// Failures of the transport proxy's planning step.
#[derive(Clone, Copy, Debug, PartialEq, Eq)]
pub enum ProxyError {
    /// Resolving the remote endpoint produced no address.
    NoAddressFound,
}

/// Invalid signing-endpoint configurations.
#[derive(Clone, Copy, Debug, PartialEq, Eq)]
pub enum ConfigError {
    /// A sealed identity key is only meaningful over a TCP transport.
    IdentityKeyWithoutTcp,
}

} // verus!
