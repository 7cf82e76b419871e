//! Host-side control plane for an enclave-based remote signer.
//!
//! The crate verifies the logic of the host process: the length-prefixed
//! framing codec, the control-protocol codec, the durable state
//! synchronizer, the enclave supervisor's decision rules, the transport
//! proxy's planning rules, and the orchestrator's shutdown fabric.
//! All I/O (sockets, files, the enclave daemon) is performed by a thin
//! unverified shell that feeds plain values into these functions.

pub mod config;
pub mod errors;
pub mod frame;
pub mod launcher;
pub mod protocol;
pub mod proxy;
pub mod pusher;
pub mod state_sync;
pub mod supervisor;
pub mod wire;

