//! The config pusher's verified half: building the enclave's boot
//! configuration from the operator's options and the key material the
//! shell read from disk, and producing the exact framed bytes one
//! short-lived control-channel connection must carry. The connection
//! itself is the shell's work; a push failure is fatal to the session and
//! must raise the orchestrator's shutdown signal.

use vstd::prelude::*;

use crate::config::{AwsCredentials, NitroSignOpt, SigningEndpointConfig, TransportKind};
use crate::errors::FrameError;
use crate::frame::{spec_write_frame, write_frame, MAX_FRAME_PAYLOAD};
use crate::protocol::{
    encode, opt_view, spec_encode_request, ControlRequest, ControlRequestView,
};
use crate::wire::copy_bytes;

verus! {

/// Copies an optional buffer.
pub fn copy_opt_bytes(o: &Option<Vec<u8>>) -> (r: Option<Vec<u8>>)
    ensures
        opt_view(r) == opt_view(*o),
{
    match o {
        None => None,
        Some(b) => Some(copy_bytes(b)),
    }
}

/// Copies a transport description.
pub fn copy_transport(t: &TransportKind) -> (r: TransportKind)
    ensures
        r@ == t@,
{
    match t {
        TransportKind::Tcp { host, port, peer_id } => TransportKind::Tcp {
            host: copy_bytes(host),
            port: *port,
            peer_id: copy_opt_bytes(peer_id),
        },
        TransportKind::Unix { path } => TransportKind::Unix { path: copy_bytes(path) },
    }
}

/// Assembles the configuration the enclave boots with. The sealed
/// identity key is taken only over a TCP transport — a Unix-transport
/// session authenticates peers at the transport layer — so the result
/// always satisfies the session invariant. The peer identifier is the one
/// the TCP transport pins, when it pins one.
pub fn build_enclave_config(
    opt: &NitroSignOpt,
    sealed_consensus_key: Vec<u8>,
    sealed_id_key: Option<Vec<u8>>,
    credentials: AwsCredentials,
) -> (c: SigningEndpointConfig)
    ensures
        c@.chain_id == opt.chain_id@,
        c@.max_height == opt.max_height,
        c@.sealed_consensus_key == sealed_consensus_key@,
        c@.sealed_id_key == (if opt.address@ is Tcp {
            opt_view(sealed_id_key)
        } else {
            None::<Seq<u8>>
        }),
        c@.peer_id == (match opt.address@ {
            crate::config::TransportView::Tcp { peer_id, .. } => peer_id,
            crate::config::TransportView::Unix { .. } => None::<Seq<u8>>,
        }),
        c@.enclave_state_port == opt.enclave_state_port,
        c@.transport == opt.address@,
        c@.credentials == credentials@,
        c@.aws_region == opt.aws_region@,
        c.wf(),
{
    let peer_id: Option<Vec<u8>> = match &opt.address {
        TransportKind::Tcp { peer_id, .. } => copy_opt_bytes(peer_id),
        TransportKind::Unix { .. } => None,
    };
    let sealed_id_key: Option<Vec<u8>> = match &opt.address {
        TransportKind::Tcp { .. } => sealed_id_key,
        TransportKind::Unix { .. } => None,
    };
    SigningEndpointConfig {
        chain_id: copy_bytes(&opt.chain_id),
        max_height: opt.max_height,
        sealed_consensus_key,
        sealed_id_key,
        peer_id,
        enclave_state_port: opt.enclave_state_port,
        transport: copy_transport(&opt.address),
        credentials,
        aws_region: copy_bytes(&opt.aws_region),
    }
}

/// The exact bytes the configuration push writes: the encoded start
/// request behind the length prefix. An encoding that does not fit in one
/// frame is refused before anything could be written.
pub fn encode_start_request(config: SigningEndpointConfig) -> (r: Result<Vec<u8>, FrameError>)
    ensures
        spec_encode_request(ControlRequestView::Start(config@)).len() <= MAX_FRAME_PAYLOAD ==> (
        r matches Ok(f) && f@ == spec_write_frame(
            spec_encode_request(ControlRequestView::Start(config@)),
        )),
        spec_encode_request(ControlRequestView::Start(config@)).len() > MAX_FRAME_PAYLOAD ==> r
            == Err::<Vec<u8>, FrameError>(FrameError::PayloadTooLarge),
{
    let request = ControlRequest::Start(config);
    let encoded = encode(&request);
    write_frame(&encoded)
}

} // verus!
