//! The transport proxy's rules. The proxy bridges the consensus node's
//! local socket endpoint and the enclave's channel: the unverified shell
//! owns the sockets, while these functions fix the plan the listener runs
//! under, what each relayed chunk must be, and which failures are fatal.

use vstd::prelude::*;

use crate::errors::ProxyError;
use crate::wire::copy_bytes;

verus! {

/// Configuration of the proxy, as the operator supplies it.
pub struct VSockProxyOpt {
    /// Channel port the proxy listens on for the enclave side.
    pub local_port: u32,
    /// Remote endpoint name to resolve, as UTF-8 bytes.
    pub remote_addr: Vec<u8>,
    /// Remote TCP port.
    pub remote_port: u16,
    /// How many worker connections the pool may hold.
    pub num_workers: usize,
}

/// The resolved plan a listener runs under: one remote address picked from
/// the resolver's answer, with the ports and pool size fixed.
#[derive(Debug, PartialEq)]
pub struct ProxyPlan {
    pub local_port: u32,
    /// The remote IPv4 address, in its 32-bit big-endian value form.
    pub remote_ip: u32,
    pub remote_port: u16,
    pub num_workers: usize,
}

/// Fixes the plan the proxy will run under: resolving the remote name is
/// the shell's work, and its answer comes in as plain address values; the
/// first one is picked. An empty answer means the remote endpoint cannot
/// be reached at all, which is fatal. The socket loop itself runs in the
/// unverified shell, against this plan.
pub fn run_vsock_proxy(opt: &VSockProxyOpt, resolved: &Vec<u32>) -> (r: Result<
    ProxyPlan,
    ProxyError,
>)
    ensures
        resolved@.len() == 0 ==> r == Err::<ProxyPlan, ProxyError>(ProxyError::NoAddressFound),
        resolved@.len() > 0 ==> (r matches Ok(p) && p.local_port == opt.local_port && p.remote_ip
            == resolved@[0] && p.remote_port == opt.remote_port && p.num_workers
            == opt.num_workers),
{
    if resolved.len() == 0 {
        Err(ProxyError::NoAddressFound)
    } else {
        Ok(
            ProxyPlan {
                local_port: opt.local_port,
                remote_ip: resolved[0],
                remote_port: opt.remote_port,
                num_workers: opt.num_workers,
            },
        )
    }
}

/// One chunk relayed by a worker: the proxy inspects nothing, buffers
/// nothing beyond the chunk, and reorders nothing, so what goes out is
/// byte-for-byte what came in.
pub fn relay_chunk(chunk: &Vec<u8>) -> (out: Vec<u8>)
    ensures
        out@ == chunk@,
{
    copy_bytes(chunk)
}

/// What can go wrong while the proxy runs.
#[derive(Clone, Copy, Debug, PartialEq, Eq, Structural)]
pub enum ProxyEvent {
    /// The listening endpoint could not be bound at all.
    BindFailed,
    /// One worker's connection failed or closed.
    WorkerIoError,
}

/// Which proxy failures bring the session down: failing to bind the
/// listener is fatal and propagates to the orchestrator; a per-connection
/// error terminates only that connection's worker and leaves the listener
/// running.
pub open spec fn spec_proxy_event_fatal(e: ProxyEvent) -> bool {
    match e {
        ProxyEvent::BindFailed => true,
        ProxyEvent::WorkerIoError => false,
    }
}

/// Decides whether a proxy failure is fatal to the session.
pub fn proxy_event_fatal(e: &ProxyEvent) -> (r: bool)
    ensures
        r == spec_proxy_event_fatal(*e),
{
    match e {
        ProxyEvent::BindFailed => true,
        ProxyEvent::WorkerIoError => false,
    }
}

} // verus!
