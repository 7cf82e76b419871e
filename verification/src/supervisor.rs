//! The enclave process supervisor's decision rules. The host-side launch
//! daemon is spoken to by the unverified shell; every reply it sends comes
//! back here as plain values, and these functions decide what each reply
//! means: which enclaves are active, whether a launch succeeded, whether a
//! terminate took effect, and when the bounded readiness poll gives up.

use vstd::prelude::*;
use vstd::seq_lib::*;

use crate::errors::LifecycleError;
use crate::wire::copy_bytes;

verus! {

/// Lifecycle status of an enclave known to the launch daemon.
#[derive(Clone, Copy, Debug, PartialEq, Eq, Structural)]
pub enum EnclaveStatus {
    Running,
    Terminated,
}

/// One running (or just-terminated) enclave as the daemon reports it.
#[derive(Debug, PartialEq)]
pub struct EnclaveHandle {
    /// The daemon's identifier of the enclave, as UTF-8 bytes.
    pub enclave_id: Vec<u8>,
    /// The numeric channel-identifier all further connections use.
    pub enclave_cid: u32,
    /// Lifecycle status.
    pub status: EnclaveStatus,
}

/// Mathematical image of an `EnclaveHandle`.
pub ghost struct HandleView {
    pub enclave_id: Seq<u8>,
    pub enclave_cid: u32,
    pub status: EnclaveStatus,
}

impl View for EnclaveHandle {
    type V = HandleView;

    open spec fn view(&self) -> HandleView {
        HandleView {
            enclave_id: self.enclave_id@,
            enclave_cid: self.enclave_cid,
            status: self.status,
        }
    }
}

/// Copies a handle.
pub fn copy_handle(h: &EnclaveHandle) -> (r: EnclaveHandle)
    ensures
        r@ == h@,
{
    EnclaveHandle {
        enclave_id: copy_bytes(&h.enclave_id),
        enclave_cid: h.enclave_cid,
        status: h.status,
    }
}

/// One reply of the daemon to a describe or run command: the reported
/// enclave, and the command's status code.
pub struct DaemonReply {
    pub handle: EnclaveHandle,
    pub status_code: i32,
}

/// One reply of the daemon to a terminate command.
#[derive(Clone, Copy, Debug, PartialEq, Eq, Structural)]
pub struct TerminateReply {
    /// Whether termination actually occurred.
    pub terminated: bool,
    /// The command's status code.
    pub status_code: i32,
}

/// The handles of the zero-status replies of a describe broadcast, in the
/// daemon's order.
pub open spec fn active_handles(replies: Seq<DaemonReply>) -> Seq<HandleView>
    decreases replies.len(),
{
    if replies.len() == 0 {
        Seq::empty()
    } else {
        let rest = active_handles(replies.drop_last());
        if replies.last().status_code == 0 {
            rest.push(replies.last().handle@)
        } else {
            rest
        }
    }
}

/// Distills a describe broadcast into the active enclaves: the handles of
/// the zero-status replies, in the daemon's order. No active enclave is an
/// empty collection, never an error.
pub fn describe_outcome(replies: &Vec<DaemonReply>) -> (r: Vec<EnclaveHandle>)
    ensures
        r@.map_values(|h: EnclaveHandle| h@) == active_handles(replies@),
{
    let mut out: Vec<EnclaveHandle> = Vec::new();
    let n = replies.len();
    let mut i: usize = 0;
    while i < n
        invariant
            n == replies@.len(),
            i <= n,
            out@.map_values(|h: EnclaveHandle| h@) == active_handles(replies@.take(i as int)),
        decreases n - i,
    {
        proof {
            assert(replies@.take(i as int + 1).drop_last() =~= replies@.take(i as int));
            assert(replies@.take(i as int + 1).last() == replies@[i as int]);
        }
        let ghost prev = out@;
        let d = &replies[i];
        if d.status_code == 0 {
            let h = copy_handle(&d.handle);
            out.push(h);
            proof {
                assert(out@.map_values(|h: EnclaveHandle| h@) =~= prev.map_values(
                    |h: EnclaveHandle| h@,
                ).push(replies@[i as int].handle@));
            }
        }
        assert(out@.map_values(|h: EnclaveHandle| h@) == active_handles(
            replies@.take(i as int + 1),
        ));
        i += 1;
    }
    assert(replies@.take(n as int) =~= replies@);
    out
}

/// Decides what a run command's replies mean: no reply at all is a failed
/// launch report; a zero status yields the new handle; any other status is
/// a launch failure carrying that code.
pub fn run_outcome(replies: &Vec<DaemonReply>) -> (r: Result<EnclaveHandle, LifecycleError>)
    ensures
        replies@.len() == 0 ==> r == Err::<EnclaveHandle, LifecycleError>(
            LifecycleError::NoRunInfo,
        ),
        replies@.len() > 0 && replies@[0].status_code == 0 ==> (r matches Ok(h) && h@
            == replies@[0].handle@),
        replies@.len() > 0 && replies@[0].status_code != 0 ==> r == Err::<
            EnclaveHandle,
            LifecycleError,
        >(LifecycleError::LaunchFailed(replies@[0].status_code)),
{
    if replies.len() == 0 {
        Err(LifecycleError::NoRunInfo)
    } else {
        let first = &replies[0];
        if first.status_code == 0 {
            Ok(copy_handle(&first.handle))
        } else {
            Err(LifecycleError::LaunchFailed(first.status_code))
        }
    }
}

/// Decides what a terminate command's replies mean. Terminating all
/// enclaves reports success; for one named enclave, no reply means nothing
/// was terminated, a zero status reports the daemon's own terminated flag,
/// and any other status is a failure carrying that code.
pub fn terminate_outcome(terminate_all: bool, replies: &Vec<TerminateReply>) -> (r: Result<
    bool,
    LifecycleError,
>)
    ensures
        terminate_all ==> r == Ok::<bool, LifecycleError>(true),
        !terminate_all && replies@.len() == 0 ==> r == Ok::<bool, LifecycleError>(false),
        !terminate_all && replies@.len() > 0 && replies@[0].status_code == 0 ==> r == Ok::<
            bool,
            LifecycleError,
        >(replies@[0].terminated),
        !terminate_all && replies@.len() > 0 && replies@[0].status_code != 0 ==> r == Err::<
            bool,
            LifecycleError,
        >(LifecycleError::TerminateFailed(replies@[0].status_code)),
{
    if terminate_all {
        Ok(true)
    } else if replies.len() == 0 {
        Ok(false)
    } else {
        let first = &replies[0];
        if first.status_code == 0 {
            Ok(first.terminated)
        } else {
            Err(LifecycleError::TerminateFailed(first.status_code))
        }
    }
}

/// The pre-launch check: an enclave may only be launched when the daemon
/// reports none active; callers must stop an existing one first.
pub fn precheck_not_running(existing: &Vec<EnclaveHandle>) -> (r: Result<(), LifecycleError>)
    ensures
        existing@.len() == 0 <==> r is Ok,
        existing@.len() > 0 ==> r == Err::<(), LifecycleError>(LifecycleError::AlreadyRunning),
{
    if existing.len() == 0 {
        Ok(())
    } else {
        Err(LifecycleError::AlreadyRunning)
    }
}

/// How many describe polls the readiness wait may spend before giving up.
pub const MAX_POLL_ATTEMPTS: u32 = 15;

/// What one readiness poll decided.
#[derive(Clone, Copy, Debug, PartialEq, Eq, Structural)]
pub enum PollOutcome {
    /// The enclave reported its channel-identifier.
    Ready(u32),
    /// Nothing is running yet; sleep the fixed interval and ask again.
    RetryAfterDelay,
    /// The bounded wait is exhausted: fatal, surfaced as `EnclaveNotReady`.
    Exhausted,
}

/// The bounded readiness poll: enclave boot is asynchronous relative to
/// the launch call, so the caller polls describe at a fixed interval until
/// a channel-identifier appears, at most `MAX_POLL_ATTEMPTS` times.
pub struct ReadinessPoll {
    /// How many polls have come back empty so far.
    pub attempts: u32,
}

impl ReadinessPoll {
    /// A fresh wait, with no attempt spent.
    pub fn new() -> (r: ReadinessPoll)
        ensures
            r.attempts == 0,
    {
        ReadinessPoll { attempts: 0 }
    }

    /// Accounts one describe result. A non-empty report is ready with the
    /// first reported channel-identifier; an empty one spends an attempt,
    /// and the attempt that reaches the bound exhausts the wait.
    pub fn step(&mut self, described: &Vec<EnclaveHandle>) -> (r: PollOutcome)
        requires
            old(self).attempts < MAX_POLL_ATTEMPTS,
        ensures
            described@.len() > 0 ==> r == PollOutcome::Ready(described@[0].enclave_cid)
                && *final(self) == *old(self),
            described@.len() == 0 ==> final(self).attempts == old(self).attempts + 1,
            described@.len() == 0 && old(self).attempts + 1 < MAX_POLL_ATTEMPTS ==> r
                == PollOutcome::RetryAfterDelay,
            described@.len() == 0 && old(self).attempts + 1 == MAX_POLL_ATTEMPTS ==> r
                == PollOutcome::Exhausted,
    {
        if described.len() > 0 {
            PollOutcome::Ready(described[0].enclave_cid)
        } else {
            self.attempts = self.attempts + 1;
            if self.attempts < MAX_POLL_ATTEMPTS {
                PollOutcome::RetryAfterDelay
            } else {
                PollOutcome::Exhausted
            }
        }
    }
}

/// What the orchestrator makes of one poll outcome: a ready enclave
/// yields its channel-identifier, an exhausted wait is the fatal
/// `EnclaveNotReady` — never retried further — and a retry is no result
/// yet.
pub fn poll_result(outcome: &PollOutcome) -> (r: Option<Result<u32, LifecycleError>>)
    ensures
        match outcome {
            PollOutcome::Ready(cid) => r == Some(Ok::<u32, LifecycleError>(*cid)),
            PollOutcome::Exhausted => r == Some(
                Err::<u32, LifecycleError>(LifecycleError::EnclaveNotReady),
            ),
            PollOutcome::RetryAfterDelay => r is None,
        },
{
    match outcome {
        PollOutcome::Ready(cid) => Some(Ok(*cid)),
        PollOutcome::Exhausted => Some(Err(LifecycleError::EnclaveNotReady)),
        PollOutcome::RetryAfterDelay => None,
    }
}

} // verus!
