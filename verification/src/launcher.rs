//! The orchestrator: owns the fan-out shutdown signal, fixes the order
//! the units of execution start in, and converts any single failure —
//! or an operator interrupt — into one coordinated shutdown of all units.
//! The threads themselves run in the unverified shell; every decision
//! they act on is taken here.

use vstd::prelude::*;

use crate::config::{EnclaveConfig, NitroSignOpt};

verus! {

/// The one-shot shutdown broadcast: any unit may raise it, every unit
/// watches it. Raising it is idempotent, so two units failing at once, or
/// a raise after every receiver exited, are safe no-ops.
pub struct ShutdownSignal {
    /// Whether the signal has been raised.
    pub signaled: bool,
}

/// The signal after a send: raised, whatever it was before.
pub open spec fn spec_send(s: ShutdownSignal) -> ShutdownSignal {
    ShutdownSignal { signaled: true }
}

impl ShutdownSignal {
    /// A fresh, unraised signal.
    pub fn new() -> (r: ShutdownSignal)
        ensures
            !r.signaled,
    {
        ShutdownSignal { signaled: false }
    }

    /// Raises the signal. Safe in every state: a duplicate send changes
    /// nothing and cannot block or panic.
    pub fn send(&mut self)
        ensures
            *final(self) == spec_send(*old(self)),
    {
        self.signaled = true;
    }

    /// Whether the signal has been raised.
    pub fn is_signaled(&self) -> (r: bool)
        ensures
            r == self.signaled,
    {
        self.signaled
    }
}

/// Sending the shutdown signal twice leaves exactly the state one send
/// leaves: the fan-out is idempotent.
pub proof fn lemma_send_idempotent(s: ShutdownSignal)
    ensures
        spec_send(spec_send(s)) == spec_send(s),
{
}

/// The units of execution the orchestrator supervises.
#[derive(Clone, Copy, Debug, PartialEq, Eq, Structural)]
pub enum UnitId {
    /// The enclave supervisor's run-and-wait unit.
    Enclave,
    /// The outbound proxy listener.
    Proxy,
    /// The helper path: configuration push, then state synchronization.
    Helper,
}

/// The orchestrator's lifecycle.
#[derive(Clone, Copy, Debug, PartialEq, Eq, Structural)]
pub enum LauncherPhase {
    Idle,
    Starting,
    Running,
    ShuttingDown,
    Stopped,
}

/// The orchestrator. It owns the shutdown signal and the configurations
/// the units run under; its phase advances only through the methods here.
pub struct Launcher {
    /// The signing options handed to the helper unit.
    pub tmkms_config: NitroSignOpt,
    /// The enclave and proxy options handed to their units.
    pub enclave_config: EnclaveConfig,
    /// Where the session stands.
    pub phase: LauncherPhase,
    /// The fan-out shutdown signal.
    pub shutdown: ShutdownSignal,
    /// Whether any unit failed during this session.
    pub failed: bool,
}

/// The launcher after a unit reported a fatal failure: the signal is
/// raised for every other unit, the failure is recorded, and the session
/// is shutting down. The transition does not depend on which unit failed.
pub open spec fn spec_unit_failure(l: Launcher, unit: UnitId) -> Launcher {
    Launcher {
        phase: if l.phase is Stopped {
            LauncherPhase::Stopped
        } else {
            LauncherPhase::ShuttingDown
        },
        shutdown: ShutdownSignal { signaled: true },
        failed: true,
        ..l
    }
}

/// The launcher after an operator interrupt: fanned out exactly like a
/// failure, but the session stays clean.
pub open spec fn spec_interrupt(l: Launcher) -> Launcher {
    Launcher {
        phase: if l.phase is Stopped {
            LauncherPhase::Stopped
        } else {
            LauncherPhase::ShuttingDown
        },
        shutdown: ShutdownSignal { signaled: true },
        ..l
    }
}

impl Launcher {
    /// The phase invariant: once the session is shutting down or stopped,
    /// the signal has been raised — no unit is left waiting; and a
    /// recorded failure always has the signal raised behind it.
    pub open spec fn wf(self) -> bool {
        &&& (self.phase is ShuttingDown || self.phase is Stopped) ==> self.shutdown.signaled
        &&& self.failed ==> self.shutdown.signaled
    }

    /// A new orchestrator: idle, signal unraised, nothing failed.
    pub fn new(tmkms_config: NitroSignOpt, enclave_config: EnclaveConfig) -> (r: Launcher)
        ensures
            r.phase == LauncherPhase::Idle,
            !r.shutdown.signaled,
            !r.failed,
            r.tmkms_config == tmkms_config,
            r.enclave_config == enclave_config,
            r.wf(),
    {
        Launcher {
            tmkms_config,
            enclave_config,
            phase: LauncherPhase::Idle,
            shutdown: ShutdownSignal::new(),
            failed: false,
        }
    }

    /// Opens the session: the shell must now spawn the units, in this
    /// order — the enclave first, then the proxy, then the helper, which
    /// waits for the readiness poll before it pushes configuration.
    pub fn begin_run(&mut self) -> (order: Vec<UnitId>)
        requires
            old(self).phase == LauncherPhase::Idle,
        ensures
            final(self).phase == LauncherPhase::Starting,
            final(self).shutdown == old(self).shutdown,
            final(self).failed == old(self).failed,
            final(self).tmkms_config == old(self).tmkms_config,
            final(self).enclave_config == old(self).enclave_config,
            order@ == seq![UnitId::Enclave, UnitId::Proxy, UnitId::Helper],
            old(self).wf() ==> final(self).wf(),
    {
        self.phase = LauncherPhase::Starting;
        let mut order: Vec<UnitId> = Vec::new();
        order.push(UnitId::Enclave);
        order.push(UnitId::Proxy);
        order.push(UnitId::Helper);
        assert(order@ =~= seq![UnitId::Enclave, UnitId::Proxy, UnitId::Helper]);
        order
    }

    /// The enclave reported its channel-identifier and the configuration
    /// push completed: the session is running for signing purposes.
    pub fn on_session_ready(&mut self)
        requires
            old(self).phase == LauncherPhase::Starting,
        ensures
            final(self).phase == LauncherPhase::Running,
            final(self).shutdown == old(self).shutdown,
            final(self).failed == old(self).failed,
            final(self).tmkms_config == old(self).tmkms_config,
            final(self).enclave_config == old(self).enclave_config,
            old(self).wf() ==> final(self).wf(),
    {
        self.phase = LauncherPhase::Running;
    }

    /// A unit reported a fatal failure: record it and fan the shutdown
    /// signal out to every other unit. Safe whatever the phase, and safe
    /// to repeat: the transition is idempotent.
    pub fn on_unit_failure(&mut self, unit: UnitId)
        ensures
            *final(self) == spec_unit_failure(*old(self), unit),
            final(self).wf(),
    {
        self.failed = true;
        self.shutdown.send();
        match self.phase {
            LauncherPhase::Stopped => {
                self.phase = LauncherPhase::Stopped;
            },
            _ => {
                self.phase = LauncherPhase::ShuttingDown;
            },
        }
    }

    /// The operator asked for a stop: fanned out exactly like a failure,
    /// but the session stays clean and can still exit with success.
    pub fn on_interrupt(&mut self)
        ensures
            *final(self) == spec_interrupt(*old(self)),
            old(self).wf() ==> final(self).wf(),
    {
        self.shutdown.send();
        match self.phase {
            LauncherPhase::Stopped => {
                self.phase = LauncherPhase::Stopped;
            },
            _ => {
                self.phase = LauncherPhase::ShuttingDown;
            },
        }
    }

    /// Every joinable unit was joined: the session is over.
    pub fn on_all_joined(&mut self)
        requires
            old(self).phase == LauncherPhase::ShuttingDown,
        ensures
            final(self).phase == LauncherPhase::Stopped,
            final(self).shutdown == old(self).shutdown,
            final(self).failed == old(self).failed,
            final(self).tmkms_config == old(self).tmkms_config,
            final(self).enclave_config == old(self).enclave_config,
            old(self).wf() ==> final(self).wf(),
    {
        self.phase = LauncherPhase::Stopped;
    }

    /// The process exit code: zero exactly on a clean operator-initiated
    /// shutdown that joined all units; non-zero on any fatal failure.
    pub fn exit_code(&self) -> (r: i32)
        ensures
            r == 0 <==> (self.phase == LauncherPhase::Stopped && !self.failed),
            r == 0 || r == 1,
    {
        match self.phase {
            LauncherPhase::Stopped => if self.failed {
                1
            } else {
                0
            },
            _ => 1,
        }
    }
}

/// Two units failing — concurrently or not, the same unit or different
/// ones — leave exactly the state one failure leaves: the second fan-out
/// is a no-op, so no receiver can observe a second shutdown.
pub proof fn lemma_unit_failure_idempotent(l: Launcher, first: UnitId, second: UnitId)
    ensures
        spec_unit_failure(spec_unit_failure(l, first), second) == spec_unit_failure(l, first),
{
}

/// An interrupt arriving after a failure (or the other way round) adds
/// nothing beyond recording the failure: the signal fan-out stays single.
pub proof fn lemma_interrupt_after_failure(l: Launcher, unit: UnitId)
    ensures
        spec_interrupt(spec_unit_failure(l, unit)) == spec_unit_failure(l, unit),
{
}

/// Builds the orchestrator for one session, ready for the shell to spawn
/// the units: the enclave, the proxy, and the helper path.
pub fn launch_all(tmkms_config: NitroSignOpt, enclave_config: EnclaveConfig) -> (r: Launcher)
    ensures
        r.phase == LauncherPhase::Starting,
        !r.shutdown.signaled,
        !r.failed,
        r.tmkms_config == tmkms_config,
        r.enclave_config == enclave_config,
        r.wf(),
{
    let mut launcher = Launcher::new(tmkms_config, enclave_config);
    launcher.begin_run();
    launcher
}

} // verus!
