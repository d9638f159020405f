//! The supervisor state machine: at most one backend process is tracked, set
//! once by a successful spawn, read once by shutdown to issue a kill.

use vstd::prelude::*;
use crate::failure::Failure;

verus! {

/// The lifecycle phase of the supervised backend.
#[derive(Debug, Clone, Copy, PartialEq, Eq, Structural)]
pub enum Phase {
    NotStarted,
    Running,
    FailedToStart,
    Terminated,
}

/// The supervisor's shared state: the current lifecycle phase and the handle
/// of the tracked process, if one is running. The surrounding binary owns the
/// OS-level child and identifies it here by a plain number.
#[derive(Debug, Clone, PartialEq, Eq)]
pub struct Supervisor {
    pub phase: Phase,
    pub handle: Option<u64>,
}

/// The supervisor tracks a handle exactly while a backend is running.
pub open spec fn wf(s: Supervisor) -> bool {
    s.handle is Some <==> s.phase is Running
}

impl Supervisor {
    /// A fresh supervisor: nothing started, nothing tracked.
    pub fn new() -> (s: Supervisor)
        ensures
            s.phase is NotStarted,
            s.handle is None,
            wf(s),
    {
        Supervisor { phase: Phase::NotStarted, handle: None }
    }

    /// Records the outcome of the one OS spawn call. A success stores the new
    /// handle, replacing any prior one; a failure leaves a running backend
    /// untouched, marks an idle supervisor as failed, and hands back the
    /// failure to report. No outcome is retried.
    pub fn record_spawn_outcome(&mut self, outcome: Result<u64, String>) -> (failure: Option<
        Failure,
    >)
        ensures
            *final(self) == after_spawn_outcome(*old(self), outcome),
            wf(*old(self)) ==> wf(*final(self)),
            match outcome {
                Ok(_) => failure is None,
                Err(err) => failure matches Some(Failure::SpawnFailed(m)) && m@ == err@,
            },
    {
        match outcome {
            Ok(pid) => {
                self.handle = Some(pid);
                self.phase = Phase::Running;
                None
            },
            Err(err) => {
                match self.phase {
                    Phase::Running => {},
                    _ => {
                        self.phase = Phase::FailedToStart;
                    },
                }
                Some(Failure::SpawnFailed(err))
            },
        }
    }

    /// Decides what the application's exit must signal: the tracked process's
    /// handle if a backend is running, to receive one forced termination
    /// signal, and nothing otherwise. The caller issues the signal and ignores
    /// its result; the supervisor counts the backend as terminated either way.
    pub fn shutdown(&mut self) -> (kill_target: Option<u64>)
        ensures
            *final(self) == after_shutdown(*old(self)),
            kill_target == shutdown_kill_target(*old(self)),
            wf(*old(self)) ==> wf(*final(self)),
    {
        match self.phase {
            Phase::Running => {
                let target = self.handle;
                self.handle = None;
                self.phase = Phase::Terminated;
                target
            },
            _ => None,
        }
    }
}

/// The supervisor state after a spawn outcome is recorded: a success tracks
/// exactly the new handle; a failure changes nothing of a running backend and
/// otherwise marks the launch as failed.
pub open spec fn after_spawn_outcome(s: Supervisor, outcome: Result<u64, String>) -> Supervisor {
    match outcome {
        Ok(pid) => Supervisor { phase: Phase::Running, handle: Some(pid) },
        Err(_) => if s.phase is Running {
            s
        } else {
            Supervisor { phase: Phase::FailedToStart, handle: s.handle }
        },
    }
}

/// The handle that a shutdown signals: the tracked one while a backend runs,
/// none otherwise.
pub open spec fn shutdown_kill_target(s: Supervisor) -> Option<u64> {
    if s.phase is Running {
        s.handle
    } else {
        None
    }
}

/// The supervisor state after a shutdown: a running backend counts as
/// terminated and is no longer tracked; any other state is left untouched.
pub open spec fn after_shutdown(s: Supervisor) -> Supervisor {
    if s.phase is Running {
        Supervisor { phase: Phase::Terminated, handle: None }
    } else {
        s
    }
}

/// Every supervisor transition keeps the state well formed: a handle is
/// tracked exactly while a backend runs, so at most one live process is ever
/// tracked at a time.
pub proof fn lemma_transitions_preserve_wf(s: Supervisor, outcome: Result<u64, String>)
    requires
        wf(s),
    ensures
        wf(after_spawn_outcome(s, outcome)),
        wf(after_shutdown(s)),
{
}

/// A successful spawn tracks exactly the new handle, and a second successful
/// spawn overwrites rather than accumulates: only the latest handle remains
/// tracked.
pub proof fn lemma_second_spawn_overwrites(s: Supervisor, first: u64, second: u64)
    ensures
        ({
            let once = after_spawn_outcome(s, Result::<u64, String>::Ok(first));
            once.phase is Running && once.handle == Some(first)
        }),
        ({
            let twice = after_spawn_outcome(
                after_spawn_outcome(s, Result::<u64, String>::Ok(first)),
                Result::<u64, String>::Ok(second),
            );
            twice.phase is Running && twice.handle == Some(second)
        }),
{
}

/// A shutdown with no backend running signals no process at all and leaves
/// the supervisor exactly as it was.
pub proof fn lemma_shutdown_without_running_backend_is_noop(s: Supervisor)
    requires
        !(s.phase is Running),
    ensures
        shutdown_kill_target(s) is None,
        after_shutdown(s) == s,
{
}

/// A shutdown after a successful spawn signals exactly the tracked process,
/// and only once: afterwards the backend counts as terminated and a repeated
/// shutdown signals nothing further.
pub proof fn lemma_shutdown_after_spawn_signals_tracked_once(s: Supervisor, pid: u64)
    ensures
        ({
            let running = after_spawn_outcome(s, Result::<u64, String>::Ok(pid));
            shutdown_kill_target(running) == Some(pid) && after_shutdown(running).phase is Terminated
                && shutdown_kill_target(after_shutdown(running)) is None
        }),
{
}

} // verus!
