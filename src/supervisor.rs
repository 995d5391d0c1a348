use vstd::prelude::*;
use crate::target::ServiceTarget;

verus! {

/// The kinds of OS error the supervisor tells apart.
#[derive(Clone, Copy, Debug, PartialEq, Eq, Structural)]
pub enum OsErrorKind {
    NotFound,
    PermissionDenied,
    AddrInUse,
    Other,
}

/// What a check of the service's port found.
#[derive(Clone, Copy, Debug, PartialEq, Eq, Structural)]
pub enum ProbeResult {
    /// Something listens on the port; who it is stays unknown.
    Occupied,
    Free,
    /// The check itself could not run.
    ProbeFailed(OsErrorKind),
}

/// How a successful supervision ended.
#[derive(Clone, Copy, Debug, PartialEq, Eq, Structural)]
pub enum SupervisionOutcome {
    /// The port was already served (or this supervisor had started the
    /// service before): nothing was spawned.
    AlreadyRunning,
    /// The service's executable was spawned by this call.
    Started,
}

/// How a supervision failed.
#[derive(Clone, Copy, Debug, PartialEq, Eq, Structural)]
pub enum SupervisorError {
    /// The executable could not be launched.
    SpawnFailed(OsErrorKind),
}

/// Where the supervision of one service stands. It only moves forward:
/// `Unchecked -> Probing -> (AlreadyRunning | Spawning -> (Started | SpawnFailed))`.
#[derive(Clone, Copy, Debug, PartialEq, Eq, Structural)]
pub enum Phase {
    Unchecked,
    Probing,
    Spawning,
    AlreadyRunning,
    Started,
    SpawnFailed(OsErrorKind),
}

/// What the host reports to the supervisor.
#[derive(Clone, Copy, Debug, PartialEq, Eq, Structural)]
pub enum Event {
    /// A caller asks that the service be running.
    Start,
    /// The port check the supervisor asked for has finished.
    Probed(ProbeResult),
    /// The spawn the supervisor asked for succeeded.
    SpawnSucceeded,
    /// The spawn the supervisor asked for failed.
    SpawnFailed(OsErrorKind),
}

/// What the supervisor asks the host to do next.
#[derive(Clone, Copy, Debug, PartialEq, Eq)]
pub enum Action {
    /// Check whether `port` is in use, and report `Event::Probed`.
    Probe { port: u16 },
    /// Launch the target's executable detached, and report the result.
    /// `probe_failure` is set when the port check could not run and the
    /// spawn goes ahead on the assumption that the port is free.
    Spawn { probe_failure: Option<OsErrorKind> },
    /// Another caller's probe or spawn is under way: wait for its verdict.
    Wait,
    /// Supervision is over; this is the caller's verdict.
    Finish(Result<SupervisionOutcome, SupervisorError>),
}

pub open spec fn is_terminal(p: Phase) -> bool {
    p is AlreadyRunning || p is Started || p is SpawnFailed
}

/// The phase that follows `p` when `e` is reported. Events that do not
/// belong to the phase leave it as it is, except that any event starts an
/// unchecked supervision.
pub open spec fn next_phase(p: Phase, e: Event) -> Phase {
    match (p, e) {
        (Phase::Unchecked, _) => Phase::Probing,
        (Phase::Probing, Event::Probed(ProbeResult::Occupied)) => Phase::AlreadyRunning,
        (Phase::Probing, Event::Probed(_)) => Phase::Spawning,
        (Phase::Spawning, Event::SpawnSucceeded) => Phase::Started,
        (Phase::Spawning, Event::SpawnFailed(k)) => Phase::SpawnFailed(k),
        _ => p,
    }
}

/// The verdict a finished supervision gives to every later caller: a service
/// started earlier is reported as already running.
pub open spec fn later_verdict(p: Phase) -> Result<SupervisionOutcome, SupervisorError> {
    match p {
        Phase::SpawnFailed(k) => Err(SupervisorError::SpawnFailed(k)),
        _ => Ok(SupervisionOutcome::AlreadyRunning),
    }
}

/// The action asked for when `e` is reported in phase `p`, for a service on
/// `port`.
pub open spec fn action_of(p: Phase, e: Event, port: u16) -> Action {
    match (p, e) {
        (Phase::Unchecked, _) => Action::Probe { port },
        (Phase::Probing, Event::Probed(ProbeResult::Occupied)) =>
            Action::Finish(Ok(SupervisionOutcome::AlreadyRunning)),
        (Phase::Probing, Event::Probed(ProbeResult::Free)) => Action::Spawn { probe_failure: None },
        (Phase::Probing, Event::Probed(ProbeResult::ProbeFailed(k))) =>
            Action::Spawn { probe_failure: Some(k) },
        (Phase::Spawning, Event::SpawnSucceeded) => Action::Finish(Ok(SupervisionOutcome::Started)),
        (Phase::Spawning, Event::SpawnFailed(k)) =>
            Action::Finish(Err(SupervisorError::SpawnFailed(k))),
        (Phase::Probing, _) => Action::Wait,
        (Phase::Spawning, _) => Action::Wait,
        _ => Action::Finish(later_verdict(p)),
    }
}

/// Turns the result of trying to bind the service's port into a probe
/// result: a bind that succeeds means the port is free, one refused because
/// the address is in use means it is occupied, and any other failure means
/// the check could not tell.
pub open spec fn probe_of_bind(b: Result<(), OsErrorKind>) -> ProbeResult {
    match b {
        Ok(()) => ProbeResult::Free,
        Err(OsErrorKind::AddrInUse) => ProbeResult::Occupied,
        Err(k) => ProbeResult::ProbeFailed(k),
    }
}

pub fn classify_bind(b: Result<(), OsErrorKind>) -> (r: ProbeResult)
    ensures
        r == probe_of_bind(b),
{
    match b {
        Ok(()) => ProbeResult::Free,
        Err(OsErrorKind::AddrInUse) => ProbeResult::Occupied,
        Err(k) => ProbeResult::ProbeFailed(k),
    }
}

/// Supervises one service for the life of the host process. At most one
/// caller at a time may drive it (the host holds it under a lock), so the
/// check of the port and the spawn that may follow cannot interleave with
/// another caller's.
pub struct Supervisor {
    target: ServiceTarget,
    phase: Phase,
}

impl Supervisor {
    pub closed spec fn target_view(&self) -> ServiceTarget {
        self.target
    }

    pub closed spec fn phase_view(&self) -> Phase {
        self.phase
    }

    pub fn new(target: ServiceTarget) -> (r: Supervisor)
        ensures
            r.target_view() == target,
            r.phase_view() == Phase::Unchecked,
    {
        Supervisor { target, phase: Phase::Unchecked }
    }

    pub fn target(&self) -> (r: &ServiceTarget)
        ensures
            *r == self.target_view(),
    {
        &self.target
    }

    pub fn phase(&self) -> (r: Phase)
        ensures
            r == self.phase_view(),
    {
        self.phase
    }

    /// Takes in what the host reports and says what it must do next.
    pub fn step(&mut self, e: Event) -> (a: Action)
        ensures
            final(self).target_view() == old(self).target_view(),
            final(self).phase_view() == next_phase(old(self).phase_view(), e),
            a == action_of(old(self).phase_view(), e, old(self).target_view().port_view()),
    {
        let port = self.target.port();
        match (self.phase, e) {
            (Phase::Unchecked, _) => {
                self.phase = Phase::Probing;
                Action::Probe { port }
            },
            (Phase::Probing, Event::Probed(ProbeResult::Occupied)) => {
                self.phase = Phase::AlreadyRunning;
                Action::Finish(Ok(SupervisionOutcome::AlreadyRunning))
            },
            (Phase::Probing, Event::Probed(ProbeResult::Free)) => {
                self.phase = Phase::Spawning;
                Action::Spawn { probe_failure: None }
            },
            (Phase::Probing, Event::Probed(ProbeResult::ProbeFailed(k))) => {
                self.phase = Phase::Spawning;
                Action::Spawn { probe_failure: Some(k) }
            },
            (Phase::Spawning, Event::SpawnSucceeded) => {
                self.phase = Phase::Started;
                Action::Finish(Ok(SupervisionOutcome::Started))
            },
            (Phase::Spawning, Event::SpawnFailed(k)) => {
                self.phase = Phase::SpawnFailed(k);
                Action::Finish(Err(SupervisorError::SpawnFailed(k)))
            },
            (Phase::Probing, _) => Action::Wait,
            (Phase::Spawning, _) => Action::Wait,
            (Phase::SpawnFailed(k), _) => Action::Finish(Err(SupervisorError::SpawnFailed(k))),
            _ => Action::Finish(Ok(SupervisionOutcome::AlreadyRunning)),
        }
    }
}

} // verus!
