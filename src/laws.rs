use vstd::prelude::*;
use crate::supervisor::{
    Action, Event, OsErrorKind, Phase, ProbeResult, SupervisionOutcome, SupervisorError, action_of,
    is_terminal, next_phase,
};

verus! {

/// The phase reached from `p` once the events `evs` are reported in order.
pub open spec fn run_phase(p: Phase, evs: Seq<Event>) -> Phase
    decreases evs.len(),
{
    if evs.len() == 0 {
        p
    } else {
        run_phase(next_phase(p, evs[0]), evs.drop_first())
    }
}

/// How many spawns a supervisor on `port` asks for while the events `evs`
/// are reported to it, starting in phase `p`.
pub open spec fn spawns_in_run(p: Phase, evs: Seq<Event>, port: u16) -> nat
    decreases evs.len(),
{
    if evs.len() == 0 {
        0
    } else {
        (if action_of(p, evs[0], port) is Spawn { 1nat } else { 0nat })
            + spawns_in_run(next_phase(p, evs[0]), evs.drop_first(), port)
    }
}

/// Once a supervision has finished, nothing reported to it changes its phase
/// or makes it ask for a spawn.
pub proof fn lemma_finished_stays(p: Phase, evs: Seq<Event>, port: u16)
    requires
        is_terminal(p),
    ensures
        run_phase(p, evs) == p,
        spawns_in_run(p, evs, port) == 0,
    decreases evs.len(),
{
    if evs.len() > 0 {
        lemma_finished_stays(p, evs.drop_first(), port);
    }
}

/// A supervisor that has begun, or finished, spawning asks for no further
/// spawn.
pub proof fn lemma_no_spawn_after_spawning(p: Phase, evs: Seq<Event>, port: u16)
    requires
        p is Spawning || is_terminal(p),
    ensures
        spawns_in_run(p, evs, port) == 0,
    decreases evs.len(),
{
    if evs.len() > 0 {
        lemma_no_spawn_after_spawning(next_phase(p, evs[0]), evs.drop_first(), port);
    }
}

/// Whatever is reported to a supervisor, and in whatever order its callers'
/// requests and results arrive, it asks for at most one spawn: duplicate
/// instances of the service cannot come from it.
pub proof fn lemma_at_most_one_spawn(p: Phase, evs: Seq<Event>, port: u16)
    ensures
        spawns_in_run(p, evs, port) <= 1,
    decreases evs.len(),
{
    if evs.len() > 0 {
        let q = next_phase(p, evs[0]);
        if action_of(p, evs[0], port) is Spawn {
            lemma_no_spawn_after_spawning(q, evs.drop_first(), port);
        } else {
            lemma_at_most_one_spawn(q, evs.drop_first(), port);
        }
    } else if p is Spawning || is_terminal(p) {
        lemma_no_spawn_after_spawning(p, evs, port);
    }
}

/// Reporting one more event adds a spawn exactly when the action for it is a
/// spawn.
pub proof fn lemma_run_push(p: Phase, evs: Seq<Event>, e: Event, port: u16)
    ensures
        run_phase(p, evs.push(e)) == next_phase(run_phase(p, evs), e),
        spawns_in_run(p, evs.push(e), port) == spawns_in_run(p, evs, port) + (if action_of(
            run_phase(p, evs),
            e,
            port,
        ) is Spawn {
            1nat
        } else {
            0nat
        }),
    decreases evs.len(),
{
    if evs.len() > 0 {
        assert(evs.push(e).drop_first() =~= evs.drop_first().push(e));
        assert(evs.push(e)[0] == evs[0]);
        lemma_run_push(next_phase(p, evs[0]), evs.drop_first(), e, port);
        assert(run_phase(p, evs.push(e)) == run_phase(next_phase(p, evs[0]), evs.drop_first().push(e)));
        assert(run_phase(p, evs) == run_phase(next_phase(p, evs[0]), evs.drop_first()));
    } else {
        let one = evs.push(e);
        assert(one.len() == 1);
        assert(one.drop_first() =~= evs);
        assert(one[0] == e);
        assert(run_phase(next_phase(p, e), evs) == next_phase(p, e));
        assert(spawns_in_run(next_phase(p, e), evs, port) == 0);
        assert(run_phase(p, one) == run_phase(next_phase(p, e), one.drop_first()));
    }
}

/// When the port is free and the executable can be launched, a caller of a
/// fresh supervisor is asked to probe the port, then to spawn, and is told
/// that the service was started.
pub proof fn lemma_free_port_starts(port: u16)
    ensures
        action_of(Phase::Unchecked, Event::Start, port) == (Action::Probe { port }),
        action_of(Phase::Probing, Event::Probed(ProbeResult::Free), port) == (Action::Spawn {
            probe_failure: None,
        }),
        action_of(Phase::Spawning, Event::SpawnSucceeded, port) == Action::Finish(
            Ok(SupervisionOutcome::Started),
        ),
        run_phase(
            Phase::Unchecked,
            seq![Event::Start, Event::Probed(ProbeResult::Free), Event::SpawnSucceeded],
        ) == Phase::Started,
{
    let evs = seq![Event::Start, Event::Probed(ProbeResult::Free), Event::SpawnSucceeded];
    let rest1 = evs.drop_first();
    let rest2 = rest1.drop_first();
    assert(rest1 =~= seq![Event::Probed(ProbeResult::Free), Event::SpawnSucceeded]);
    assert(rest2 =~= seq![Event::SpawnSucceeded]);
    assert(rest2.drop_first() =~= Seq::<Event>::empty());
    assert(run_phase(Phase::Started, rest2.drop_first()) == Phase::Started);
    assert(run_phase(Phase::Spawning, rest2) == Phase::Started);
    assert(run_phase(Phase::Probing, rest1) == Phase::Started);
}

/// When the probe finds the port occupied, the verdict is that the service
/// is already running, and no spawn is asked for then or ever after.
pub proof fn lemma_occupied_port_never_spawns(evs: Seq<Event>, port: u16)
    ensures
        action_of(Phase::Probing, Event::Probed(ProbeResult::Occupied), port) == Action::Finish(
            Ok(SupervisionOutcome::AlreadyRunning),
        ),
        next_phase(Phase::Probing, Event::Probed(ProbeResult::Occupied)) == Phase::AlreadyRunning,
        spawns_in_run(Phase::Probing, seq![Event::Probed(ProbeResult::Occupied)] + evs, port)
            == 0,
{
    let all = seq![Event::Probed(ProbeResult::Occupied)] + evs;
    assert(all.drop_first() =~= evs);
    lemma_finished_stays(Phase::AlreadyRunning, evs, port);
}

/// When the executable cannot be launched, the caller is told why, and every
/// later caller gets the same verdict without a new spawn.
pub proof fn lemma_spawn_failure_reported(
    k: OsErrorKind,
    evs: Seq<Event>,
    e: Event,
    port: u16,
)
    ensures
        action_of(Phase::Spawning, Event::SpawnFailed(k), port) == Action::Finish(
            Err(SupervisorError::SpawnFailed(k)),
        ),
        run_phase(Phase::SpawnFailed(k), evs) == Phase::SpawnFailed(k),
        spawns_in_run(Phase::SpawnFailed(k), evs, port) == 0,
        action_of(Phase::SpawnFailed(k), e, port) == Action::Finish(
            Err(SupervisorError::SpawnFailed(k)),
        ),
{
    lemma_finished_stays(Phase::SpawnFailed(k), evs, port);
}

/// Asking again after the service was started reports it as already running
/// and spawns nothing more.
pub proof fn lemma_start_is_idempotent(evs: Seq<Event>, port: u16)
    requires
        run_phase(Phase::Unchecked, evs) == Phase::Started,
    ensures
        action_of(Phase::Started, Event::Start, port) == Action::Finish(
            Ok(SupervisionOutcome::AlreadyRunning),
        ),
        run_phase(Phase::Unchecked, evs.push(Event::Start)) == Phase::Started,
        spawns_in_run(Phase::Unchecked, evs.push(Event::Start), port) == spawns_in_run(
            Phase::Unchecked,
            evs,
            port,
        ),
{
    lemma_run_push(Phase::Unchecked, evs, Event::Start, port);
}

} // verus!
