//! Properties of the lifecycle machine, over every sequence of events and over
//! a model of the host in which every operation succeeds.

use vstd::prelude::*;
use crate::lifecycle::{Action, Command, Event, Observed, Outcome, Phase, Session, next, opening};

verus! {

/// The actions a session asks for while it is handed `events` in order.
pub open spec fn run(s: Session, events: Seq<Event>) -> Seq<Action>
    decreases events.len(),
{
    if events.len() == 0 {
        Seq::empty()
    } else {
        seq![next(s, events[0]).1] + run(next(s, events[0]).0, events.drop_first())
    }
}

/// Every action that command `c` asks for when handed `events`: the opening
/// action, then one per event.
pub open spec fn trace(c: Command, events: Seq<Event>) -> Seq<Action> {
    seq![opening(c).1] + run(opening(c).0, events)
}

/// Whatever the events, a session that keeps property `inv` under every step
/// taken on an event allowed by `ev` asks only for actions allowed by `act`.
pub proof fn lemma_run_keeps(
    inv: spec_fn(Session) -> bool,
    ev: spec_fn(Event) -> bool,
    act: spec_fn(Action) -> bool,
    s: Session,
    events: Seq<Event>,
)
    requires
        inv(s),
        forall|t: Session, e: Event| inv(t) && ev(e) ==> inv(#[trigger] next(t, e).0) && act(next(t, e).1),
        forall|k: int| 0 <= k < events.len() ==> ev(#[trigger] events[k]),
    ensures
        forall|k: int| 0 <= k < run(s, events).len() ==> act(#[trigger] run(s, events)[k]),
        run(s, events).len() == events.len(),
    decreases events.len(),
{
    if events.len() > 0 {
        let rest = events.drop_first();
        assert(ev(events[0]));
        assert forall|k: int| 0 <= k < rest.len() implies ev(#[trigger] rest[k]) by {
            assert(rest[k] == events[k + 1]);
        }
        lemma_run_keeps(inv, ev, act, next(s, events[0]).0, rest);
        let r = run(s, events);
        assert forall|k: int| 0 <= k < r.len() implies act(#[trigger] r[k]) by {
            if k > 0 {
                assert(r[k] == run(next(s, events[0]).0, rest)[k - 1]);
            }
        }
    }
}

/// A mutating command handed no report of elevation asks for nothing but the
/// elevation check and the report that elevation is required: no file copy, no
/// registry change, no lock.
pub proof fn lemma_unelevated_is_inert(c: Command, events: Seq<Event>)
    requires
        crate::lifecycle::is_mutating(c),
        forall|k: int| 0 <= k < events.len() ==> events[k] != Event::Elevation(true),
    ensures
        forall|k: int| 0 <= k < trace(c, events).len() ==>
            #[trigger] trace(c, events)[k] == Action::CheckElevation
            || trace(c, events)[k] == Action::Finish(Outcome::ElevationRequired),
{
    let inv = |t: Session| t.phase == Phase::Elevation || t.phase == (Phase::Done { outcome: Outcome::ElevationRequired });
    let ev = |e: Event| e != Event::Elevation(true);
    let act = |a: Action| a == Action::CheckElevation || a == Action::Finish(Outcome::ElevationRequired);
    lemma_run_keeps(inv, ev, act, opening(c).0, events);
    let t = trace(c, events);
    assert forall|k: int| 0 <= k < t.len() implies #[trigger] t[k] == Action::CheckElevation
        || t[k] == Action::Finish(Outcome::ElevationRequired) by {
        if k > 0 {
            assert(t[k] == run(opening(c).0, events)[k - 1]);
        }
    }
}

/// Install, while the registry reports the service as present however often it
/// is asked, never copies files or creates a second registration.
pub proof fn lemma_install_refuses_when_registered(auto: bool, events: Seq<Event>)
    requires
        forall|k: int| 0 <= k < events.len() ==> events[k] != Event::State(Observed::Unregistered),
    ensures
        forall|k: int| 0 <= k < trace(Command::Install { auto }, events).len() ==> {
            let a = #[trigger] trace(Command::Install { auto }, events)[k];
            !(a is CreateRegistration) && !(a is CopyFiles) && !(a is PrepareDirectory)
        },
{
    let c = Command::Install { auto };
    let inv = |t: Session| t.command == c && (t.phase is Elevation || t.phase is State || t.phase is Done);
    let ev = |e: Event| e != Event::State(Observed::Unregistered);
    let act = |a: Action| !(a is CreateRegistration) && !(a is CopyFiles) && !(a is PrepareDirectory);
    lemma_run_keeps(inv, ev, act, opening(c).0, events);
    let t = trace(c, events);
    assert forall|k: int| 0 <= k < t.len() implies act(#[trigger] t[k]) by {
        if k > 0 {
            assert(t[k] == run(opening(c).0, events)[k - 1]);
        }
    }
}

/// Start, while the registry reports the service as registered however often it
/// is asked, never takes the singleton lock and never runs the engine itself.
pub proof fn lemma_start_on_registered_spawns_nothing(events: Seq<Event>)
    requires
        forall|k: int| 0 <= k < events.len() ==> events[k] != Event::State(Observed::Unregistered),
    ensures
        forall|k: int| 0 <= k < trace(Command::Start, events).len() ==> {
            let a = #[trigger] trace(Command::Start, events)[k];
            a != Action::AcquireLock && a != Action::RunEngine
        },
{
    let c = Command::Start;
    let inv = |t: Session| t.command == c && (t.phase is Elevation || t.phase is Firewall || t.phase is Config
        || t.phase is State || t.phase is Start || t.phase is Done);
    let ev = |e: Event| e != Event::State(Observed::Unregistered);
    let act = |a: Action| a != Action::AcquireLock && a != Action::RunEngine;
    lemma_run_keeps(inv, ev, act, opening(c).0, events);
    let t = trace(c, events);
    assert forall|k: int| 0 <= k < t.len() implies act(#[trigger] t[k]) by {
        if k > 0 {
            assert(t[k] == run(opening(c).0, events)[k - 1]);
        }
    }
}

/// Start on a service reported running ends with "not stopped" and asks for
/// nothing after that report.
pub proof fn lemma_start_on_running_refuses(s: Session, o: Observed, events: Seq<Event>)
    requires
        s.command == Command::Start,
        s.phase == Phase::State,
        o == Observed::Running || o == Observed::Transitional,
    ensures
        next(s, Event::State(o)).1 == Action::Finish(Outcome::NotStopped),
        forall|k: int| 0 <= k < run(next(s, Event::State(o)).0, events).len() ==>
            #[trigger] run(next(s, Event::State(o)).0, events)[k] == Action::Finish(Outcome::NotStopped),
{
    let d = next(s, Event::State(o)).0;
    let inv = |t: Session| t == d;
    let ev = |e: Event| true;
    let act = |a: Action| a == Action::Finish(Outcome::NotStopped);
    lemma_run_keeps(inv, ev, act, d, events);
}

proof fn lemma_run_deletes_after_stopped(s: Session, events: Seq<Event>)
    ensures
        run(s, events).len() == events.len(),
        forall|k: int| 0 <= k < events.len() && #[trigger] run(s, events)[k] == Action::DeleteRegistration
            ==> events[k] == Event::State(Observed::Stopped),
    decreases events.len(),
{
    if events.len() > 0 {
        let rest = events.drop_first();
        let s2 = next(s, events[0]).0;
        lemma_run_deletes_after_stopped(s2, rest);
        let r = run(s, events);
        assert forall|k: int| 0 <= k < events.len() && #[trigger] r[k] == Action::DeleteRegistration
            implies events[k] == Event::State(Observed::Stopped) by {
            if k > 0 {
                assert(r[k] == run(s2, rest)[k - 1]);
                assert(events[k] == rest[k - 1]);
            }
        }
    }
}

/// Deletion of the registration is asked for only right after the registry has
/// reported the service stopped: a running service is stopped first, and never
/// deleted while in another state.
pub proof fn lemma_delete_only_when_stopped(c: Command, events: Seq<Event>)
    ensures
        trace(c, events).len() == events.len() + 1,
        trace(c, events)[0] != Action::DeleteRegistration,
        forall|k: int| 1 <= k <= events.len() && #[trigger] trace(c, events)[k] == Action::DeleteRegistration
            ==> events[k - 1] == Event::State(Observed::Stopped),
{
    lemma_run_deletes_after_stopped(opening(c).0, events);
    let t = trace(c, events);
    assert forall|k: int| 1 <= k <= events.len() && #[trigger] t[k] == Action::DeleteRegistration
        implies events[k - 1] == Event::State(Observed::Stopped) by {
        assert(t[k] == run(opening(c).0, events)[k - 1]);
    }
}

/// Once the singleton lock is taken, the engine runs and the lock is released
/// next, whatever the engine reports, before the session ends.
pub proof fn lemma_lock_always_released(s: Session, ran: Event, released: Event)
    requires
        s.phase == Phase::Lock,
    ensures
        next(s, Event::Done(true)).1 == Action::RunEngine,
        next(next(s, Event::Done(true)).0, ran).1 == Action::ReleaseLock,
        next(next(next(s, Event::Done(true)).0, ran).0, released).1 is Finish,
{
}

/// A model of the host: whether the service is registered, whether it runs,
/// and whether the singleton lock is held.
pub struct Host {
    pub registered: bool,
    pub running: bool,
    pub lock_held: bool,
}

/// A consistent host: the lock is free between commands and only a registered
/// service runs.
pub open spec fn host_ok(h: Host) -> bool {
    !h.lock_held && (h.running ==> h.registered)
}

/// What the registry reports of the host.
pub open spec fn observe(h: Host) -> Observed {
    if !h.registered {
        Observed::Unregistered
    } else if h.running {
        Observed::Running
    } else {
        Observed::Stopped
    }
}

/// An elevated host on which every operation that the host's state allows
/// succeeds at once: the effect of action `a` and the event it reports.
pub open spec fn respond(h: Host, a: Action) -> (Host, Event) {
    match a {
        Action::CheckElevation => (h, Event::Elevation(true)),
        Action::QueryState => (h, Event::State(observe(h))),
        Action::WaitForStop => (h, Event::State(observe(h))),
        Action::CreateRegistration { .. } => if h.registered {
            (h, Event::Done(false))
        } else {
            (Host { registered: true, running: false, ..h }, Event::Done(true))
        },
        Action::UpdateRegistration { .. } => (h, Event::Done(h.registered)),
        Action::RequestStart => (Host { running: h.registered, ..h }, Event::Done(h.registered)),
        Action::RequestStop => (Host { running: false, ..h }, Event::Done(h.running)),
        Action::DeleteRegistration => if h.registered && !h.running {
            (Host { registered: false, ..h }, Event::Done(true))
        } else {
            (h, Event::Done(false))
        },
        Action::AcquireLock => if h.lock_held {
            (h, Event::Done(false))
        } else {
            (Host { lock_held: true, ..h }, Event::Done(true))
        },
        Action::ReleaseLock => (Host { lock_held: false, ..h }, Event::Done(true)),
        _ => (h, Event::Done(true)),
    }
}

/// The host after a session, asked for action `a`, runs to its end (or for
/// `fuel` actions) against [`respond`].
pub open spec fn execute(s: Session, h: Host, a: Action, fuel: nat) -> Host
    decreases fuel,
{
    if fuel == 0 || a is Finish {
        h
    } else {
        let (h2, e) = respond(h, a);
        let (s2, a2) = next(s, e);
        execute(s2, h2, a2, (fuel - 1) as nat)
    }
}

/// The host after command `c` has run on `h`.
pub open spec fn perform(c: Command, h: Host) -> Host {
    execute(opening(c).0, h, opening(c).1, 16)
}

proof fn lemma_install_on(auto: bool, h: Host)
    requires
        host_ok(h),
    ensures
        perform(Command::Install { auto }, h) == (Host { registered: true, running: h.running, lock_held: false }),
{
    reveal_with_fuel(execute, 8);
}

proof fn lemma_start_on_stopped()
    ensures
        perform(Command::Start, Host { registered: true, running: false, lock_held: false })
            == (Host { registered: true, running: true, lock_held: false }),
{
    reveal_with_fuel(execute, 8);
}

proof fn lemma_start_on_running()
    ensures
        perform(Command::Start, Host { registered: true, running: true, lock_held: false })
            == (Host { registered: true, running: true, lock_held: false }),
{
    reveal_with_fuel(execute, 8);
}

proof fn lemma_stop_on_running()
    ensures
        perform(Command::Stop, Host { registered: true, running: true, lock_held: false })
            == (Host { registered: true, running: false, lock_held: false }),
{
    reveal_with_fuel(execute, 8);
}

proof fn lemma_uninstall_on_stopped()
    ensures
        perform(Command::Uninstall, Host { registered: true, running: false, lock_held: false })
            == (Host { registered: false, running: false, lock_held: false }),
{
    reveal_with_fuel(execute, 8);
}

/// From any consistent host, install, start, stop and uninstall in turn leave
/// the service unregistered and the singleton lock free.
pub proof fn lemma_full_cycle(auto: bool, h: Host)
    requires
        host_ok(h),
    ensures
        !perform(Command::Uninstall, perform(Command::Stop, perform(Command::Start, perform(Command::Install { auto }, h)))).registered,
        !perform(Command::Uninstall, perform(Command::Stop, perform(Command::Start, perform(Command::Install { auto }, h)))).lock_held,
{
    lemma_install_on(auto, h);
    lemma_start_on_stopped();
    lemma_start_on_running();
    lemma_stop_on_running();
    lemma_uninstall_on_stopped();
}

} // verus!
