use switch_service::lifecycle::{Action, Command, Event, Observed, Outcome, Query, Session, STOP_POLLS};

/// Runs `c`, answering each action with `answer`, and returns every action asked for.
fn drive(c: Command, mut answer: impl FnMut(Action) -> Event) -> Vec<Action> {
    let (mut s, mut a) = Session::begin(c);
    let mut trace = vec![a];
    while !matches!(a, Action::Finish(_)) {
        assert!(trace.len() < 64, "session did not end");
        a = s.step(answer(a));
        trace.push(a);
    }
    assert!(s.is_done());
    trace
}

fn ok_all(state: Observed) -> impl FnMut(Action) -> Event {
    move |a| match a {
        Action::CheckElevation => Event::Elevation(true),
        Action::QueryState | Action::WaitForStop => Event::State(state),
        _ => Event::Done(true),
    }
}

/// A host on which every allowed operation succeeds.
#[derive(Clone, Copy, Debug, PartialEq)]
struct Host {
    registered: bool,
    running: bool,
    lock_held: bool,
}

impl Host {
    fn observe(&self) -> Observed {
        if !self.registered {
            Observed::Unregistered
        } else if self.running {
            Observed::Running
        } else {
            Observed::Stopped
        }
    }

    fn respond(&mut self, a: Action) -> Event {
        match a {
            Action::CheckElevation => Event::Elevation(true),
            Action::QueryState | Action::WaitForStop => Event::State(self.observe()),
            Action::CreateRegistration { .. } => {
                let ok = !self.registered;
                self.registered = true;
                Event::Done(ok)
            }
            Action::RequestStart => {
                self.running = self.registered;
                Event::Done(self.registered)
            }
            Action::RequestStop => {
                let ok = self.running;
                self.running = false;
                Event::Done(ok)
            }
            Action::DeleteRegistration => {
                if self.registered && !self.running {
                    self.registered = false;
                    Event::Done(true)
                } else {
                    Event::Done(false)
                }
            }
            Action::AcquireLock => {
                if self.lock_held {
                    Event::Done(false)
                } else {
                    self.lock_held = true;
                    Event::Done(true)
                }
            }
            Action::ReleaseLock => {
                self.lock_held = false;
                Event::Done(true)
            }
            _ => Event::Done(true),
        }
    }
}

fn last(trace: &[Action]) -> Action {
    *trace.last().unwrap()
}

#[test]
fn full_cycle_ends_unregistered_with_lock_free() {
    let starts = [
        Host { registered: false, running: false, lock_held: false },
        Host { registered: true, running: false, lock_held: false },
        Host { registered: true, running: true, lock_held: false },
    ];
    for start in starts {
        let mut h = start;
        for c in [Command::Install { auto: true }, Command::Start, Command::Stop, Command::Uninstall] {
            drive(c, |a| h.respond(a));
        }
        assert!(!h.registered);
        assert!(!h.lock_held);
    }
}

#[test]
fn full_cycle_reports_each_step() {
    let mut h = Host { registered: false, running: false, lock_held: false };
    let t = drive(Command::Install { auto: false }, |a| h.respond(a));
    assert_eq!(last(&t), Action::Finish(Outcome::Installed));
    assert!(t.contains(&Action::CreateRegistration { auto: false }));
    let t = drive(Command::Start, |a| h.respond(a));
    assert_eq!(last(&t), Action::Finish(Outcome::Started));
    assert!(h.running);
    let t = drive(Command::Stop, |a| h.respond(a));
    assert_eq!(last(&t), Action::Finish(Outcome::Stopped));
    let t = drive(Command::Uninstall, |a| h.respond(a));
    assert_eq!(last(&t), Action::Finish(Outcome::Uninstalled));
}

#[test]
fn install_on_registered_service_is_refused() {
    for state in [Observed::Stopped, Observed::Running, Observed::Transitional] {
        let t = drive(Command::Install { auto: true }, ok_all(state));
        assert_eq!(
            t,
            vec![Action::CheckElevation, Action::QueryState, Action::Finish(Outcome::AlreadyRegistered)]
        );
    }
}

#[test]
fn start_on_running_service_spawns_nothing() {
    for state in [Observed::Running, Observed::Transitional] {
        let t = drive(Command::Start, ok_all(state));
        assert_eq!(last(&t), Action::Finish(Outcome::NotStopped));
        assert!(!t.contains(&Action::AcquireLock));
        assert!(!t.contains(&Action::RunEngine));
        assert!(!t.contains(&Action::RequestStart));
    }
}

#[test]
fn unelevated_mutating_commands_do_nothing() {
    let commands = [
        Command::Install { auto: true },
        Command::Uninstall,
        Command::Start,
        Command::Stop,
        Command::Reconfigure { auto: false },
    ];
    for c in commands {
        let t = drive(c, |a| match a {
            Action::CheckElevation => Event::Elevation(false),
            _ => Event::Done(true),
        });
        assert_eq!(t, vec![Action::CheckElevation, Action::Finish(Outcome::ElevationRequired)]);
    }
}

#[test]
fn uninstall_running_service_stops_before_delete() {
    let mut h = Host { registered: true, running: true, lock_held: false };
    let t = drive(Command::Uninstall, |a| h.respond(a));
    assert_eq!(
        t,
        vec![
            Action::CheckElevation,
            Action::QueryState,
            Action::RequestStop,
            Action::WaitForStop,
            Action::DeleteRegistration,
            Action::Finish(Outcome::Uninstalled),
        ]
    );
    assert!(!h.registered);
}

#[test]
fn uninstall_gives_up_when_service_never_stops() {
    let t = drive(Command::Uninstall, ok_all(Observed::Running));
    assert_eq!(last(&t), Action::Finish(Outcome::UninstallFailed));
    assert!(!t.contains(&Action::DeleteRegistration));
    let waits = t.iter().filter(|a| **a == Action::WaitForStop).count();
    assert_eq!(waits, STOP_POLLS as usize);
}

#[test]
fn uninstall_when_absent_is_not_a_failure() {
    let t = drive(Command::Uninstall, ok_all(Observed::Unregistered));
    assert_eq!(last(&t), Action::Finish(Outcome::AlreadyAbsent));
    assert!(!Outcome::AlreadyAbsent.is_failure());
}

#[test]
fn start_unregistered_runs_engine_under_lock() {
    let t = drive(Command::Start, ok_all(Observed::Unregistered));
    assert_eq!(
        t,
        vec![
            Action::CheckElevation,
            Action::AllowFirewall,
            Action::ResolveConfig,
            Action::QueryState,
            Action::AcquireLock,
            Action::RunEngine,
            Action::ReleaseLock,
            Action::Finish(Outcome::Started),
        ]
    );
    assert!(!t.contains(&Action::RequestStart));
}

#[test]
fn start_with_lock_held_fails_without_engine() {
    let mut h = Host { registered: false, running: false, lock_held: true };
    let t = drive(Command::Start, |a| h.respond(a));
    assert_eq!(last(&t), Action::Finish(Outcome::AlreadyRunning));
    assert!(!t.contains(&Action::RunEngine));
    assert!(!t.contains(&Action::ReleaseLock));
}

#[test]
fn install_without_artifact_reports_missing_dependency() {
    let t = drive(Command::Install { auto: false }, |a| match a {
        Action::CheckElevation => Event::Elevation(true),
        Action::QueryState => Event::State(Observed::Unregistered),
        Action::CheckArtifact => Event::Done(false),
        _ => Event::Done(true),
    });
    assert_eq!(
        t,
        vec![
            Action::CheckElevation,
            Action::QueryState,
            Action::CheckArtifact,
            Action::Finish(Outcome::MissingDependency),
        ]
    );
}

#[test]
fn engine_failure_still_releases_lock() {
    let t = drive(Command::Start, |a| match a {
        Action::CheckElevation => Event::Elevation(true),
        Action::QueryState => Event::State(Observed::Unregistered),
        Action::RunEngine => Event::Done(false),
        _ => Event::Done(true),
    });
    assert_eq!(&t[t.len() - 2..], &[Action::ReleaseLock, Action::Finish(Outcome::EngineFailed)]);
}

#[test]
fn registry_error_is_surfaced_not_fallen_back() {
    for c in [Command::Start, Command::Install { auto: true }, Command::Stop, Command::Uninstall, Command::Status] {
        let t = drive(c, ok_all(Observed::Unreachable));
        assert_eq!(last(&t), Action::Finish(Outcome::RegistryAccessError));
        assert!(!t.contains(&Action::AcquireLock));
    }
}

#[test]
fn start_on_stopped_service_asks_registry() {
    let t = drive(Command::Start, ok_all(Observed::Stopped));
    assert_eq!(&t[t.len() - 2..], &[Action::RequestStart, Action::Finish(Outcome::Started)]);
    let t = drive(Command::Start, |a| match a {
        Action::CheckElevation => Event::Elevation(true),
        Action::QueryState => Event::State(Observed::Stopped),
        Action::RequestStart => Event::Done(false),
        _ => Event::Done(true),
    });
    assert_eq!(last(&t), Action::Finish(Outcome::StartFailed));
}

#[test]
fn start_with_bad_config_stops_early() {
    let t = drive(Command::Start, |a| match a {
        Action::CheckElevation => Event::Elevation(true),
        Action::ResolveConfig => Event::Done(false),
        _ => Event::Done(true),
    });
    assert_eq!(last(&t), Action::Finish(Outcome::ConfigInvalid));
    assert!(!t.contains(&Action::QueryState));
}

#[test]
fn stop_outcomes() {
    let t = drive(Command::Stop, ok_all(Observed::Stopped));
    assert_eq!(last(&t), Action::Finish(Outcome::NotStarted));
    let t = drive(Command::Stop, |a| match a {
        Action::CheckElevation => Event::Elevation(true),
        Action::QueryState => Event::State(Observed::Running),
        _ => Event::Done(false),
    });
    assert_eq!(last(&t), Action::Finish(Outcome::StopFailed));
}

#[test]
fn install_failures() {
    let fail_at = |step: Action| {
        move |a: Action| match a {
            Action::CheckElevation => Event::Elevation(true),
            Action::QueryState => Event::State(Observed::Unregistered),
            _ => Event::Done(a != step),
        }
    };
    let t = drive(Command::Install { auto: true }, fail_at(Action::PrepareDirectory));
    assert_eq!(last(&t), Action::Finish(Outcome::NotADirectory));
    let t = drive(Command::Install { auto: true }, fail_at(Action::CopyFiles));
    assert_eq!(last(&t), Action::Finish(Outcome::InstallFailed));
    let t = drive(Command::Install { auto: true }, fail_at(Action::CreateRegistration { auto: true }));
    assert_eq!(last(&t), Action::Finish(Outcome::InstallFailed));
}

#[test]
fn reconfigure_outcomes() {
    let t = drive(Command::Reconfigure { auto: true }, ok_all(Observed::Running));
    assert_eq!(
        t,
        vec![
            Action::CheckElevation,
            Action::QueryState,
            Action::UpdateRegistration { auto: true },
            Action::Finish(Outcome::Reconfigured),
        ]
    );
    let t = drive(Command::Reconfigure { auto: false }, ok_all(Observed::Unregistered));
    assert_eq!(last(&t), Action::Finish(Outcome::NotRegistered));
    let t = drive(Command::Reconfigure { auto: false }, |a| match a {
        Action::CheckElevation => Event::Elevation(true),
        Action::QueryState => Event::State(Observed::Stopped),
        _ => Event::Done(false),
    });
    assert_eq!(last(&t), Action::Finish(Outcome::ReconfigureFailed));
}

#[test]
fn queries_need_running_service() {
    let cases = [
        (Command::Route, Query::Route),
        (Command::List { all: false }, Query::List),
        (Command::List { all: true }, Query::ListAll),
        (Command::Status, Query::Status),
    ];
    for (c, q) in cases {
        assert!(!c.is_mutating());
        let t = drive(c, ok_all(Observed::Running));
        assert_eq!(t, vec![Action::QueryState, Action::RuntimeQuery(q), Action::Finish(Outcome::Queried)]);
        let t = drive(c, ok_all(Observed::Stopped));
        assert_eq!(t, vec![Action::QueryState, Action::Finish(Outcome::NotStarted)]);
    }
}
