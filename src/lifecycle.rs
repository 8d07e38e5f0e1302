//! The lifecycle orchestrator as a machine from session state and event to next
//! state and action.
//!
//! A driver starts a session for one command with [`Session::begin`], performs the
//! action it is given, and hands the result back to [`Session::step`] as an
//! [`Event`], until the action is [`Action::Finish`] with the outcome to report.

use vstd::prelude::*;

verus! {

/// Polls of the service state allowed while waiting for it to stop before deletion.
pub const STOP_POLLS: u8 = 5;

/// A user command.
#[derive(Clone, Copy, Debug, PartialEq, Eq, Structural)]
pub enum Command {
    Install { auto: bool },
    Uninstall,
    Start,
    Stop,
    Reconfigure { auto: bool },
    Route,
    List { all: bool },
    Status,
}

/// A runtime query answered by the running engine.
#[derive(Clone, Copy, Debug, PartialEq, Eq, Structural)]
pub enum Query {
    Route,
    List,
    ListAll,
    Status,
}

/// The service state as the registry reports it.
#[derive(Clone, Copy, Debug, PartialEq, Eq, Structural)]
pub enum Observed {
    /// The registry answers that no such service exists.
    Unregistered,
    Stopped,
    Running,
    /// Start or stop pending, or paused.
    Transitional,
    /// The manager is unreachable, access was denied, or another registry error.
    Unreachable,
}

/// What the driver reports back after performing an action.
#[derive(Clone, Copy, Debug, PartialEq, Eq, Structural)]
pub enum Event {
    /// Whether the process runs with administrative rights.
    Elevation(bool),
    /// The state read from the registry.
    State(Observed),
    /// Whether the action succeeded.
    Done(bool),
}

/// The one outcome reported at the end of a command.
#[derive(Clone, Copy, Debug, PartialEq, Eq, Structural)]
pub enum Outcome {
    ElevationRequired,
    RegistryAccessError,
    AlreadyRegistered,
    MissingDependency,
    NotADirectory,
    InstallFailed,
    Installed,
    ConfigInvalid,
    AlreadyRunning,
    NotStopped,
    Started,
    StartFailed,
    EngineFailed,
    NotStarted,
    Stopped,
    StopFailed,
    AlreadyAbsent,
    Uninstalled,
    UninstallFailed,
    NotRegistered,
    Reconfigured,
    ReconfigureFailed,
    Queried,
}

/// What the driver must do next.
#[derive(Clone, Copy, Debug, PartialEq, Eq, Structural)]
pub enum Action {
    /// Read the elevation of the process token.
    CheckElevation,
    /// Query the registry for the service state.
    QueryState,
    /// Bind an ephemeral socket so that the firewall asks for permission.
    AllowFirewall,
    /// Build the engine configuration from the file or the arguments.
    ResolveConfig,
    /// Look for the companion artifact in the working directory.
    CheckArtifact,
    /// Create the install directory if needed and check that it is a directory.
    PrepareDirectory,
    /// Copy the executable and the companion artifact into the install directory.
    CopyFiles,
    /// Create the registration with the given start type.
    CreateRegistration { auto: bool },
    /// Rewrite the registration with the given start type, keeping its launch command.
    UpdateRegistration { auto: bool },
    /// Ask the registry to start the service.
    RequestStart,
    /// Ask the registry to stop the service.
    RequestStop,
    /// Wait a moment, then query the registry for the service state.
    WaitForStop,
    /// Delete the registration.
    DeleteRegistration,
    /// Try, without blocking, to take the singleton lock.
    AcquireLock,
    /// Run the engine in this process until it ends.
    RunEngine,
    /// Release the singleton lock.
    ReleaseLock,
    /// Ask the running engine a query.
    RuntimeQuery(Query),
    /// Report the outcome; the session is over.
    Finish(Outcome),
}

/// Where a session stands: which action it is waiting on.
#[derive(Clone, Copy, Debug, PartialEq, Eq, Structural)]
pub enum Phase {
    Elevation,
    Firewall,
    Config,
    State,
    Artifact,
    Directory,
    Copy,
    Create,
    Update,
    Start,
    Stop,
    StopForDelete,
    Poll { left: u8 },
    Delete,
    Lock,
    Engine,
    Release { engine_ok: bool },
    Query,
    Done { outcome: Outcome },
}

/// One command in progress.
#[derive(Clone, Copy, Debug, PartialEq, Eq, Structural)]
pub struct Session {
    pub command: Command,
    pub phase: Phase,
}

/// Commands that change the system and so need administrative rights.
pub open spec fn is_mutating(c: Command) -> bool {
    !(c is Route || c is List || c is Status)
}

/// The query that a query-only command asks the engine.
pub open spec fn query_of(c: Command) -> Query {
    match c {
        Command::Route => Query::Route,
        Command::List { all } => if all { Query::ListAll } else { Query::List },
        _ => Query::Status,
    }
}

/// The session and action that a command starts with.
pub open spec fn opening(c: Command) -> (Session, Action) {
    if is_mutating(c) {
        (Session { command: c, phase: Phase::Elevation }, Action::CheckElevation)
    } else {
        (Session { command: c, phase: Phase::State }, Action::QueryState)
    }
}

/// Ends command `c` with outcome `o`.
pub open spec fn finish(c: Command, o: Outcome) -> (Session, Action) {
    (Session { command: c, phase: Phase::Done { outcome: o } }, Action::Finish(o))
}

/// Moves command `c` to phase `p`, asking for action `a`.
pub open spec fn go(c: Command, p: Phase, a: Action) -> (Session, Action) {
    (Session { command: c, phase: p }, a)
}

/// What a command does once the registry has reported the service state `o`.
pub open spec fn on_state(c: Command, o: Observed) -> (Session, Action) {
    if o is Unreachable {
        finish(c, Outcome::RegistryAccessError)
    } else {
        match c {
            Command::Install { auto } => if o is Unregistered {
                go(c, Phase::Artifact, Action::CheckArtifact)
            } else {
                finish(c, Outcome::AlreadyRegistered)
            },
            Command::Start => if o is Unregistered {
                go(c, Phase::Lock, Action::AcquireLock)
            } else if o is Stopped {
                go(c, Phase::Start, Action::RequestStart)
            } else {
                finish(c, Outcome::NotStopped)
            },
            Command::Stop => if o is Running {
                go(c, Phase::Stop, Action::RequestStop)
            } else {
                finish(c, Outcome::NotStarted)
            },
            Command::Uninstall => if o is Unregistered {
                finish(c, Outcome::AlreadyAbsent)
            } else if o is Stopped {
                go(c, Phase::Delete, Action::DeleteRegistration)
            } else {
                go(c, Phase::StopForDelete, Action::RequestStop)
            },
            Command::Reconfigure { auto } => if o is Unregistered {
                finish(c, Outcome::NotRegistered)
            } else {
                go(c, Phase::Update, Action::UpdateRegistration { auto })
            },
            _ => if o is Running {
                go(c, Phase::Query, Action::RuntimeQuery(query_of(c)))
            } else {
                finish(c, Outcome::NotStarted)
            },
        }
    }
}

/// Goes on to `p` and `a` when the last action succeeded, else ends with `o`.
pub open spec fn on_done(c: Command, e: Event, p: Phase, a: Action, o: Outcome) -> (Session, Action) {
    if e == Event::Done(true) {
        go(c, p, a)
    } else {
        finish(c, o)
    }
}

/// The transition table: the next session state and action after event `e`.
pub open spec fn next(s: Session, e: Event) -> (Session, Action) {
    let c = s.command;
    match s.phase {
        Phase::Elevation => if e == Event::Elevation(true) {
            if c is Start {
                go(c, Phase::Firewall, Action::AllowFirewall)
            } else {
                go(c, Phase::State, Action::QueryState)
            }
        } else {
            finish(c, Outcome::ElevationRequired)
        },
        Phase::Firewall => go(c, Phase::Config, Action::ResolveConfig),
        Phase::Config => on_done(c, e, Phase::State, Action::QueryState, Outcome::ConfigInvalid),
        Phase::State => match e {
            Event::State(o) => on_state(c, o),
            _ => finish(c, Outcome::RegistryAccessError),
        },
        Phase::Artifact => on_done(c, e, Phase::Directory, Action::PrepareDirectory, Outcome::MissingDependency),
        Phase::Directory => on_done(c, e, Phase::Copy, Action::CopyFiles, Outcome::NotADirectory),
        Phase::Copy => match c {
            Command::Install { auto } => on_done(
                c,
                e,
                Phase::Create,
                Action::CreateRegistration { auto },
                Outcome::InstallFailed,
            ),
            _ => finish(c, Outcome::InstallFailed),
        },
        Phase::Create => if e == Event::Done(true) {
            finish(c, Outcome::Installed)
        } else {
            finish(c, Outcome::InstallFailed)
        },
        Phase::Update => if e == Event::Done(true) {
            finish(c, Outcome::Reconfigured)
        } else {
            finish(c, Outcome::ReconfigureFailed)
        },
        Phase::Start => if e == Event::Done(true) {
            finish(c, Outcome::Started)
        } else {
            finish(c, Outcome::StartFailed)
        },
        Phase::Stop => if e == Event::Done(true) {
            finish(c, Outcome::Stopped)
        } else {
            finish(c, Outcome::StopFailed)
        },
        Phase::StopForDelete => on_done(
            c,
            e,
            Phase::Poll { left: STOP_POLLS },
            Action::WaitForStop,
            Outcome::UninstallFailed,
        ),
        Phase::Poll { left } => if e == Event::State(Observed::Stopped) {
            go(c, Phase::Delete, Action::DeleteRegistration)
        } else if left > 1 {
            go(c, Phase::Poll { left: (left - 1) as u8 }, Action::WaitForStop)
        } else {
            finish(c, Outcome::UninstallFailed)
        },
        Phase::Delete => if e == Event::Done(true) {
            finish(c, Outcome::Uninstalled)
        } else {
            finish(c, Outcome::UninstallFailed)
        },
        Phase::Lock => on_done(c, e, Phase::Engine, Action::RunEngine, Outcome::AlreadyRunning),
        Phase::Engine => go(c, Phase::Release { engine_ok: e == Event::Done(true) }, Action::ReleaseLock),
        Phase::Release { engine_ok } => if engine_ok {
            finish(c, Outcome::Started)
        } else {
            finish(c, Outcome::EngineFailed)
        },
        Phase::Query => finish(c, Outcome::Queried),
        Phase::Done { outcome } => finish(c, outcome),
    }
}

impl Command {
    /// Whether the command changes the system.
    pub fn is_mutating(&self) -> (r: bool)
        ensures
            r == is_mutating(*self),
    {
        match self {
            Command::Route | Command::List { .. } | Command::Status => false,
            _ => true,
        }
    }

    /// The query that a query-only command asks the engine.
    pub fn query(&self) -> (r: Query)
        ensures
            r == query_of(*self),
    {
        match self {
            Command::Route => Query::Route,
            Command::List { all } => if *all {
                Query::ListAll
            } else {
                Query::List
            },
            _ => Query::Status,
        }
    }
}

fn finished(c: Command, o: Outcome) -> (r: (Session, Action))
    ensures
        r == finish(c, o),
{
    (Session { command: c, phase: Phase::Done { outcome: o } }, Action::Finish(o))
}

fn done_or(c: Command, e: Event, p: Phase, a: Action, o: Outcome) -> (r: (Session, Action))
    ensures
        r == on_done(c, e, p, a, o),
{
    if e == Event::Done(true) {
        (Session { command: c, phase: p }, a)
    } else {
        finished(c, o)
    }
}

fn state_reported(c: Command, o: Observed) -> (r: (Session, Action))
    ensures
        r == on_state(c, o),
{
    if o == Observed::Unreachable {
        return finished(c, Outcome::RegistryAccessError);
    }
    match c {
        Command::Install { .. } => if o == Observed::Unregistered {
            (Session { command: c, phase: Phase::Artifact }, Action::CheckArtifact)
        } else {
            finished(c, Outcome::AlreadyRegistered)
        },
        Command::Start => if o == Observed::Unregistered {
            (Session { command: c, phase: Phase::Lock }, Action::AcquireLock)
        } else if o == Observed::Stopped {
            (Session { command: c, phase: Phase::Start }, Action::RequestStart)
        } else {
            finished(c, Outcome::NotStopped)
        },
        Command::Stop => if o == Observed::Running {
            (Session { command: c, phase: Phase::Stop }, Action::RequestStop)
        } else {
            finished(c, Outcome::NotStarted)
        },
        Command::Uninstall => if o == Observed::Unregistered {
            finished(c, Outcome::AlreadyAbsent)
        } else if o == Observed::Stopped {
            (Session { command: c, phase: Phase::Delete }, Action::DeleteRegistration)
        } else {
            (Session { command: c, phase: Phase::StopForDelete }, Action::RequestStop)
        },
        Command::Reconfigure { auto } => if o == Observed::Unregistered {
            finished(c, Outcome::NotRegistered)
        } else {
            (Session { command: c, phase: Phase::Update }, Action::UpdateRegistration { auto })
        },
        _ => if o == Observed::Running {
            (Session { command: c, phase: Phase::Query }, Action::RuntimeQuery(c.query()))
        } else {
            finished(c, Outcome::NotStarted)
        },
    }
}

impl Session {
    /// Starts a session for command `c`: mutating commands first check
    /// elevation, query-only commands first query the service state.
    pub fn begin(c: Command) -> (r: (Session, Action))
        ensures
            r == opening(c),
    {
        if c.is_mutating() {
            (Session { command: c, phase: Phase::Elevation }, Action::CheckElevation)
        } else {
            (Session { command: c, phase: Phase::State }, Action::QueryState)
        }
    }

    /// Whether the session has reported its outcome.
    pub fn is_done(&self) -> (r: bool)
        ensures
            r == (self.phase is Done),
    {
        match self.phase {
            Phase::Done { .. } => true,
            _ => false,
        }
    }

    /// Takes the result of the last action and returns the next action.
    pub fn step(&mut self, e: Event) -> (r: Action)
        ensures
            (*final(self), r) == next(*old(self), e),
    {
        let c = self.command;
        let (s, a) = match self.phase {
            Phase::Elevation => if e == Event::Elevation(true) {
                if c == Command::Start {
                    (Session { command: c, phase: Phase::Firewall }, Action::AllowFirewall)
                } else {
                    (Session { command: c, phase: Phase::State }, Action::QueryState)
                }
            } else {
                finished(c, Outcome::ElevationRequired)
            },
            Phase::Firewall => (Session { command: c, phase: Phase::Config }, Action::ResolveConfig),
            Phase::Config => done_or(c, e, Phase::State, Action::QueryState, Outcome::ConfigInvalid),
            Phase::State => match e {
                Event::State(o) => state_reported(c, o),
                _ => finished(c, Outcome::RegistryAccessError),
            },
            Phase::Artifact => done_or(c, e, Phase::Directory, Action::PrepareDirectory, Outcome::MissingDependency),
            Phase::Directory => done_or(c, e, Phase::Copy, Action::CopyFiles, Outcome::NotADirectory),
            Phase::Copy => match c {
                Command::Install { auto } => done_or(
                    c,
                    e,
                    Phase::Create,
                    Action::CreateRegistration { auto },
                    Outcome::InstallFailed,
                ),
                _ => finished(c, Outcome::InstallFailed),
            },
            Phase::Create => if e == Event::Done(true) {
                finished(c, Outcome::Installed)
            } else {
                finished(c, Outcome::InstallFailed)
            },
            Phase::Update => if e == Event::Done(true) {
                finished(c, Outcome::Reconfigured)
            } else {
                finished(c, Outcome::ReconfigureFailed)
            },
            Phase::Start => if e == Event::Done(true) {
                finished(c, Outcome::Started)
            } else {
                finished(c, Outcome::StartFailed)
            },
            Phase::Stop => if e == Event::Done(true) {
                finished(c, Outcome::Stopped)
            } else {
                finished(c, Outcome::StopFailed)
            },
            Phase::StopForDelete => done_or(
                c,
                e,
                Phase::Poll { left: STOP_POLLS },
                Action::WaitForStop,
                Outcome::UninstallFailed,
            ),
            Phase::Poll { left } => if e == Event::State(Observed::Stopped) {
                (Session { command: c, phase: Phase::Delete }, Action::DeleteRegistration)
            } else if left > 1 {
                (Session { command: c, phase: Phase::Poll { left: left - 1 } }, Action::WaitForStop)
            } else {
                finished(c, Outcome::UninstallFailed)
            },
            Phase::Delete => if e == Event::Done(true) {
                finished(c, Outcome::Uninstalled)
            } else {
                finished(c, Outcome::UninstallFailed)
            },
            Phase::Lock => done_or(c, e, Phase::Engine, Action::RunEngine, Outcome::AlreadyRunning),
            Phase::Engine => (
                Session { command: c, phase: Phase::Release { engine_ok: e == Event::Done(true) } },
                Action::ReleaseLock,
            ),
            Phase::Release { engine_ok } => if engine_ok {
                finished(c, Outcome::Started)
            } else {
                finished(c, Outcome::EngineFailed)
            },
            Phase::Query => finished(c, Outcome::Queried),
            Phase::Done { outcome } => finished(c, outcome),
        };
        *self = s;
        a
    }
}

} // verus!
