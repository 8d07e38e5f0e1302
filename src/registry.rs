//! How answers of the service-control manager are read by the orchestrator.

use vstd::prelude::*;
use crate::lifecycle::{Observed, Outcome};

verus! {

/// The operating-system error code for "the specified service does not exist".
pub const SERVICE_DOES_NOT_EXIST: i32 = 1060;

/// The state of a registered service as the manager reports it.
#[derive(Clone, Copy, Debug, PartialEq, Eq, Structural)]
pub enum ServiceState {
    Stopped,
    StartPending,
    StopPending,
    Running,
    ContinuePending,
    PausePending,
    Paused,
}

/// A failed registry query: the operating-system error code, when there is one.
#[derive(Clone, Copy, Debug, PartialEq, Eq, Structural)]
pub struct RegistryFailure {
    pub os_code: Option<i32>,
}

/// The state the orchestrator sees for a registry query result. Only the
/// "service does not exist" code means unregistered; every other failure is an
/// access error, and every state but stopped and running is transitional.
pub open spec fn observed_of(r: Result<ServiceState, RegistryFailure>) -> Observed {
    match r {
        Ok(ServiceState::Stopped) => Observed::Stopped,
        Ok(ServiceState::Running) => Observed::Running,
        Ok(_) => Observed::Transitional,
        Err(f) => if f.os_code == Some(SERVICE_DOES_NOT_EXIST) {
            Observed::Unregistered
        } else {
            Observed::Unreachable
        },
    }
}

/// Reads a registry query result as an observed state.
pub fn observe(r: Result<ServiceState, RegistryFailure>) -> (o: Observed)
    ensures
        o == observed_of(r),
{
    match r {
        Ok(ServiceState::Stopped) => Observed::Stopped,
        Ok(ServiceState::Running) => Observed::Running,
        Ok(_) => Observed::Transitional,
        Err(f) => match f.os_code {
            Some(code) => if code == SERVICE_DOES_NOT_EXIST {
                Observed::Unregistered
            } else {
                Observed::Unreachable
            },
            None => Observed::Unreachable,
        },
    }
}

/// How the registered service is started.
#[derive(Clone, Copy, Debug, PartialEq, Eq, Structural)]
pub enum StartType {
    /// Started by the system at boot.
    Automatic,
    /// Started only when asked.
    OnDemand,
}

/// The start type chosen by the `auto` flag.
pub fn start_type(auto: bool) -> (r: StartType)
    ensures
        r == (if auto { StartType::Automatic } else { StartType::OnDemand }),
{
    if auto {
        StartType::Automatic
    } else {
        StartType::OnDemand
    }
}

/// Outcomes that report a failure, for which an operator diagnostic is emitted.
pub open spec fn failure(o: Outcome) -> bool {
    match o {
        Outcome::ElevationRequired | Outcome::RegistryAccessError | Outcome::AlreadyRegistered
        | Outcome::MissingDependency | Outcome::NotADirectory | Outcome::InstallFailed
        | Outcome::ConfigInvalid | Outcome::AlreadyRunning | Outcome::NotStopped | Outcome::StartFailed
        | Outcome::EngineFailed | Outcome::NotStarted | Outcome::StopFailed | Outcome::UninstallFailed
        | Outcome::NotRegistered | Outcome::ReconfigureFailed => true,
        _ => false,
    }
}

impl Outcome {
    /// Whether the outcome reports a failure.
    pub fn is_failure(&self) -> (r: bool)
        ensures
            r == failure(*self),
    {
        match self {
            Outcome::ElevationRequired | Outcome::RegistryAccessError | Outcome::AlreadyRegistered
            | Outcome::MissingDependency | Outcome::NotADirectory | Outcome::InstallFailed
            | Outcome::ConfigInvalid | Outcome::AlreadyRunning | Outcome::NotStopped
            | Outcome::StartFailed | Outcome::EngineFailed | Outcome::NotStarted | Outcome::StopFailed
            | Outcome::UninstallFailed | Outcome::NotRegistered | Outcome::ReconfigureFailed => true,
            _ => false,
        }
    }
}

} // verus!
