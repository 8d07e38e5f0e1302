//! Control plane of a privileged background service: the stored launch command
//! line of the service registration, and the per-command decision machine that
//! sequences elevation checks, registry calls, the singleton lock and the engine.

pub mod laws;
pub mod launch;
pub mod lifecycle;
pub mod registry;
