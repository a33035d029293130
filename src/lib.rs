/// Reuse of one provider client per target domain.
pub mod client_cache;
/// The targets and settings that the daemon runs on, and their checks.
pub mod config;
/// The machine's actual address and the published one.
pub mod ip_utils;
/// One polling tick per target, as a state machine.
pub mod reconcile;
/// Reading and writing the authoritative address record.
pub mod route53;
/// Error messages with a context label.
pub mod utils;
