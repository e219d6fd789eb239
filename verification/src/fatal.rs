//! Fatal conditions and process exit statuses.
//!
//! Failure is terminal for the whole process: nothing is retried or
//! recovered in-process, and an external supervisor is expected to
//! restart the server. Every component that detects an unrecoverable
//! condition maps it to one value of [`FatalCondition`], and the exit
//! status is decided in one place.

use vstd::prelude::*;

use crate::config::ConfigError;
use crate::watchdog::WatchdogVerdict;

verus! {

/// Every condition on which the whole program terminates, over both
/// phases: startup and supervised runtime.
#[derive(Debug)]
pub enum FatalCondition {
    /// A required environment variable is missing.
    ConfigMissing,
    /// An environment variable is present but not usable.
    ConfigInvalid,
    /// The segment directory does not exist or is inaccessible.
    TempDirInaccessible,
    /// The external transcoder could not be spawned.
    SpawnFailed,
    /// The HTTP server loop failed.
    ServerFailed,
    /// The transcoder process exited, or polling it failed.
    TranscoderDied,
    /// The segment directory could not be listed during a health check.
    HealthcheckFailed,
    /// The transcoder is alive but produced no new fragments over the
    /// grace period.
    Stalled,
}

/// A condition detected before or while bringing the server up, as
/// opposed to one detected by the supervisor or watchdog at runtime.
pub open spec fn is_startup_condition(c: FatalCondition) -> bool {
    ||| c is ConfigMissing
    ||| c is ConfigInvalid
    ||| c is TempDirInaccessible
    ||| c is SpawnFailed
    ||| c is ServerFailed
}

/// The process exit status for a fatal condition: 1 for configuration
/// and startup failures, 2 for every fatal runtime condition the
/// supervisor or watchdog detects.
pub fn exit_code(c: &FatalCondition) -> (r: i32)
    ensures
        is_startup_condition(*c) ==> r == 1,
        !is_startup_condition(*c) ==> r == 2,
{
    match c {
        FatalCondition::ConfigMissing => 1,
        FatalCondition::ConfigInvalid => 1,
        FatalCondition::TempDirInaccessible => 1,
        FatalCondition::SpawnFailed => 1,
        FatalCondition::ServerFailed => 1,
        FatalCondition::TranscoderDied => 2,
        FatalCondition::HealthcheckFailed => 2,
        FatalCondition::Stalled => 2,
    }
}

/// The fatal condition a watchdog verdict escalates to, or `None` for
/// the one verdict that keeps the loop running.
pub fn verdict_condition(v: &WatchdogVerdict) -> (r: Option<FatalCondition>)
    ensures
        v is Monitoring <==> r is None,
        v is TranscoderDied ==> r == Some(FatalCondition::TranscoderDied),
        v is HealthcheckFailed ==> r == Some(FatalCondition::HealthcheckFailed),
        v is Stalled ==> r == Some(FatalCondition::Stalled),
{
    match v {
        WatchdogVerdict::TranscoderDied => Some(FatalCondition::TranscoderDied),
        WatchdogVerdict::HealthcheckFailed => Some(FatalCondition::HealthcheckFailed),
        WatchdogVerdict::Stalled => Some(FatalCondition::Stalled),
        WatchdogVerdict::Monitoring => None,
    }
}

/// The fatal condition a configuration error escalates to.
pub fn config_error_condition(e: &ConfigError) -> (r: FatalCondition)
    ensures
        e is MissingVar ==> r is ConfigMissing,
        e is InvalidVar ==> r is ConfigInvalid,
{
    match e {
        ConfigError::MissingVar(_) => FatalCondition::ConfigMissing,
        ConfigError::InvalidVar(_) => FatalCondition::ConfigInvalid,
    }
}

} // verus!
