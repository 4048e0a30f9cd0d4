//! Startup-mode decisions: whether the managed service is installed or
//! removed, and when a changed configuration file triggers a restart.
use vstd::prelude::*;

use crate::config::{ConfigError, HDMConfig};
use crate::text::{parse_u64, u64_text_value};

verus! {

/// What to do with the managed service unit.
#[derive(PartialEq, Eq, Structural, Debug, Clone, Copy)]
pub enum ServiceAction {
    /// Make sure the unit is absent, removing it if it exists.
    RemoveUnit,
    /// Write the unit and enable it through the service supervisor.
    InstallAndEnable,
}

/// Decides the startup mode from a configuration.
pub struct ConfigManager;

impl ConfigManager {
    /// The action on the managed service: autologin alone, or neither
    /// mode, removes it; the managed service alone installs and enables it;
    /// both together are a contradiction that is reported, never resolved.
    pub fn service_action(config: &HDMConfig) -> (r: Result<ServiceAction, ConfigError>)
        ensures
            config.autologin && config.systemctl_usedefine ==> (r matches Err(e) && e is Conflict),
            !config.autologin && config.systemctl_usedefine ==> r == Ok::<
                ServiceAction,
                ConfigError,
            >(ServiceAction::InstallAndEnable),
            !config.systemctl_usedefine ==> r == Ok::<ServiceAction, ConfigError>(
                ServiceAction::RemoveUnit,
            ),
    {
        if config.autologin && config.systemctl_usedefine {
            Err(ConfigError::Conflict)
        } else if config.systemctl_usedefine {
            Ok(ServiceAction::InstallAndEnable)
        } else {
            Ok(ServiceAction::RemoveUnit)
        }
    }
}

/// What a reload check found.
#[derive(PartialEq, Eq, Structural, Debug, Clone, Copy)]
pub enum ReloadCheck {
    /// The configuration file does not exist: report it, restart nothing.
    ConfigMissing,
    /// The file is not newer than the last check: nothing to do.
    Unchanged,
    /// The file changed since the last check: validate it.
    Changed,
}

/// What follows the validation of a changed configuration.
#[derive(PartialEq, Eq, Structural, Debug, Clone, Copy)]
pub enum ReloadOutcome {
    /// The file is invalid: keep the marker and the running session.
    Rejected,
    /// The file is valid: persist this marker, then restart the service once.
    Restart { marker: u64 },
}

/// Detects configuration changes by modification time against the
/// persisted time of the last check.
pub struct ConfigWatcher {
    /// The modification time, in seconds since the epoch, that was last
    /// found valid.
    pub last_checked: u64,
}

/// The time of the last check that a stored marker holds: its number, or
/// 0 when it is absent or is not a number.
pub open spec fn marker_value(stored: Option<Seq<char>>) -> u64 {
    match stored {
        Some(t) => match u64_text_value(t) {
            Some(v) => v,
            None => 0,
        },
        None => 0,
    }
}

/// What a reload check finds, given the time of the last check and the
/// file's modification time (`None` when the file is missing).
pub open spec fn reload_check(last: u64, mtime: Option<u64>) -> ReloadCheck {
    match mtime {
        None => ReloadCheck::ConfigMissing,
        Some(t) => if t <= last {
            ReloadCheck::Unchanged
        } else {
            ReloadCheck::Changed
        },
    }
}

/// What follows validation of a changed file, and the time of the last
/// check afterwards.
pub open spec fn reload_outcome(last: u64, mtime: u64, valid: bool) -> (ReloadOutcome, u64) {
    if valid {
        (ReloadOutcome::Restart { marker: mtime }, mtime)
    } else {
        (ReloadOutcome::Rejected, last)
    }
}

/// The number of restarts of the managed service that a whole reload
/// check makes, and the time of the last check afterwards.
pub open spec fn reload_effect(last: u64, mtime: Option<u64>, valid: bool) -> (nat, u64) {
    match reload_check(last, mtime) {
        ReloadCheck::Changed => match reload_outcome(last, mtime->0, valid).0 {
            ReloadOutcome::Restart { .. } => (1, reload_outcome(last, mtime->0, valid).1),
            ReloadOutcome::Rejected => (0, reload_outcome(last, mtime->0, valid).1),
        },
        _ => (0, last),
    }
}

impl ConfigWatcher {
    /// The watcher for a stored marker, `None` when no marker is stored.
    pub fn from_marker(stored: Option<&str>) -> (r: ConfigWatcher)
        ensures
            r.last_checked == marker_value(
                match stored {
                    Some(t) => Some(t@),
                    None => None,
                },
            ),
    {
        let last_checked = match stored {
            Some(t) => match parse_u64(t) {
                Some(v) => v,
                None => 0,
            },
            None => 0,
        };
        ConfigWatcher { last_checked }
    }

    /// Compares the file's modification time with the last check.
    pub fn check(&self, mtime: Option<u64>) -> (r: ReloadCheck)
        ensures
            r == reload_check(self.last_checked, mtime),
    {
        match mtime {
            None => ReloadCheck::ConfigMissing,
            Some(t) => if t <= self.last_checked {
                ReloadCheck::Unchanged
            } else {
                ReloadCheck::Changed
            },
        }
    }

    /// Takes the result of validating a changed file: a valid file moves
    /// the last check to its modification time and asks for one restart;
    /// an invalid one changes nothing.
    pub fn on_validated(&mut self, mtime: u64, loaded: &Result<HDMConfig, ConfigError>) -> (r:
        ReloadOutcome)
        requires
            old(self).last_checked < mtime,
        ensures
            (r, final(self).last_checked) == reload_outcome(
                old(self).last_checked,
                mtime,
                loaded is Ok,
            ),
    {
        match loaded {
            Ok(_) => {
                self.last_checked = mtime;
                ReloadOutcome::Restart { marker: mtime }
            },
            Err(_) => ReloadOutcome::Rejected,
        }
    }
}

/// A reload check restarts nothing when the file is missing or not newer
/// than the last check, and leaves the marker; when it is newer and valid
/// it restarts exactly once and moves the marker to its modification time;
/// when it is newer and invalid it restarts nothing and leaves the marker.
pub proof fn lemma_reload_restarts(last: u64, mtime: Option<u64>, valid: bool)
    ensures
        mtime is None ==> reload_effect(last, mtime, valid) == (0nat, last),
        mtime is Some && mtime->0 <= last ==> reload_effect(last, mtime, valid) == (0nat, last),
        mtime is Some && mtime->0 > last && valid ==> reload_effect(last, mtime, valid) == (
            1nat,
            mtime->0,
        ),
        mtime is Some && mtime->0 > last && !valid ==> reload_effect(last, mtime, valid) == (
            0nat,
            last,
        ),
{
}

} // verus!
