//! Policy artifacts: what the configuration store keeps for each package and
//! for each ordered pair of packages. The governor reads them; it never
//! interprets the store's own encoding.

use vstd::prelude::*;

verus! {

/// How strictly a package is managed once it leaves the foreground.
#[derive(Clone, Copy, Debug, PartialEq, Eq, Structural)]
pub enum ManagementPolicy {
    Unspecified,
    Unrestricted,
    StrictBackground,
}

/// How a package is frozen.
#[derive(Clone, Copy, Debug, PartialEq, Eq, Structural)]
pub enum FreezeMode {
    ModeUnspecified,
    ModeSigstop,
    ModeKill,
    ModeHibernate,
}

/// How readily the kernel may reclaim a package's process.
#[derive(Clone, Copy, Debug, PartialEq, Eq, Structural)]
pub enum OomPriority {
    OomUnspecified,
    OomHigh,
    OomNormal,
    OomLow,
}

/// The configuration of one package.
#[derive(Clone, Debug, PartialEq, Eq)]
pub struct AppConfig {
    pub package_name: String,
    pub policy: ManagementPolicy,
    pub freeze_mode: FreezeMode,
    pub oom_priority: OomPriority,
    pub network_policy: i32,
    pub allow_wakeup_for_push: bool,
    pub allow_autostart: bool,
}

/// Whether `source_package` may launch `target_package`.
#[derive(Clone, Debug, PartialEq, Eq)]
pub struct LaunchRule {
    pub source_package: String,
    pub target_package: String,
    pub allowed: bool,
}

/// A failed read or write of the configuration store, with the store's own
/// description of what went wrong.
#[derive(Clone, Debug, PartialEq, Eq)]
pub struct StoreError {
    pub message: String,
}

/// What a read of one package's configuration gave: the configuration, no
/// entry, or a failure.
pub type ConfigLookup = Result<Option<AppConfig>, StoreError>;

/// What a read of one launch rule gave: the rule's value, no rule, or a
/// failure.
pub type RuleLookup = Result<Option<bool>, StoreError>;

/// The priority class that a lookup yields: the configured one, and the
/// unspecified class where there is no entry or the read failed.
pub open spec fn spec_configured_priority(lookup: ConfigLookup) -> OomPriority {
    match lookup {
        Ok(Some(config)) => config.oom_priority,
        _ => OomPriority::OomUnspecified,
    }
}

pub fn configured_priority(lookup: &ConfigLookup) -> (priority: OomPriority)
    ensures
        priority == spec_configured_priority(*lookup),
{
    match lookup {
        Ok(Some(config)) => config.oom_priority,
        _ => OomPriority::OomUnspecified,
    }
}

} // verus!
