//! The policy decision engine: whether a launch is allowed, and whether a
//! package is frozen as soon as it goes to the background. Both decide from
//! what the configuration store returned, and both have a defined answer
//! where the store failed.

use crate::config::{ConfigLookup, ManagementPolicy, RuleLookup};
use vstd::prelude::*;

verus! {

/// A launch is allowed unless an explicit rule forbids it: no rule and a
/// failed read both allow.
pub open spec fn spec_decide_launch(lookup: RuleLookup) -> bool {
    match lookup {
        Ok(Some(allowed)) => allowed,
        Ok(None) => true,
        Err(_) => true,
    }
}

/// A package is frozen on backgrounding only if its configuration was read
/// and names the strict-background policy.
pub open spec fn spec_decide_background_freeze(lookup: ConfigLookup) -> bool {
    match lookup {
        Ok(Some(config)) => config.policy == ManagementPolicy::StrictBackground,
        Ok(None) => false,
        Err(_) => false,
    }
}

/// Decides whether a launch is allowed, from the lookup of its rule.
pub fn decide_launch(lookup: &RuleLookup) -> (allowed: bool)
    ensures
        allowed == spec_decide_launch(*lookup),
{
    match lookup {
        Ok(Some(allowed)) => *allowed,
        Ok(None) => true,
        Err(_) => true,
    }
}

/// Decides whether a package is frozen on backgrounding, from the lookup of
/// its configuration.
pub fn decide_background_freeze(lookup: &ConfigLookup) -> (freeze: bool)
    ensures
        freeze == spec_decide_background_freeze(*lookup),
{
    match lookup {
        Ok(Some(config)) => config.policy == ManagementPolicy::StrictBackground,
        Ok(None) => false,
        Err(_) => false,
    }
}

/// The launch decision fails open: it forbids only where a stored rule says
/// so, and follows a stored rule exactly.
pub proof fn lemma_launch_fails_open(lookup: RuleLookup)
    ensures
        (lookup is Err ==> spec_decide_launch(lookup)),
        (lookup matches Ok(None) ==> spec_decide_launch(lookup)),
        (lookup matches Ok(Some(allowed)) ==> spec_decide_launch(lookup) == allowed),
{
}

/// The freeze decision fails safe: a package is frozen only under a stored
/// strict-background policy, never on a missing entry or a failed read.
pub proof fn lemma_freeze_fails_safe(lookup: ConfigLookup)
    ensures
        spec_decide_background_freeze(lookup) <==> (lookup matches Ok(Some(config))
            && config.policy == ManagementPolicy::StrictBackground),
{
}

} // verus!
