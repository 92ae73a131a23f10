//! Sandboxing: the security policy and process isolation.
use crate::error::BrowserError;
use vstd::prelude::*;

pub mod isolation;
pub mod policy;

use policy::SecurityPolicy;

verus! {

/// Holds the security policy in force.
pub struct SandboxManager {
    policy: SecurityPolicy,
}

impl SandboxManager {
    pub closed spec fn spec_policy(&self) -> SecurityPolicy {
        self.policy
    }

    /// A sandbox with the strict policy.
    pub fn new() -> (r: SandboxManager)
        ensures
            r.spec_policy().is_strict(),
    {
        SandboxManager { policy: SecurityPolicy::new() }
    }

    /// Prepare the sandbox; it always succeeds.
    pub fn initialize(&mut self) -> (r: Result<(), BrowserError>)
        ensures
            r is Ok,
            final(self).spec_policy() == old(self).spec_policy(),
    {
        Ok(())
    }

    pub fn policy(&self) -> (r: &SecurityPolicy)
        ensures
            *r == self.spec_policy(),
    {
        &self.policy
    }

    /// Put `policy` in force.
    pub fn set_policy(&mut self, policy: SecurityPolicy)
        ensures
            final(self).spec_policy() == policy,
    {
        self.policy = policy;
    }
}

impl Default for SandboxManager {
    fn default() -> (r: SandboxManager)
        ensures
            r.spec_policy().is_strict(),
    {
        SandboxManager::new()
    }
}

} // verus!
