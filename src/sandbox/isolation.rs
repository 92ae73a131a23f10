//! How strongly page processes are isolated.
use crate::error::BrowserError;
use vstd::prelude::*;

verus! {

/// Isolation strength.
#[derive(Debug, Clone, Copy, PartialEq, Eq, Structural)]
pub enum IsolationLevel {
    NoIsolation,
    Basic,
    Full,
}

/// Applies an isolation level to page processes.
pub struct ProcessIsolator {
    level: IsolationLevel,
}

impl ProcessIsolator {
    pub closed spec fn spec_level(&self) -> IsolationLevel {
        self.level
    }

    /// An isolator at `level`.
    pub fn new(level: IsolationLevel) -> (r: ProcessIsolator)
        ensures
            r.spec_level() == level,
    {
        ProcessIsolator { level }
    }

    pub fn level(&self) -> (r: IsolationLevel)
        ensures
            r == self.spec_level(),
    {
        self.level
    }

    /// Apply the isolation level; every level is accepted.
    pub fn apply(&self) -> (r: Result<(), BrowserError>)
        ensures
            r is Ok,
    {
        match self.level {
            IsolationLevel::NoIsolation => Ok(()),
            IsolationLevel::Basic => Ok(()),
            IsolationLevel::Full => Ok(()),
        }
    }
}

impl Default for ProcessIsolator {
    fn default() -> (r: ProcessIsolator)
        ensures
            r.spec_level() == IsolationLevel::Full,
    {
        ProcessIsolator::new(IsolationLevel::Full)
    }
}

} // verus!
