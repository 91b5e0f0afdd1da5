//! Admission of installations: one at a time in a process.
//!
//! Two installations running at once would both write to the place where the
//! download is kept.  One lock serves a whole process: an installation begins only
//! after it has acquired the lock.

use vstd::prelude::*;

verus! {

/// The flag that tells whether an installation is under way.
#[derive(Debug)]
pub struct InstallLock {
    held: bool,
}

impl View for InstallLock {
    type V = bool;

    /// Whether an installation is under way.
    closed spec fn view(&self) -> bool {
        self.held
    }
}

impl InstallLock {
    /// A lock that nobody holds.
    pub fn new() -> (lock: InstallLock)
        ensures
            !lock@,
    {
        InstallLock { held: false }
    }

    /// Whether an installation is under way.
    pub fn is_held(&self) -> (held: bool)
        ensures
            held == self@,
    {
        self.held
    }

    /// Asks for admission.  The caller is admitted exactly when no installation is
    /// under way; from then on one is.
    pub fn try_acquire(&mut self) -> (admitted: bool)
        ensures
            admitted == !old(self)@,
            final(self)@,
    {
        let admitted = !self.held;
        self.held = true;
        admitted
    }

    /// Reports that the installation that was admitted is over.
    pub fn release(&mut self)
        ensures
            !final(self)@,
    {
        self.held = false;
    }
}

} // verus!
