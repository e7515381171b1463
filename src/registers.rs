//! The two shared words as plain memory: what a driver's accesses do to them
//! when nobody else touches them between two accesses.
use vstd::prelude::*;
use crate::channel::Access;

verus! {

/// The to-host and from-host words.
#[derive(Clone, Copy, Debug, PartialEq, Eq, Structural)]
pub struct RegisterPair {
    /// Guest to host; zero when idle.
    pub tohost: u64,
    /// Host to guest; zero when idle.
    pub fromhost: u64,
}

impl RegisterPair {
    /// Both words idle.
    pub fn new() -> (r: RegisterPair)
        ensures
            r.tohost == 0,
            r.fromhost == 0,
    {
        RegisterPair { tohost: 0, fromhost: 0 }
    }

    /// The words after `access`, and the value it reads (zero for a write).
    pub open spec fn after(self, access: Access) -> (RegisterPair, u64) {
        match access {
            Access::ReadToHost => (self, self.tohost),
            Access::WriteToHost(w) => (RegisterPair { tohost: w, ..self }, 0),
            Access::ReadFromHost => (self, self.fromhost),
            Access::WriteFromHost(w) => (RegisterPair { fromhost: w, ..self }, 0),
        }
    }

    /// Performs one access and returns what it read (zero for a write).
    pub fn perform(&mut self, access: Access) -> (r: u64)
        ensures
            (*final(self), r) == old(self).after(access),
    {
        match access {
            Access::ReadToHost => self.tohost,
            Access::WriteToHost(w) => {
                self.tohost = w;
                0
            },
            Access::ReadFromHost => self.fromhost,
            Access::WriteFromHost(w) => {
                self.fromhost = w;
                0
            },
        }
    }
}

} // verus!
