//! Adding a new device to an OECloud@Home installation.

use vstd::prelude::*;

verus! {

/// Adds a new node to the cluster.
pub struct Add {
    /// IP address of the new node.
    pub ip: String,
}

impl Add {
    /// Adding a node has nothing to do yet, and succeeds.
    pub fn process(&self) -> (r: Result<(), String>)
        ensures
            r is Ok,
    {
        Ok(())
    }
}

} // verus!
