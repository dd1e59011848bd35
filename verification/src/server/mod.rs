//! The web front end.

use vstd::prelude::*;

verus! {

/// The web front end of the service. It has no settings of its own.
#[derive(Debug, Clone, Copy, PartialEq, Eq, Structural)]
pub struct Server {}

impl Server {
    /// The front end for the given settings.
    pub fn new(_conf: &crate::Config) -> (s: Self)
        ensures
            s == (Server {  }),
    {
        Self {  }
    }
}

} // verus!
