//! The server adapters.
use vstd::prelude::*;

verus! {

/// An adapter for `deno`.
#[derive(Debug, Clone, Copy, PartialEq, Eq, Structural)]
pub struct HashiraDeno;

impl HashiraDeno {
    /// Constructs a default hashira adapter.
    pub fn new() -> (r: HashiraDeno)
        ensures
            r == HashiraDeno,
    {
        HashiraDeno
    }
}

} // verus!
