use vstd::prelude::*;

verus! {

/// The handle through which the process's environment is read.
pub struct Env {}

impl Env {
    /// A handle on the environment.
    pub fn new() -> Self {
        Env {  }
    }
}

/// The handle through which a source is fetched.
pub struct Reqwest {}

impl Reqwest {
    /// A handle for fetching.
    pub fn new() -> Self {
        Self {  }
    }
}

} // verus!
