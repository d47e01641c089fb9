//! The configuration of one run, as parsed from the command line.

use vstd::prelude::*;

verus! {

/// The inputs of one invocation. `group` names the log group to query;
/// `region` and `profile_name` override the default region and credential
/// profile when present; `verbose` enables diagnostic printing; `namespace`,
/// when present, enables metric emission under that namespace.
pub struct RunConfig {
    pub region: Option<String>,
    pub group: String,
    pub verbose: bool,
    pub profile_name: Option<String>,
    pub namespace: Option<String>,
}

impl RunConfig {
    /// Whether this run submits metrics: exactly when a namespace was
    /// supplied. With the namespace flag absent no metric submission
    /// happens under any input.
    pub fn metrics_enabled(&self) -> (b: bool)
        ensures
            b == (self.namespace is Some),
    {
        match &self.namespace {
            Some(_) => true,
            None => false,
        }
    }
}

} // verus!
