//! The system-information snapshot that every check reads from.
//!
//! A snapshot is an immutable capture of the configuration values the checks
//! care about, produced once per run by an external collaborator. A field
//! that the collaborator could not find in the system's configuration is
//! `None`; each check resolves such an absence to the tool's hard-coded
//! default before applying its pass/fail predicate.

use vstd::prelude::*;

verus! {

/// Point-in-time capture of the managed system's relevant configuration.
pub struct NixInfo {
    /// The configured `max-jobs` setting, if the snapshot declares one.
    pub max_jobs: Option<u64>,
    /// The configured list of binary-cache (substituter) URLs, if declared.
    pub substituters: Option<Vec<String>>,
    /// The configured list of experimental features, if declared.
    pub experimental_features: Option<Vec<String>>,
}

/// Mathematical model of a snapshot: the same fields with strings as
/// character sequences.
pub struct NixInfoV {
    pub max_jobs: Option<u64>,
    pub substituters: Option<Seq<Seq<char>>>,
    pub experimental_features: Option<Seq<Seq<char>>>,
}

impl View for NixInfo {
    type V = NixInfoV;

    open spec fn view(&self) -> NixInfoV {
        NixInfoV {
            max_jobs: self.max_jobs,
            substituters: self.substituters.deep_view(),
            experimental_features: self.experimental_features.deep_view(),
        }
    }
}

} // verus!
