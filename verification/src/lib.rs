//! Health checks for a Nix installation.
//!
//! A snapshot of the system's configuration ([`NixInfo`]) flows into
//! [`NixHealth::check`], which constructs one instance of every individual
//! check from that same snapshot. The aggregate can then be iterated
//! ([`NixHealth::leaves`]) to yield each check uniformly, or queried for a
//! single rolled-up verdict through the [`Check`] capability: the aggregate
//! passes exactly when every individual check passes, and a failing
//! aggregate intentionally reports without detail — which check failed is
//! recovered by iterating the leaves and inspecting each one's own report.

use vstd::prelude::*;

mod check;
mod decimal;
mod info;
mod report;
mod traits;

pub use crate::check::caches::Caches;
pub use crate::check::caches::caches_policy;
pub use crate::check::caches::required_cache;
pub use crate::check::caches::required_cache_url;
pub use crate::check::caches::resolved_substituters;
pub use crate::check::flake_enabled::FlakeEnabled;
pub use crate::check::flake_enabled::flakes_feature;
pub use crate::check::flake_enabled::flakes_policy;
pub use crate::check::flake_enabled::resolved_features;
pub use crate::check::max_jobs::DEFAULT_MAX_JOBS;
pub use crate::check::max_jobs::MIN_RECOMMENDED_JOBS;
pub use crate::check::max_jobs::MaxJobs;
pub use crate::check::max_jobs::max_jobs_policy;
pub use crate::check::max_jobs::resolved_max_jobs;
pub use crate::decimal::dec_seq;
pub use crate::decimal::u64_to_dec;
pub use crate::info::NixInfo;
pub use crate::info::NixInfoV;
pub use crate::report::NoDetails;
pub use crate::report::Remedy;
pub use crate::report::RemedyV;
pub use crate::report::Report;
pub use crate::report::ReportV;
pub use crate::report::WithDetails;
pub use crate::report::lemma_pass_reports_agree;
pub use crate::traits::Check;

verus! {

/// Nix health check information for the user's install.
///
/// Each field is one individual check satisfying the [`Check`] capability;
/// the aggregate owns exactly one instance of every check and satisfies the
/// capability itself, reporting the bare verdict.
#[derive(Debug, PartialEq, Eq)]
pub struct NixHealth {
    pub max_jobs: MaxJobs,
    pub caches: Caches,
    pub flake_enabled: FlakeEnabled,
}

impl Clone for NixHealth {
    /// A cloned aggregate carries the same extracted state.
    fn clone(&self) -> (r: Self)
        ensures
            r.max_jobs == self.max_jobs,
            r.caches@ == self.caches@,
            r.flake_enabled@ == self.flake_enabled@,
    {
        NixHealth {
            max_jobs: self.max_jobs,
            caches: self.caches.clone(),
            flake_enabled: self.flake_enabled.clone(),
        }
    }
}

/// One owned check, as a uniformly typed handle: the shape iteration yields,
/// so that code operating over heterogeneous check types needs to know only
/// this sum.
#[derive(Debug, PartialEq, Eq)]
pub enum LeafCheck {
    MaxJobs(MaxJobs),
    Caches(Caches),
    FlakeEnabled(FlakeEnabled),
}

impl LeafCheck {
    /// The wrapped check's predicate.
    pub open spec fn spec_passes(self) -> bool {
        match self {
            LeafCheck::MaxJobs(c) => c.passes(),
            LeafCheck::Caches(c) => c.passes(),
            LeafCheck::FlakeEnabled(c) => c.passes(),
        }
    }

    /// The wrapped check's name.
    pub open spec fn spec_name(self) -> Seq<char> {
        match self {
            LeafCheck::MaxJobs(c) => c.spec_name(),
            LeafCheck::Caches(c) => c.spec_name(),
            LeafCheck::FlakeEnabled(c) => c.spec_name(),
        }
    }

    /// The wrapped check's report.
    pub open spec fn spec_report(self) -> ReportV {
        match self {
            LeafCheck::MaxJobs(c) => c.spec_report(),
            LeafCheck::Caches(c) => c.spec_report(),
            LeafCheck::FlakeEnabled(c) => c.spec_report(),
        }
    }

    /// The wrapped check's self-description.
    pub open spec fn spec_describe(self) -> Seq<char> {
        match self {
            LeafCheck::MaxJobs(c) => c.spec_describe(),
            LeafCheck::Caches(c) => c.spec_describe(),
            LeafCheck::FlakeEnabled(c) => c.spec_describe(),
        }
    }

    /// Stable name of the wrapped check.
    pub fn name(&self) -> (n: &'static str)
        ensures
            n@ == self.spec_name(),
    {
        match self {
            LeafCheck::MaxJobs(c) => c.name(),
            LeafCheck::Caches(c) => c.name(),
            LeafCheck::FlakeEnabled(c) => c.name(),
        }
    }

    /// Detailed report of the wrapped check.
    pub fn report(&self) -> (r: Report<WithDetails>)
        ensures
            r@ == self.spec_report(),
            r is Pass <==> self.spec_passes(),
    {
        match self {
            LeafCheck::MaxJobs(c) => c.report(),
            LeafCheck::Caches(c) => c.report(),
            LeafCheck::FlakeEnabled(c) => c.report(),
        }
    }

    /// Human-readable description of the wrapped check's extracted state.
    pub fn describe(&self) -> (s: String)
        ensures
            s@ == self.spec_describe(),
    {
        match self {
            LeafCheck::MaxJobs(c) => c.describe(),
            LeafCheck::Caches(c) => c.describe(),
            LeafCheck::FlakeEnabled(c) => c.describe(),
        }
    }
}

impl NixHealth {
    /// Whether every owned check passes.
    pub open spec fn all_leaves_pass(self) -> bool {
        self.max_jobs.passes() && self.caches.passes() && self.flake_enabled.passes()
    }

    /// Yield each owned check as a uniformly typed handle, in the fixed
    /// order the checks are declared: max-jobs, then caches, then flakes.
    /// The order and the yielded states are pinned, so repeated calls on
    /// the same aggregate yield the same sequence.
    pub fn leaves(&self) -> (v: Vec<LeafCheck>)
        ensures
            v@.len() == 3,
            v@[0] matches LeafCheck::MaxJobs(m) && m == self.max_jobs,
            v@[1] matches LeafCheck::Caches(c) && c@ == self.caches@,
            v@[2] matches LeafCheck::FlakeEnabled(f) && f@ == self.flake_enabled@,
    {
        let mut v: Vec<LeafCheck> = Vec::new();
        v.push(LeafCheck::MaxJobs(self.max_jobs));
        v.push(LeafCheck::Caches(self.caches.clone()));
        v.push(LeafCheck::FlakeEnabled(self.flake_enabled.clone()));
        v
    }
}

impl Check for NixHealth {
    type Report = Report<NoDetails>;

    open spec fn spec_name(&self) -> Seq<char> {
        "Nix Health"@
    }

    /// The aggregate's rolled-up report: pass exactly when every owned
    /// check passes, and otherwise a failure that carries no detail.
    open spec fn spec_report(&self) -> ReportV {
        if self.all_leaves_pass() {
            ReportV::Pass
        } else {
            ReportV::Fail(Seq::empty())
        }
    }

    /// Construct every owned check from the same snapshot.
    fn check(info: &NixInfo) -> (s: Self)
        ensures
            s.max_jobs.jobs == resolved_max_jobs(info@),
            s.caches@ == resolved_substituters(info@),
            s.flake_enabled@ == resolved_features(info@),
    {
        NixHealth {
            max_jobs: MaxJobs::check(info),
            caches: Caches::check(info),
            flake_enabled: FlakeEnabled::check(info),
        }
    }

    fn name(&self) -> (n: &'static str) {
        "Nix Health"
    }

    /// Pass only if every owned check passes; a failure here does not say
    /// which check failed.
    fn report(&self) -> (r: Report<NoDetails>)
        ensures
            r is Pass <==> self.all_leaves_pass(),
    {
        let ls = self.leaves();
        let mut all_pass: bool = true;
        let mut i: usize = 0;
        while i < ls.len()
            invariant
                i <= ls@.len(),
                ls@.len() == 3,
                ls@[0] matches LeafCheck::MaxJobs(m) && m == self.max_jobs,
                ls@[1] matches LeafCheck::Caches(c) && c@ == self.caches@,
                ls@[2] matches LeafCheck::FlakeEnabled(f) && f@ == self.flake_enabled@,
                all_pass == (forall|j: int| 0 <= j < i ==> ls@[j].spec_passes()),
            decreases ls@.len() - i,
        {
            let rep = ls[i].report();
            if !rep.is_pass() {
                all_pass = false;
            }
            i += 1;
        }
        if all_pass {
            Report::Pass
        } else {
            Report::Fail(NoDetails)
        }
    }
}

/// Law: for every snapshot on which each individual check's predicate
/// holds, the aggregate constructed from that snapshot reports a pass.
pub proof fn lemma_aggregate_passes(h: NixHealth, info: NixInfoV)
    requires
        h.max_jobs.jobs == resolved_max_jobs(info),
        h.caches@ == resolved_substituters(info),
        h.flake_enabled@ == resolved_features(info),
        max_jobs_policy(info),
        caches_policy(info),
        flakes_policy(info),
    ensures
        h.spec_report() == ReportV::Pass,
{
}

/// Law: the owned checks report pairwise distinct names, so a name
/// identifies one check within the aggregate.
pub proof fn lemma_leaf_names_unique(h: NixHealth)
    ensures
        h.max_jobs.spec_name() != h.caches.spec_name(),
        h.max_jobs.spec_name() != h.flake_enabled.spec_name(),
        h.caches.spec_name() != h.flake_enabled.spec_name(),
{
    reveal_strlit("Max Jobs");
    reveal_strlit("Nix Caches");
    reveal_strlit("Flakes Enabled");
    assert(h.max_jobs.spec_name().len() == 8);
    assert(h.caches.spec_name().len() == 10);
    assert(h.flake_enabled.spec_name().len() == 14);
}

/// Law: every report in this crate is a function of the stored state alone,
/// so two aggregates whose extracted data agree field for field — such as a
/// value carried across a process boundary and rebuilt — resolve to the
/// same reports, rolled-up and per check.
pub proof fn lemma_equal_state_equal_reports(a: NixHealth, b: NixHealth)
    requires
        a.max_jobs == b.max_jobs,
        a.caches@ == b.caches@,
        a.flake_enabled@ == b.flake_enabled@,
    ensures
        a.spec_report() == b.spec_report(),
        a.max_jobs.spec_report() == b.max_jobs.spec_report(),
        a.caches.spec_report() == b.caches.spec_report(),
        a.flake_enabled.spec_report() == b.flake_enabled.spec_report(),
{
}

/// Law: for every snapshot on which at least one individual check's
/// predicate fails, the aggregate constructed from that snapshot reports a
/// failure with the no-detail payload, regardless of which or how many
/// checks failed.
pub proof fn lemma_aggregate_fails(h: NixHealth, info: NixInfoV)
    requires
        h.max_jobs.jobs == resolved_max_jobs(info),
        h.caches@ == resolved_substituters(info),
        h.flake_enabled@ == resolved_features(info),
        !(max_jobs_policy(info) && caches_policy(info) && flakes_policy(info)),
    ensures
        h.spec_report() == ReportV::Fail(Seq::<RemedyV>::empty()),
{
}

} // verus!
