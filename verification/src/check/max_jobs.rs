//! Check: builds may use enough parallel jobs.

use vstd::prelude::*;
use crate::decimal::dec_seq;
use crate::decimal::u64_to_dec;
use crate::info::NixInfo;
use crate::info::NixInfoV;
use crate::report::Remedy;
use crate::report::RemedyV;
use crate::report::Report;
use crate::report::ReportV;
use crate::report::WithDetails;
use crate::traits::Check;
use vstd::string::StringExecFns;

verus! {

/// The value the tool assumes when the snapshot declares no `max-jobs`.
pub const DEFAULT_MAX_JOBS: u64 = 1;

/// The policy minimum: fewer parallel jobs than this fails the check.
pub const MIN_RECOMMENDED_JOBS: u64 = 2;

/// The `max-jobs` value a snapshot resolves to: the declared value, or the
/// tool's default where none is declared.
pub open spec fn resolved_max_jobs(info: NixInfoV) -> u64 {
    match info.max_jobs {
        Some(n) => n,
        None => DEFAULT_MAX_JOBS,
    }
}

/// Whether a snapshot satisfies the max-jobs policy.
pub open spec fn max_jobs_policy(info: NixInfoV) -> bool {
    resolved_max_jobs(info) >= MIN_RECOMMENDED_JOBS
}

/// Checks that builds may use at least [`MIN_RECOMMENDED_JOBS`] parallel
/// jobs.
#[derive(Debug, Clone, Copy, PartialEq, Eq, Structural)]
pub struct MaxJobs {
    /// The resolved `max-jobs` value extracted from the snapshot.
    pub jobs: u64,
}

impl MaxJobs {
    /// The check's predicate over its stored state.
    pub open spec fn passes(self) -> bool {
        self.jobs >= MIN_RECOMMENDED_JOBS
    }

    /// The remediation item a failing check carries.
    pub open spec fn spec_remedy(self) -> RemedyV {
        RemedyV {
            instruction: "Set max-jobs to at least 2 in nix.conf"@,
            note: Some("max-jobs is currently "@ + dec_seq(self.jobs)),
        }
    }

    /// The self-description this check renders.
    pub open spec fn spec_describe(self) -> Seq<char> {
        "max-jobs = "@ + dec_seq(self.jobs)
    }

    /// Human-readable description of the state this check extracted.
    pub fn describe(&self) -> (s: String)
        ensures
            s@ == self.spec_describe(),
    {
        let mut s = String::from_str("max-jobs = ");
        s.append(u64_to_dec(self.jobs).as_str());
        s
    }
}

impl Check for MaxJobs {
    type Report = Report<WithDetails>;

    open spec fn spec_name(&self) -> Seq<char> {
        "Max Jobs"@
    }

    open spec fn spec_report(&self) -> ReportV {
        if self.passes() {
            ReportV::Pass
        } else {
            ReportV::Fail(seq![self.spec_remedy()])
        }
    }

    fn check(info: &NixInfo) -> (s: Self)
        ensures
            s.jobs == resolved_max_jobs(info@),
    {
        let jobs: u64 = match info.max_jobs {
            Some(n) => n,
            None => DEFAULT_MAX_JOBS,
        };
        MaxJobs { jobs }
    }

    fn name(&self) -> (n: &'static str) {
        "Max Jobs"
    }

    fn report(&self) -> (r: Report<WithDetails>) {
        if self.jobs >= MIN_RECOMMENDED_JOBS {
            Report::Pass
        } else {
            let mut note = String::from_str("max-jobs is currently ");
            note.append(u64_to_dec(self.jobs).as_str());
            let remedy = Remedy {
                instruction: String::from_str("Set max-jobs to at least 2 in nix.conf"),
                note: Some(note),
            };
            let mut remedies: Vec<Remedy> = Vec::new();
            remedies.push(remedy);
            let r = Report::Fail(WithDetails { remedies });
            proof {
                assert(r@->Fail_0 =~= seq![self.spec_remedy()]);
            }
            r
        }
    }
}

} // verus!
