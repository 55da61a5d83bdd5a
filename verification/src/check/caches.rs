//! Check: the required binary cache is among the configured substituters.

use vstd::prelude::*;
use crate::check::list_contains;
use crate::decimal::dec_seq;
use crate::decimal::u64_to_dec;
use crate::info::NixInfo;
use crate::info::NixInfoV;
use crate::report::Remedy;
use crate::report::RemedyV;
use crate::report::Report;
use crate::report::ReportV;
use crate::report::WithDetails;
use crate::traits::Check;
use vstd::string::StringExecFns;

verus! {

/// The cache URL the policy requires among the substituters.
pub open spec fn required_cache_url() -> Seq<char> {
    "https://cache.nixos.org"@
}

/// The required cache URL as a string.
pub fn required_cache() -> (r: &'static str)
    ensures
        r@ == required_cache_url(),
{
    "https://cache.nixos.org"
}

/// The substituter list a snapshot resolves to: the declared list, or the
/// tool's default of the required cache alone where none is declared.
pub open spec fn resolved_substituters(info: NixInfoV) -> Seq<Seq<char>> {
    match info.substituters {
        Some(urls) => urls,
        None => seq![required_cache_url()],
    }
}

/// Whether a snapshot satisfies the cache policy.
pub open spec fn caches_policy(info: NixInfoV) -> bool {
    resolved_substituters(info).contains(required_cache_url())
}

/// Checks that the required binary cache is configured as a substituter.
#[derive(Debug, PartialEq, Eq)]
pub struct Caches {
    /// The resolved substituter URLs extracted from the snapshot.
    pub substituters: Vec<String>,
}

impl View for Caches {
    type V = Seq<Seq<char>>;

    open spec fn view(&self) -> Seq<Seq<char>> {
        self.substituters.deep_view()
    }
}

impl Clone for Caches {
    /// A cloned check carries the same substituter list.
    fn clone(&self) -> (r: Self)
        ensures
            r@ == self@,
    {
        let r = Caches { substituters: self.substituters.clone() };
        proof {
            assert(r@ =~= self@);
        }
        r
    }
}

impl Caches {
    /// The check's predicate over its stored state.
    pub open spec fn passes(self) -> bool {
        self@.contains(required_cache_url())
    }

    /// The remediation item a failing check carries.
    pub open spec fn spec_remedy(self) -> RemedyV {
        RemedyV {
            instruction: "Add https://cache.nixos.org to the substituters in nix.conf"@,
            note: None,
        }
    }

    /// The self-description this check renders.
    pub open spec fn spec_describe(self) -> Seq<char> {
        dec_seq(self.substituters.len() as u64) + " substituters configured"@
    }

    /// Human-readable description of the state this check extracted.
    pub fn describe(&self) -> (s: String)
        ensures
            s@ == self.spec_describe(),
    {
        let mut s = u64_to_dec(self.substituters.len() as u64);
        s.append(" substituters configured");
        s
    }
}

impl Check for Caches {
    type Report = Report<WithDetails>;

    open spec fn spec_name(&self) -> Seq<char> {
        "Nix Caches"@
    }

    open spec fn spec_report(&self) -> ReportV {
        if self.passes() {
            ReportV::Pass
        } else {
            ReportV::Fail(seq![self.spec_remedy()])
        }
    }

    fn check(info: &NixInfo) -> (s: Self)
        ensures
            s@ == resolved_substituters(info@),
    {
        let substituters: Vec<String> = match &info.substituters {
            Some(urls) => urls.clone(),
            None => {
                let mut v: Vec<String> = Vec::new();
                v.push(String::from_str(required_cache()));
                v
            },
        };
        let s = Caches { substituters };
        proof {
            assert(s@ =~= resolved_substituters(info@));
        }
        s
    }

    fn name(&self) -> (n: &'static str) {
        "Nix Caches"
    }

    fn report(&self) -> (r: Report<WithDetails>) {
        let required = String::from_str(required_cache());
        if list_contains(&self.substituters, &required) {
            Report::Pass
        } else {
            let remedy = Remedy {
                instruction: String::from_str(
                    "Add https://cache.nixos.org to the substituters in nix.conf",
                ),
                note: None,
            };
            let mut remedies: Vec<Remedy> = Vec::new();
            remedies.push(remedy);
            let r = Report::Fail(WithDetails { remedies });
            proof {
                assert(r@->Fail_0 =~= seq![self.spec_remedy()]);
            }
            r
        }
    }
}

} // verus!
