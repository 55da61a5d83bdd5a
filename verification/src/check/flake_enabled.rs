//! Check: the flakes experimental feature is enabled.

use vstd::prelude::*;
use crate::check::list_contains;
use crate::info::NixInfo;
use crate::info::NixInfoV;
use crate::report::Remedy;
use crate::report::RemedyV;
use crate::report::Report;
use crate::report::ReportV;
use crate::report::WithDetails;
use crate::traits::Check;
use vstd::string::StringExecFns;

verus! {

/// The experimental feature this check looks for.
pub open spec fn flakes_feature() -> Seq<char> {
    "flakes"@
}

/// The feature list a snapshot resolves to: the declared list, or the
/// tool's default of no experimental features where none is declared.
pub open spec fn resolved_features(info: NixInfoV) -> Seq<Seq<char>> {
    match info.experimental_features {
        Some(features) => features,
        None => Seq::empty(),
    }
}

/// Whether a snapshot satisfies the flakes policy.
pub open spec fn flakes_policy(info: NixInfoV) -> bool {
    resolved_features(info).contains(flakes_feature())
}

/// Checks that the `flakes` experimental feature is enabled.
#[derive(Debug, PartialEq, Eq)]
pub struct FlakeEnabled {
    /// The resolved experimental-feature names extracted from the snapshot.
    pub features: Vec<String>,
}

impl View for FlakeEnabled {
    type V = Seq<Seq<char>>;

    open spec fn view(&self) -> Seq<Seq<char>> {
        self.features.deep_view()
    }
}

impl Clone for FlakeEnabled {
    /// A cloned check carries the same feature list.
    fn clone(&self) -> (r: Self)
        ensures
            r@ == self@,
    {
        let r = FlakeEnabled { features: self.features.clone() };
        proof {
            assert(r@ =~= self@);
        }
        r
    }
}

impl FlakeEnabled {
    /// The check's predicate over its stored state.
    pub open spec fn passes(self) -> bool {
        self@.contains(flakes_feature())
    }

    /// The remediation item a failing check carries.
    pub open spec fn spec_remedy(self) -> RemedyV {
        RemedyV {
            instruction: "Add flakes to experimental-features in nix.conf"@,
            note: Some("The flakes feature is not enabled"@),
        }
    }

    /// The self-description this check renders.
    pub open spec fn spec_describe(self) -> Seq<char> {
        if self.passes() {
            "flakes is enabled"@
        } else {
            "flakes is disabled"@
        }
    }

    /// Human-readable description of the state this check extracted.
    pub fn describe(&self) -> (s: String)
        ensures
            s@ == self.spec_describe(),
    {
        let flakes = String::from_str("flakes");
        if list_contains(&self.features, &flakes) {
            String::from_str("flakes is enabled")
        } else {
            String::from_str("flakes is disabled")
        }
    }
}

impl Check for FlakeEnabled {
    type Report = Report<WithDetails>;

    open spec fn spec_name(&self) -> Seq<char> {
        "Flakes Enabled"@
    }

    open spec fn spec_report(&self) -> ReportV {
        if self.passes() {
            ReportV::Pass
        } else {
            ReportV::Fail(seq![self.spec_remedy()])
        }
    }

    fn check(info: &NixInfo) -> (s: Self)
        ensures
            s@ == resolved_features(info@),
    {
        let features: Vec<String> = match &info.experimental_features {
            Some(features) => features.clone(),
            None => Vec::new(),
        };
        let s = FlakeEnabled { features };
        proof {
            assert(s@ =~= resolved_features(info@));
        }
        s
    }

    fn name(&self) -> (n: &'static str) {
        "Flakes Enabled"
    }

    fn report(&self) -> (r: Report<WithDetails>) {
        let flakes = String::from_str("flakes");
        if list_contains(&self.features, &flakes) {
            Report::Pass
        } else {
            let remedy = Remedy {
                instruction: String::from_str("Add flakes to experimental-features in nix.conf"),
                note: Some(String::from_str("The flakes feature is not enabled")),
            };
            let mut remedies: Vec<Remedy> = Vec::new();
            remedies.push(remedy);
            let r = Report::Fail(WithDetails { remedies });
            proof {
                assert(r@->Fail_0 =~= seq![self.spec_remedy()]);
            }
            r
        }
    }
}

} // verus!
