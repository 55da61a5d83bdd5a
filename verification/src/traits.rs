//! The capability contract every health check satisfies.

use vstd::prelude::*;
use crate::info::NixInfo;
use crate::report::ReportV;

verus! {

/// A health check: constructed fresh from a snapshot on every run, immutable
/// once constructed, and queried for a stable name and a pass/fail report.
///
/// The associated type fixes the report shape the implementation returns:
/// every individual check reports with remediation details, while the
/// aggregate reports only the bare verdict. Whatever the shape, `name` and
/// `report` are pure functions of the check's stored state, pinned by the
/// two specification functions; each implementation's `check` states the
/// exact extracted state in its own contract.
pub trait Check: Sized where Self::Report: View<V = ReportV> {
    type Report;

    /// The name this check reports.
    spec fn spec_name(&self) -> Seq<char>;

    /// The report this check resolves to, as a function of its stored state.
    spec fn spec_report(&self) -> ReportV;

    /// Construct the check's state from a snapshot. Never fails: an absent
    /// configuration value is resolved to the tool's hard-coded default.
    fn check(info: &NixInfo) -> Self;

    /// Stable, human-readable identifier, unique within the aggregate.
    fn name(&self) -> (n: &'static str)
        ensures
            n@ == self.spec_name(),
    ;

    /// Evaluate the check's predicate over its stored state.
    fn report(&self) -> (r: Self::Report)
        ensures
            r@ == self.spec_report(),
    ;
}

} // verus!
