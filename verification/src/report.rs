//! The outcome of a check: pass, or fail with optional remediation detail.
//!
//! [`Report`] is generic over the shape of the payload a failure carries.
//! The two instantiations used by this crate are [`Report<WithDetails>`],
//! returned by every individual check, and [`Report<NoDetails>`], returned
//! by the aggregate whose own verdict intentionally discards which check
//! failed.

use vstd::prelude::*;

verus! {

/// One remediation item: a short instruction describing how to fix a failing
/// check, with optional supporting text.
#[derive(Debug, PartialEq, Eq)]
pub struct Remedy {
    pub instruction: String,
    pub note: Option<String>,
}

/// Mathematical model of a [`Remedy`]: its texts as character sequences.
pub struct RemedyV {
    pub instruction: Seq<char>,
    pub note: Option<Seq<char>>,
}

impl View for Remedy {
    type V = RemedyV;

    open spec fn view(&self) -> RemedyV {
        RemedyV { instruction: self.instruction.deep_view(), note: self.note.deep_view() }
    }
}

impl DeepView for Remedy {
    type V = RemedyV;

    open spec fn deep_view(&self) -> RemedyV {
        self.view()
    }
}

impl Clone for Remedy {
    /// A cloned remediation item carries the same texts.
    fn clone(&self) -> (r: Self)
        ensures
            r@ == self@,
    {
        Remedy {
            instruction: self.instruction.clone(),
            note: match &self.note {
                Some(s) => Some(s.clone()),
                None => None,
            },
        }
    }
}

/// Failure payload that explains nothing: the variant alone is the verdict.
#[derive(Debug, Clone, Copy, PartialEq, Eq)]
pub struct NoDetails;

/// Failure payload carrying zero or more remediation items.
#[derive(Debug, PartialEq, Eq)]
pub struct WithDetails {
    pub remedies: Vec<Remedy>,
}

impl Clone for WithDetails {
    /// A cloned payload carries the same remediation items.
    fn clone(&self) -> (r: Self)
        ensures
            r.remedies.deep_view() == self.remedies.deep_view(),
    {
        let r = WithDetails { remedies: self.remedies.clone() };
        proof {
            assert(r.remedies.deep_view() =~= self.remedies.deep_view());
        }
        r
    }
}

/// A check's outcome: `Pass` carries nothing, `Fail` carries a payload of
/// type `D` describing (or, for [`NoDetails`], declining to describe) what
/// went wrong.
#[derive(Debug, PartialEq, Eq)]
pub enum Report<D> {
    Pass,
    Fail(D),
}

/// Mathematical model of a report, shared by both payload shapes: a failure
/// is modelled by the sequence of remediation items it carries, empty for a
/// payload that carries none.
pub enum ReportV {
    Pass,
    Fail(Seq<RemedyV>),
}

impl View for Report<WithDetails> {
    type V = ReportV;

    open spec fn view(&self) -> ReportV {
        match self {
            Report::Pass => ReportV::Pass,
            Report::Fail(d) => ReportV::Fail(d.remedies.deep_view()),
        }
    }
}

impl View for Report<NoDetails> {
    type V = ReportV;

    open spec fn view(&self) -> ReportV {
        match self {
            Report::Pass => ReportV::Pass,
            Report::Fail(_) => ReportV::Fail(Seq::empty()),
        }
    }
}

impl ReportV {
    /// The binary verdict of a modelled report.
    pub open spec fn is_pass(self) -> bool {
        self is Pass
    }

    /// Lossy projection of a modelled report: the verdict survives, the
    /// remediation items do not.
    pub open spec fn without_details(self) -> ReportV {
        if self is Pass {
            ReportV::Pass
        } else {
            ReportV::Fail(Seq::empty())
        }
    }

    /// The remediation items a modelled report carries: empty for a pass.
    pub open spec fn details_of(self) -> Seq<RemedyV> {
        match self {
            ReportV::Pass => Seq::empty(),
            ReportV::Fail(rs) => rs,
        }
    }
}

impl<D> Report<D> {
    /// Whether this report is a pass.
    pub fn is_pass(&self) -> (b: bool)
        ensures
            b == (self is Pass),
    {
        matches!(self, Report::Pass)
    }

    /// Lossy projection: keeps the pass/fail verdict, discards the payload.
    pub fn without_details(&self) -> (r: Report<NoDetails>)
        ensures
            self is Pass ==> r == Report::<NoDetails>::Pass,
            self is Fail ==> r == Report::<NoDetails>::Fail(NoDetails),
    {
        match self {
            Report::Pass => Report::Pass,
            Report::Fail(_) => Report::Fail(NoDetails),
        }
    }
}

impl Report<WithDetails> {
    /// The remediation items this report carries: empty for a pass.
    pub fn details(&self) -> (r: Vec<Remedy>)
        ensures
            r.deep_view() == self@.details_of(),
    {
        match self {
            Report::Pass => {
                let r: Vec<Remedy> = Vec::new();
                proof {
                    assert(r.deep_view() =~= Seq::<RemedyV>::empty());
                }
                r
            },
            Report::Fail(d) => d.clone().remedies,
        }
    }
}

impl Report<NoDetails> {
    /// The remediation items this report carries: none in either variant,
    /// since this payload shape materializes no detail.
    pub fn details(&self) -> (r: Vec<Remedy>)
        ensures
            r.deep_view() == self@.details_of(),
    {
        let r: Vec<Remedy> = Vec::new();
        proof {
            assert(r.deep_view() =~= Seq::<RemedyV>::empty());
        }
        r
    }
}

/// Two passing reports agree, whatever payload shape each was instantiated
/// with: their models are the same, and so are their projections to the
/// undetailed shape. This is what lets the aggregate compare a detailed
/// leaf report against an "all is well" sentinel without inspecting detail
/// content.
pub proof fn lemma_pass_reports_agree(a: Report<WithDetails>, b: Report<NoDetails>)
    requires
        a is Pass,
        b is Pass,
    ensures
        a@ == b@,
        a@.without_details() == b@.without_details(),
{
}

} // verus!
