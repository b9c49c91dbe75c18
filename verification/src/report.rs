//! What a detector hands to the reporter.

use crate::text::{lines_view, row_view};
use crate::utils::{finding_view, Finding, FindingView};
use vstd::prelude::*;

verus! {

/// One thing to report, in the order in which it was found.
pub enum Report {
    /// A block of lines that a channel detector worded.
    Lines(Vec<String>),
    /// A report of the command-line analyzer.
    Finding(Finding),
    /// A warning that stands for a finding that could not be made.
    Warning(String),
    /// A diagnostic for a record that could not be decoded.
    Alert(String),
}

/// A report as plain values.
pub enum ReportView {
    Lines(Seq<Seq<char>>),
    Finding(FindingView),
    Warning(Seq<char>),
    Alert(Seq<char>),
}

impl View for Report {
    type V = ReportView;

    open spec fn view(&self) -> ReportView {
        match *self {
            Report::Lines(lines) => ReportView::Lines(row_view(lines@)),
            Report::Finding(finding) => ReportView::Finding(finding@),
            Report::Warning(text) => ReportView::Warning(text@),
            Report::Alert(text) => ReportView::Alert(text@),
        }
    }
}

/// The views of a list of reports.
pub open spec fn reports_view(reports: Seq<Report>) -> Seq<ReportView> {
    Seq::new(reports.len(), |i: int| reports[i]@)
}

/// The report of a block of lines: none where the detector does not act or
/// has nothing to say.
pub open spec fn lines_report(lines: Option<Seq<Seq<char>>>) -> Seq<ReportView> {
    match lines {
        Some(l) => if l.len() > 0 {
            seq![ReportView::Lines(l)]
        } else {
            Seq::<ReportView>::empty()
        },
        None => Seq::<ReportView>::empty(),
    }
}

/// The report of an analysis: none where nothing was found.
pub open spec fn finding_report(finding: Option<FindingView>) -> Seq<ReportView> {
    match finding {
        Some(f) => seq![ReportView::Finding(f)],
        None => Seq::<ReportView>::empty(),
    }
}

/// Adds a block of lines to `reports`, unless there is none or it is empty.
pub fn push_lines(reports: &mut Vec<Report>, lines: Option<Vec<String>>)
    ensures
        reports_view(final(reports)@) == reports_view(old(reports)@) + lines_report(
            lines_view(lines),
        ),
{
    let ghost before = reports@;
    match lines {
        Some(l) => {
            if l.len() > 0 {
                reports.push(Report::Lines(l));
                assert(reports@[before.len() as int]@ =~= ReportView::Lines(row_view(l@)));
                assert(reports_view(reports@) =~= reports_view(before) + seq![
                    ReportView::Lines(row_view(l@)),
                ]);
            } else {
                assert(reports_view(reports@) =~= reports_view(before) + Seq::<ReportView>::empty());
            }
        },
        None => {
            assert(reports_view(reports@) =~= reports_view(before) + Seq::<ReportView>::empty());
        },
    }
}

/// Adds the report of an analysis to `reports`, if there is one.
pub fn push_finding(reports: &mut Vec<Report>, finding: Option<Finding>)
    ensures
        reports_view(final(reports)@) == reports_view(old(reports)@) + finding_report(
            finding_view(finding),
        ),
{
    let ghost before = reports@;
    match finding {
        Some(f) => {
            reports.push(Report::Finding(f));
            assert(reports_view(reports@) =~= reports_view(before) + seq![ReportView::Finding(f@)]);
        },
        None => {
            assert(reports_view(reports@) =~= reports_view(before) + Seq::<ReportView>::empty());
        },
    }
}

} // verus!
