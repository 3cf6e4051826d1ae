//! Diagnostics in the form that `codespan_reporting` renders.
//!
//! The analysis works on records of its own. This module turns them into the
//! records of `codespan_reporting`, whose builder functions it calls. Verus
//! does not look into those functions: what is stated of them here is taken
//! on trust, and everything else in this module is proved from it.

use crate::ast::{clone_names, names_view};
use crate::semantic_analysis::diagnostics::{
    diagnostics_view, markers_view, Finding, FindingView, Marker, MarkerStyle, MarkerView,
    Severity,
};
use std::ops::Range;
use vstd::prelude::*;

verus! {

/// The label type of `codespan_reporting`. Nothing inside a value of it is
/// visible to proofs; what it holds is spoken of through [`label_content`].
#[verifier::external_type_specification]
#[verifier::external_body]
#[verifier::reject_recursive_types(FileId)]
pub struct ExReportLabel<FileId>(codespan_reporting::diagnostic::Label<FileId>);

/// The diagnostic type of `codespan_reporting`. Nothing inside a value of it
/// is visible to proofs; what it holds is spoken of through [`report_content`].
#[verifier::external_type_specification]
#[verifier::external_body]
#[verifier::reject_recursive_types(FileId)]
pub struct ExReport<FileId>(codespan_reporting::diagnostic::Diagnostic<FileId>);

/// What a `codespan_reporting` diagnostic holds.
pub ghost struct ReportView {
    /// Whether its severity is `Severity::Error`.
    pub is_error: bool,
    pub code: Option<Seq<char>>,
    pub message: Seq<char>,
    pub labels: Seq<MarkerView>,
    pub notes: Seq<Seq<char>>,
}

/// What a `codespan_reporting` label holds: the values of its four public fields.
pub uninterp spec fn label_content(l: codespan_reporting::diagnostic::Label<usize>) -> MarkerView;

/// What a `codespan_reporting` diagnostic holds: the values of its five public fields.
pub uninterp spec fn report_content(
    d: codespan_reporting::diagnostic::Diagnostic<usize>,
) -> ReportView;

/// What each of a sequence of `codespan_reporting` labels holds, in order.
pub open spec fn label_contents(
    labels: Seq<codespan_reporting::diagnostic::Label<usize>>,
) -> Seq<MarkerView> {
    Seq::new(labels.len(), |i: int| label_content(labels[i]))
}

/// What each of a sequence of `codespan_reporting` diagnostics holds, in order.
pub open spec fn report_contents(
    reports: Seq<codespan_reporting::diagnostic::Diagnostic<usize>>,
) -> Seq<ReportView> {
    Seq::new(reports.len(), |i: int| report_content(reports[i]))
}

/// Calls `Label::primary`. Trusted: the label it makes has the primary style,
/// the given file and range, and an empty message.
#[verifier::external_body]
pub(crate) fn primary_label(file_id: usize, range: Range<usize>) -> (l:
    codespan_reporting::diagnostic::Label<usize>)
    ensures
        label_content(l) == (MarkerView {
            style: MarkerStyle::Primary,
            file_id,
            range,
            message: Seq::empty(),
        }),
{
    codespan_reporting::diagnostic::Label::primary(file_id, range)
}

/// Calls `Label::secondary`. Trusted: the label it makes has the secondary
/// style, the given file and range, and an empty message.
#[verifier::external_body]
pub(crate) fn secondary_label(file_id: usize, range: Range<usize>) -> (l:
    codespan_reporting::diagnostic::Label<usize>)
    ensures
        label_content(l) == (MarkerView {
            style: MarkerStyle::Secondary,
            file_id,
            range,
            message: Seq::empty(),
        }),
{
    codespan_reporting::diagnostic::Label::secondary(file_id, range)
}

/// Calls `Label::with_message`. Trusted: it replaces the message and keeps the rest.
#[verifier::external_body]
pub(crate) fn label_with_message(l: codespan_reporting::diagnostic::Label<usize>, message: String) -> (r:
    codespan_reporting::diagnostic::Label<usize>)
    ensures
        label_content(r) == (MarkerView { message: message@, ..label_content(l) }),
{
    l.with_message(message)
}

/// Calls `Diagnostic::error`. Trusted: the diagnostic it makes has the
/// severity `Error`, no code, an empty message, no labels and no notes.
#[verifier::external_body]
pub(crate) fn error_report() -> (d: codespan_reporting::diagnostic::Diagnostic<usize>)
    ensures
        report_content(d) == (ReportView {
            is_error: true,
            code: None,
            message: Seq::empty(),
            labels: Seq::empty(),
            notes: Seq::empty(),
        }),
{
    codespan_reporting::diagnostic::Diagnostic::error()
}

/// Calls `Diagnostic::with_message`. Trusted: it replaces the message and keeps the rest.
#[verifier::external_body]
pub(crate) fn report_with_message(d: codespan_reporting::diagnostic::Diagnostic<usize>, message: String) -> (r:
    codespan_reporting::diagnostic::Diagnostic<usize>)
    ensures
        report_content(r) == (ReportView { message: message@, ..report_content(d) }),
{
    d.with_message(message)
}

/// Calls `Diagnostic::with_labels`. Trusted: it appends the given labels to
/// those the diagnostic has, in order, and keeps the rest.
#[verifier::external_body]
pub(crate) fn report_with_labels(
    d: codespan_reporting::diagnostic::Diagnostic<usize>,
    labels: Vec<codespan_reporting::diagnostic::Label<usize>>,
) -> (r: codespan_reporting::diagnostic::Diagnostic<usize>)
    ensures
        report_content(r) == (ReportView {
            labels: report_content(d).labels + label_contents(labels@),
            ..report_content(d)
        }),
{
    d.with_labels(labels)
}

/// Calls `Diagnostic::with_notes`. Trusted: it appends the given notes to
/// those the diagnostic has, in order, and keeps the rest.
#[verifier::external_body]
pub(crate) fn report_with_notes(d: codespan_reporting::diagnostic::Diagnostic<usize>, notes: Vec<String>) -> (r:
    codespan_reporting::diagnostic::Diagnostic<usize>)
    ensures
        report_content(r) == (ReportView {
            notes: report_content(d).notes + names_view(notes@),
            ..report_content(d)
        }),
{
    d.with_notes(notes)
}

/// What the report of a diagnostic holds: all of the diagnostic but its kind,
/// and no code.
pub open spec fn report_of(d: FindingView) -> ReportView {
    ReportView {
        is_error: d.severity == Severity::Error,
        code: None,
        message: d.message,
        labels: d.labels,
        notes: d.notes,
    }
}

/// What the reports of a sequence of diagnostics hold, in order.
pub open spec fn reports_of(diagnostics: Seq<FindingView>) -> Seq<ReportView> {
    Seq::new(diagnostics.len(), |i: int| report_of(diagnostics[i]))
}

impl Marker {
    /// This label as a label of `codespan_reporting`.
    pub fn to_report(&self) -> (l: codespan_reporting::diagnostic::Label<usize>)
        ensures
            label_content(l) == self@,
    {
        let range = Range { start: self.range.start, end: self.range.end };
        let bare = match self.style {
            MarkerStyle::Primary => primary_label(self.file_id, range),
            MarkerStyle::Secondary => secondary_label(self.file_id, range),
        };
        label_with_message(bare, self.message.clone())
    }
}

impl Finding {
    /// This diagnostic as a diagnostic of `codespan_reporting`.
    pub fn to_report(&self) -> (r: codespan_reporting::diagnostic::Diagnostic<usize>)
        ensures
            report_content(r) == report_of(self@),
    {
        let mut labels: Vec<codespan_reporting::diagnostic::Label<usize>> = Vec::new();
        let mut i: usize = 0;
        while i < self.labels.len()
            invariant
                i <= self.labels.len(),
                labels.len() == i,
                forall|j: int| 0 <= j < i ==> label_content(labels[j]) == self.labels[j]@,
            decreases self.labels.len() - i,
        {
            labels.push(self.labels[i].to_report());
            i += 1;
        }
        assert(label_contents(labels@) =~= markers_view(self.labels@));
        let notes = clone_names(&self.notes);
        let r = match self.severity {
            Severity::Error => error_report(),
        };
        let r = report_with_message(r, self.message.clone());
        let r = report_with_labels(r, labels);
        let r = report_with_notes(r, notes);
        assert(report_content(r).labels =~= self@.labels);
        assert(report_content(r).notes =~= self@.notes);
        r
    }
}

/// The given diagnostics as diagnostics of `codespan_reporting`, in order.
pub fn to_reports(diagnostics: &Vec<Finding>) -> (reports: Vec<
    codespan_reporting::diagnostic::Diagnostic<usize>,
>)
    ensures
        report_contents(reports@) == reports_of(diagnostics_view(diagnostics@)),
{
    let mut reports: Vec<codespan_reporting::diagnostic::Diagnostic<usize>> = Vec::new();
    let mut i: usize = 0;
    while i < diagnostics.len()
        invariant
            i <= diagnostics.len(),
            reports.len() == i,
            forall|j: int| 0 <= j < i ==> report_content(reports[j]) == report_of(diagnostics[j]@),
        decreases diagnostics.len() - i,
    {
        reports.push(diagnostics[i].to_report());
        i += 1;
    }
    assert(report_contents(reports@) =~= reports_of(diagnostics_view(diagnostics@)));
    reports
}

} // verus!
