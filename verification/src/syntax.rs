//! Syntax errors, as the parser hands them over, and how each is reported.

use crate::report::{
    error_report, label_with_message, primary_label, report_content, report_with_labels,
    report_with_message, ReportView,
};
use crate::semantic_analysis::diagnostics::{MarkerStyle, MarkerView};
use std::ops::Range;
use vstd::prelude::*;
use vstd::string::*;

verus! {

/// A syntax error: what went wrong, where, and what the parser would have accepted.
#[derive(Debug, PartialEq)]
pub enum SyntaxError {
    /// No token begins at the given offset.
    InvalidToken { location: usize },
    /// The input goes on after the program has ended.
    ExtraToken { start: usize, end: usize },
    /// The input ends where one of the expected tokens should stand.
    UnrecognizedEof { location: usize, expected: Vec<String> },
    /// A token stands where one of the expected tokens should stand.
    UnrecognizedToken { start: usize, end: usize, expected: Vec<String> },
}

/// Mathematical model of a [`SyntaxError`].
pub ghost enum SyntaxErrorView {
    InvalidToken { location: usize },
    ExtraToken { start: usize, end: usize },
    UnrecognizedEof { location: usize, expected: Seq<Seq<char>> },
    UnrecognizedToken { start: usize, end: usize, expected: Seq<Seq<char>> },
}

impl View for SyntaxError {
    type V = SyntaxErrorView;

    open spec fn view(&self) -> SyntaxErrorView {
        match self {
            SyntaxError::InvalidToken { location } => SyntaxErrorView::InvalidToken {
                location: *location,
            },
            SyntaxError::ExtraToken { start, end } => SyntaxErrorView::ExtraToken {
                start: *start,
                end: *end,
            },
            SyntaxError::UnrecognizedEof { location, expected } => SyntaxErrorView::UnrecognizedEof {
                location: *location,
                expected: crate::ast::names_view(expected@),
            },
            SyntaxError::UnrecognizedToken {
                start,
                end,
                expected,
            } => SyntaxErrorView::UnrecognizedToken {
                start: *start,
                end: *end,
                expected: crate::ast::names_view(expected@),
            },
        }
    }
}

/// The first `n` of the items, written one after the other with `", "` between them.
pub open spec fn listed(items: Seq<Seq<char>>, n: nat) -> Seq<char>
    decreases n,
{
    if n == 0 || n > items.len() {
        Seq::empty()
    } else if n == 1 {
        items[0]
    } else {
        listed(items, (n - 1) as nat) + ", "@ + items[n - 1]
    }
}

/// The wording for the tokens that the parser would have accepted.
pub open spec fn expectation(expected: Seq<Seq<char>>) -> Seq<char> {
    "Expected one of: "@ + listed(expected, expected.len())
}

/// What the report of a syntax error holds: a message that names the error,
/// and one primary label at its place, with the expected tokens where the
/// parser gives them.
pub open spec fn syntax_report(e: SyntaxErrorView) -> ReportView {
    let (message, range, detail) = match e {
        SyntaxErrorView::InvalidToken { location } => (
            "Invalid token"@,
            Range { start: location, end: location },
            "Invalid token"@,
        ),
        SyntaxErrorView::ExtraToken { start, end } => (
            "Extra token"@,
            Range { start, end },
            "Extra token"@,
        ),
        SyntaxErrorView::UnrecognizedEof { location, expected } => (
            "Unexpected end of file"@,
            Range { start: location, end: location },
            expectation(expected),
        ),
        SyntaxErrorView::UnrecognizedToken { start, end, expected } => (
            "Unrecognized token"@,
            Range { start, end },
            expectation(expected),
        ),
    };
    ReportView {
        is_error: true,
        code: None,
        message,
        labels: seq![
            MarkerView { style: MarkerStyle::Primary, file_id: 0, range, message: detail },
        ],
        notes: Seq::empty(),
    }
}

/// Writes the wording for the tokens that the parser would have accepted.
pub fn expectation_text(expected: &Vec<String>) -> (text: String)
    ensures
        text@ == expectation(crate::ast::names_view(expected@)),
{
    let ghost names = crate::ast::names_view(expected@);
    let mut list = String::new();
    let mut i: usize = 0;
    while i < expected.len()
        invariant
            i <= expected.len(),
            names == crate::ast::names_view(expected@),
            list@ == listed(names, i as nat),
        decreases expected.len() - i,
    {
        if i > 0 {
            list.append(", ");
        }
        list.append(expected[i].as_str());
        assert(list@ =~= listed(names, (i + 1) as nat));
        i += 1;
    }
    let mut text = String::from_str("Expected one of: ");
    text.append(list.as_str());
    text
}

/// The report of a syntax error, as a diagnostic of `codespan_reporting`.
pub fn syntax_error_report(e: &SyntaxError) -> (r: codespan_reporting::diagnostic::Diagnostic<
    usize,
>)
    ensures
        report_content(r) == syntax_report(e@),
{
    let report = error_report();
    let (report, label) = match e {
        SyntaxError::InvalidToken { location } => (
            report_with_message(report, String::from_str("Invalid token")),
            label_with_message(
                primary_label(0, Range { start: *location, end: *location }),
                String::from_str("Invalid token"),
            ),
        ),
        SyntaxError::ExtraToken { start, end } => (
            report_with_message(report, String::from_str("Extra token")),
            label_with_message(
                primary_label(0, Range { start: *start, end: *end }),
                String::from_str("Extra token"),
            ),
        ),
        SyntaxError::UnrecognizedEof { location, expected } => (
            report_with_message(report, String::from_str("Unexpected end of file")),
            label_with_message(
                primary_label(0, Range { start: *location, end: *location }),
                expectation_text(expected),
            ),
        ),
        SyntaxError::UnrecognizedToken { start, end, expected } => (
            report_with_message(report, String::from_str("Unrecognized token")),
            label_with_message(
                primary_label(0, Range { start: *start, end: *end }),
                expectation_text(expected),
            ),
        ),
    };
    let mut labels: Vec<codespan_reporting::diagnostic::Label<usize>> = Vec::new();
    labels.push(label);
    let r = report_with_labels(report, labels);
    assert(report_content(r).labels =~= syntax_report(e@).labels);
    r
}

/// The reports of the given syntax errors, in order.
pub fn syntax_error_reports(errors: &Vec<SyntaxError>) -> (reports: Vec<
    codespan_reporting::diagnostic::Diagnostic<usize>,
>)
    ensures
        reports.len() == errors.len(),
        forall|i: int|
            0 <= i < errors.len() ==> report_content(#[trigger] reports[i]) == syntax_report(
                errors[i]@,
            ),
{
    let mut reports: Vec<codespan_reporting::diagnostic::Diagnostic<usize>> = Vec::new();
    let mut i: usize = 0;
    while i < errors.len()
        invariant
            i <= errors.len(),
            reports.len() == i,
            forall|j: int|
                0 <= j < i ==> report_content(#[trigger] reports[j]) == syntax_report(errors[j]@),
        decreases errors.len() - i,
    {
        reports.push(syntax_error_report(&errors[i]));
        i += 1;
    }
    reports
}

} // verus!
