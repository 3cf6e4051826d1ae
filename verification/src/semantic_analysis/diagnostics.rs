//! Finding records: what the analysis reports, and how each report is worded.

use crate::ast::{clone_names, names_view, SourceInfo};
use std::ops::Range;
use vstd::prelude::*;
use vstd::string::*;

verus! {

/// What a diagnostic is about.
#[derive(Debug, Clone, Copy, PartialEq, Eq)]
pub enum FindingKind {
    MissingMainFunction,
    UnknownFunctionCall,
    ArityMismatch,
    UnboundIdentifier,
    TypeMismatch,
    InvalidBreakContinue,
}

/// How severe a diagnostic is. Every finding of the analysis is an error.
#[derive(Debug, Clone, Copy, PartialEq, Eq)]
pub enum Severity {
    Error,
}

/// Whether a label marks the cause of a diagnostic or gives context for it.
#[derive(Debug, Clone, Copy, PartialEq, Eq)]
pub enum MarkerStyle {
    Primary,
    Secondary,
}

/// A marked region of the source, with a message of its own.
#[derive(Debug, PartialEq)]
pub struct Marker {
    pub style: MarkerStyle,
    /// The file the region lies in. The analysis sees one file, numbered 0.
    pub file_id: usize,
    pub range: Range<usize>,
    pub message: String,
}

/// Mathematical model of a [`Marker`].
pub ghost struct MarkerView {
    pub style: MarkerStyle,
    pub file_id: usize,
    pub range: Range<usize>,
    pub message: Seq<char>,
}

impl View for Marker {
    type V = MarkerView;

    open spec fn view(&self) -> MarkerView {
        MarkerView {
            style: self.style,
            file_id: self.file_id,
            range: self.range,
            message: self.message@,
        }
    }
}

/// The models of a sequence of labels, in order.
pub open spec fn markers_view(labels: Seq<Marker>) -> Seq<MarkerView> {
    Seq::new(labels.len(), |i: int| labels[i]@)
}

/// One finding of the analysis: a diagnostic record, with its kind, its
/// message, the places in the source that it marks, and notes.
#[derive(Debug, PartialEq)]
pub struct Finding {
    pub kind: FindingKind,
    pub severity: Severity,
    pub message: String,
    pub labels: Vec<Marker>,
    pub notes: Vec<String>,
}

/// Mathematical model of a [`Finding`].
pub ghost struct FindingView {
    pub kind: FindingKind,
    pub severity: Severity,
    pub message: Seq<char>,
    pub labels: Seq<MarkerView>,
    pub notes: Seq<Seq<char>>,
}

impl View for Finding {
    type V = FindingView;

    open spec fn view(&self) -> FindingView {
        FindingView {
            kind: self.kind,
            severity: self.severity,
            message: self.message@,
            labels: markers_view(self.labels@),
            notes: names_view(self.notes@),
        }
    }
}

/// The models of a sequence of diagnostics, in order.
pub open spec fn diagnostics_view(diagnostics: Seq<Finding>) -> Seq<FindingView> {
    Seq::new(diagnostics.len(), |i: int| diagnostics[i]@)
}

/// How many of the diagnostics are of the given kind.
pub open spec fn count_kind(diagnostics: Seq<FindingView>, kind: FindingKind) -> nat
    decreases diagnostics.len(),
{
    if diagnostics.len() == 0 {
        0
    } else {
        let rest = count_kind(diagnostics.drop_last(), kind);
        if diagnostics.last().kind == kind {
            rest + 1
        } else {
            rest
        }
    }
}

/// The rule that a type mismatch breaks.
#[derive(Debug, Clone, Copy, PartialEq, Eq)]
pub enum Mismatch {
    /// The elements of an array literal differ in type.
    Elements,
    /// What is indexed is no array, or the index is no integer.
    Index,
    /// The operands of an arithmetic operator are not both integers or both floats.
    Arithmetic,
    /// The operands of an ordering comparison are not both integers or both floats.
    Comparison,
    /// The operands of an equality test differ in type.
    Equality,
    /// An operand of a logical operator is no boolean.
    Logical,
    /// The condition of an `if` or a `while` is no boolean.
    Condition,
    /// A variable is assigned a value of another type than it was bound with.
    Assignment,
}

/// How the breach of a rule is worded in the label of its diagnostic.
pub open spec fn detail(rule: Mismatch) -> Seq<char> {
    match rule {
        Mismatch::Elements => "Element type differs from the elements before it"@,
        Mismatch::Index => "Indexing needs an array and an integer index"@,
        Mismatch::Arithmetic => "Arithmetic needs two integers or two floats"@,
        Mismatch::Comparison => "Comparison needs two integers or two floats"@,
        Mismatch::Equality => "Equality needs two operands of the same type"@,
        Mismatch::Logical => "Logical operators need two booleans"@,
        Mismatch::Condition => "Condition must be a boolean"@,
        Mismatch::Assignment => "Assigned type differs from the type of the variable"@,
    }
}

impl Mismatch {
    /// How the breach of this rule is worded in the label of its diagnostic.
    pub fn detail(&self) -> (text: &'static str)
        ensures
            text@ == self::detail(*self),
    {
        match self {
            Mismatch::Elements => "Element type differs from the elements before it",
            Mismatch::Index => "Indexing needs an array and an integer index",
            Mismatch::Arithmetic => "Arithmetic needs two integers or two floats",
            Mismatch::Comparison => "Comparison needs two integers or two floats",
            Mismatch::Equality => "Equality needs two operands of the same type",
            Mismatch::Logical => "Logical operators need two booleans",
            Mismatch::Condition => "Condition must be a boolean",
            Mismatch::Assignment => "Assigned type differs from the type of the variable",
        }
    }
}

/// The decimal digit for a number below ten.
pub open spec fn digit(d: nat) -> char {
    if d == 0 {
        '0'
    } else if d == 1 {
        '1'
    } else if d == 2 {
        '2'
    } else if d == 3 {
        '3'
    } else if d == 4 {
        '4'
    } else if d == 5 {
        '5'
    } else if d == 6 {
        '6'
    } else if d == 7 {
        '7'
    } else if d == 8 {
        '8'
    } else {
        '9'
    }
}

/// A number written in decimal, without leading zeros.
pub open spec fn decimal(n: nat) -> Seq<char>
    decreases n,
{
    if n < 10 {
        seq![digit(n)]
    } else {
        decimal(n / 10).push(digit(n % 10))
    }
}

fn digit_text(d: usize) -> (text: &'static str)
    requires
        d < 10,
    ensures
        text@ == seq![digit(d as nat)],
{
    proof {
        reveal_strlit("0");
        reveal_strlit("1");
        reveal_strlit("2");
        reveal_strlit("3");
        reveal_strlit("4");
        reveal_strlit("5");
        reveal_strlit("6");
        reveal_strlit("7");
        reveal_strlit("8");
        reveal_strlit("9");
    }
    let text = if d == 0 {
        "0"
    } else if d == 1 {
        "1"
    } else if d == 2 {
        "2"
    } else if d == 3 {
        "3"
    } else if d == 4 {
        "4"
    } else if d == 5 {
        "5"
    } else if d == 6 {
        "6"
    } else if d == 7 {
        "7"
    } else if d == 8 {
        "8"
    } else {
        "9"
    };
    assert(text@ =~= seq![digit(d as nat)]);
    text
}

/// Writes a number in decimal.
pub fn decimal_string(n: usize) -> (text: String)
    ensures
        text@ == decimal(n as nat),
    decreases n,
{
    if n < 10 {
        String::from_str(digit_text(n))
    } else {
        let mut text = decimal_string(n / 10);
        text.append(digit_text(n % 10));
        assert(text@ =~= decimal(n as nat));
        text
    }
}

/// A label over the given location.
pub open spec fn marker(style: MarkerStyle, at: SourceInfo, message: Seq<char>) -> MarkerView {
    MarkerView { style, file_id: 0, range: at.span, message }
}

/// The report that the program defines no function `main`.
pub open spec fn missing_main_function() -> FindingView {
    FindingView {
        kind: FindingKind::MissingMainFunction,
        severity: Severity::Error,
        message: "No main function found"@,
        labels: seq![],
        notes: seq!["Try defining a function called main"@],
    }
}

/// The report that a call names a function that is not defined.
pub open spec fn unknown_function_call(name: Seq<char>, at: SourceInfo) -> FindingView {
    FindingView {
        kind: FindingKind::UnknownFunctionCall,
        severity: Severity::Error,
        message: "Function not found"@,
        labels: seq![marker(MarkerStyle::Primary, at, "Function "@ + name + " not found"@)],
        notes: seq![],
    }
}

/// The wording of an argument count that differs from the parameter count.
pub open spec fn arity_message(expected: nat, actual: nat) -> Seq<char> {
    "Function called with the wrong number of arguments: expected "@ + decimal(expected)
        + ", got "@ + decimal(actual)
}

/// The report that a call passes a number of arguments other than the callee declares.
pub open spec fn arity_mismatch(
    expected: nat,
    actual: nat,
    at: SourceInfo,
    defined_at: SourceInfo,
) -> FindingView {
    FindingView {
        kind: FindingKind::ArityMismatch,
        severity: Severity::Error,
        message: arity_message(expected, actual),
        labels: seq![
            marker(
                MarkerStyle::Primary,
                at,
                "Expected "@ + decimal(expected) + " arguments, got "@ + decimal(actual),
            ),
            marker(MarkerStyle::Secondary, defined_at, "Note: Function defined here"@),
        ],
        notes: seq![],
    }
}

/// The report that a name is used where nothing is bound to it.
pub open spec fn unbound_identifier(name: Seq<char>, at: SourceInfo) -> FindingView {
    FindingView {
        kind: FindingKind::UnboundIdentifier,
        severity: Severity::Error,
        message: "Identifier not found"@,
        labels: seq![marker(MarkerStyle::Primary, at, "Identifier "@ + name + " not found"@)],
        notes: seq![],
    }
}

/// The report that a typing rule is broken at the given place.
pub open spec fn type_mismatch(at: SourceInfo, rule: Mismatch) -> FindingView {
    FindingView {
        kind: FindingKind::TypeMismatch,
        severity: Severity::Error,
        message: "Type mismatch"@,
        labels: seq![marker(MarkerStyle::Primary, at, detail(rule))],
        notes: seq![],
    }
}

/// The report that a `return` gives a type other than an earlier `return` of the function.
pub open spec fn return_mismatch(at: SourceInfo, first_at: SourceInfo) -> FindingView {
    FindingView {
        kind: FindingKind::TypeMismatch,
        severity: Severity::Error,
        message: "Type mismatch"@,
        labels: seq![
            marker(MarkerStyle::Primary, at, "Returned type differs from an earlier return"@),
            marker(MarkerStyle::Secondary, first_at, "Note: Earlier return here"@),
        ],
        notes: seq![],
    }
}

/// The report that `break` or `continue` stands outside every loop.
pub open spec fn invalid_break_continue(at: SourceInfo) -> FindingView {
    FindingView {
        kind: FindingKind::InvalidBreakContinue,
        severity: Severity::Error,
        message: "Break or continue outside of a loop"@,
        labels: seq![marker(MarkerStyle::Primary, at, "Not inside a loop"@)],
        notes: seq![],
    }
}

impl Marker {
    /// A label over the given location, in the one file the analysis sees.
    pub fn new(style: MarkerStyle, at: &SourceInfo, message: String) -> (l: Marker)
        ensures
            l@ == marker(style, *at, message@),
    {
        Marker {
            style,
            file_id: 0,
            range: Range { start: at.span.start, end: at.span.end },
            message,
        }
    }
}

impl Finding {
    pub fn missing_main_function() -> (d: Finding)
        ensures
            d@ == self::missing_main_function(),
    {
        let mut notes: Vec<String> = Vec::new();
        notes.push(String::from_str("Try defining a function called main"));
        let d = Finding {
            kind: FindingKind::MissingMainFunction,
            severity: Severity::Error,
            message: String::from_str("No main function found"),
            labels: Vec::new(),
            notes,
        };
        assert(d@.labels =~= seq![]);
        assert(d@.notes =~= seq!["Try defining a function called main"@]);
        d
    }

    pub fn unknown_function_call(name: &String, at: &SourceInfo) -> (d: Finding)
        ensures
            d@ == self::unknown_function_call(name@, *at),
    {
        let mut text = String::from_str("Function ");
        text.append(name.as_str());
        text.append(" not found");
        let mut labels: Vec<Marker> = Vec::new();
        labels.push(Marker::new(MarkerStyle::Primary, at, text));
        let d = Finding {
            kind: FindingKind::UnknownFunctionCall,
            severity: Severity::Error,
            message: String::from_str("Function not found"),
            labels,
            notes: Vec::new(),
        };
        assert(d@.labels =~= self::unknown_function_call(name@, *at).labels);
        assert(d@.notes =~= seq![]);
        d
    }

    pub fn arity_mismatch(
        expected: usize,
        actual: usize,
        at: &SourceInfo,
        defined_at: &SourceInfo,
    ) -> (d: Finding)
        ensures
            d@ == self::arity_mismatch(expected as nat, actual as nat, *at, *defined_at),
    {
        let expected_text = decimal_string(expected);
        let actual_text = decimal_string(actual);
        let mut message = String::from_str(
            "Function called with the wrong number of arguments: expected ",
        );
        message.append(expected_text.as_str());
        message.append(", got ");
        message.append(actual_text.as_str());
        let mut text = String::from_str("Expected ");
        text.append(expected_text.as_str());
        text.append(" arguments, got ");
        text.append(actual_text.as_str());
        let mut labels: Vec<Marker> = Vec::new();
        labels.push(Marker::new(MarkerStyle::Primary, at, text));
        labels.push(
            Marker::new(
                MarkerStyle::Secondary,
                defined_at,
                String::from_str("Note: Function defined here"),
            ),
        );
        let d = Finding {
            kind: FindingKind::ArityMismatch,
            severity: Severity::Error,
            message,
            labels,
            notes: Vec::new(),
        };
        assert(d@.labels =~= self::arity_mismatch(
            expected as nat,
            actual as nat,
            *at,
            *defined_at,
        ).labels);
        assert(d@.notes =~= seq![]);
        d
    }

    pub fn unbound_identifier(name: &String, at: &SourceInfo) -> (d: Finding)
        ensures
            d@ == self::unbound_identifier(name@, *at),
    {
        let mut text = String::from_str("Identifier ");
        text.append(name.as_str());
        text.append(" not found");
        let mut labels: Vec<Marker> = Vec::new();
        labels.push(Marker::new(MarkerStyle::Primary, at, text));
        let d = Finding {
            kind: FindingKind::UnboundIdentifier,
            severity: Severity::Error,
            message: String::from_str("Identifier not found"),
            labels,
            notes: Vec::new(),
        };
        assert(d@.labels =~= self::unbound_identifier(name@, *at).labels);
        assert(d@.notes =~= seq![]);
        d
    }

    pub fn type_mismatch(at: &SourceInfo, rule: Mismatch) -> (d: Finding)
        ensures
            d@ == self::type_mismatch(*at, rule),
    {
        let mut labels: Vec<Marker> = Vec::new();
        labels.push(Marker::new(MarkerStyle::Primary, at, String::from_str(rule.detail())));
        let d = Finding {
            kind: FindingKind::TypeMismatch,
            severity: Severity::Error,
            message: String::from_str("Type mismatch"),
            labels,
            notes: Vec::new(),
        };
        assert(d@.labels =~= self::type_mismatch(*at, rule).labels);
        assert(d@.notes =~= seq![]);
        d
    }

    pub fn return_mismatch(at: &SourceInfo, first_at: &SourceInfo) -> (d: Finding)
        ensures
            d@ == self::return_mismatch(*at, *first_at),
    {
        let mut labels: Vec<Marker> = Vec::new();
        labels.push(
            Marker::new(
                MarkerStyle::Primary,
                at,
                String::from_str("Returned type differs from an earlier return"),
            ),
        );
        labels.push(
            Marker::new(
                MarkerStyle::Secondary,
                first_at,
                String::from_str("Note: Earlier return here"),
            ),
        );
        let d = Finding {
            kind: FindingKind::TypeMismatch,
            severity: Severity::Error,
            message: String::from_str("Type mismatch"),
            labels,
            notes: Vec::new(),
        };
        assert(d@.labels =~= self::return_mismatch(*at, *first_at).labels);
        assert(d@.notes =~= seq![]);
        d
    }

    pub fn invalid_break_continue(at: &SourceInfo) -> (d: Finding)
        ensures
            d@ == self::invalid_break_continue(*at),
    {
        let mut labels: Vec<Marker> = Vec::new();
        labels.push(Marker::new(MarkerStyle::Primary, at, String::from_str("Not inside a loop")));
        let d = Finding {
            kind: FindingKind::InvalidBreakContinue,
            severity: Severity::Error,
            message: String::from_str("Break or continue outside of a loop"),
            labels,
            notes: Vec::new(),
        };
        assert(d@.labels =~= self::invalid_break_continue(*at).labels);
        assert(d@.notes =~= seq![]);
        d
    }
}

/// Appends one diagnostic to the list.
pub fn emit(diagnostics: &mut Vec<Finding>, d: Finding)
    ensures
        diagnostics_view(final(diagnostics)@) == diagnostics_view(old(diagnostics)@).push(d@),
{
    diagnostics.push(d);
    assert(diagnostics_view(diagnostics@) =~= diagnostics_view(old(diagnostics)@).push(d@));
}

impl Clone for Marker {
    fn clone(&self) -> (copy: Marker)
        ensures
            copy@ == self@,
    {
        Marker {
            style: self.style,
            file_id: self.file_id,
            range: Range { start: self.range.start, end: self.range.end },
            message: self.message.clone(),
        }
    }
}

impl Clone for Finding {
    fn clone(&self) -> (copy: Finding)
        ensures
            copy@ == self@,
    {
        let mut labels: Vec<Marker> = Vec::new();
        let mut i: usize = 0;
        while i < self.labels.len()
            invariant
                i <= self.labels.len(),
                labels.len() == i,
                forall|j: int| 0 <= j < i ==> labels[j]@ == self.labels[j]@,
            decreases self.labels.len() - i,
        {
            labels.push(self.labels[i].clone());
            i += 1;
        }
        assert(markers_view(labels@) =~= markers_view(self.labels@));
        Finding {
            kind: self.kind,
            severity: self.severity,
            message: self.message.clone(),
            labels,
            notes: clone_names(&self.notes),
        }
    }
}

} // verus!
