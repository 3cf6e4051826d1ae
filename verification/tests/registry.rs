use ezlangsharp::ast::{Expr, SourceInfo, Stmt, TopLvl};
use ezlangsharp::semantic_analysis::basic_checks::FunctionChecker;
use ezlangsharp::semantic_analysis::diagnostics::{
    decimal_string, emit, Finding, FindingKind, Marker, MarkerStyle, Mismatch, Severity,
};

fn at(start: usize, end: usize) -> SourceInfo {
    SourceInfo::new(start..end)
}

fn func(name: &str, params: &[&str], body: Vec<Stmt>, start: usize, end: usize) -> TopLvl {
    TopLvl::FuncDef(
        name.to_string(),
        params.iter().map(|p| p.to_string()).collect(),
        body,
        at(start, end),
    )
}

fn call_stmt(name: &str, argc: usize, start: usize, end: usize) -> Stmt {
    let args = (0..argc).map(|i| Expr::Int(i as i64, at(start + i, start + i + 1))).collect();
    Stmt::Expr(Expr::Call(name.to_string(), args, at(start, end)), at(start, end + 1))
}

#[test]
fn source_info_keeps_its_range() {
    let info = SourceInfo::new(3..9);
    assert_eq!(info.span, 3..9);
    assert_eq!(info.clone(), info);
    let empty = SourceInfo::new(5..5);
    assert_eq!(empty.span.start, 5);
    assert_eq!(empty.span.end, 5);
}

#[test]
fn registry_lists_functions_in_order() {
    let ast = vec![
        TopLvl::Import("lib".to_string(), at(0, 5)),
        func("a", &["x", "y"], vec![call_stmt("b", 0, 10, 13)], 6, 20),
        TopLvl::Error,
        func("b", &[], vec![], 21, 30),
    ];
    let registry = FunctionChecker::new(&ast);
    assert_eq!(registry.len(), 2);
    assert_eq!(registry.get(0).unwrap().name, "a");
    assert_eq!(registry.get(0).unwrap().args, vec!["x".to_string(), "y".to_string()]);
    assert_eq!(registry.get(0).unwrap().body, vec![call_stmt("b", 0, 10, 13)]);
    assert_eq!(registry.get(0).unwrap().source_info, at(6, 20));
    assert_eq!(registry.get(1).unwrap().name, "b");
    assert_eq!(registry.get(1).unwrap().source_info, at(21, 30));
    assert!(registry.get(2).is_none());
}

#[test]
fn lookup_finds_the_first_definition() {
    let ast = vec![
        func("f", &["x"], vec![], 0, 10),
        func("g", &[], vec![], 11, 20),
        func("f", &[], vec![], 21, 30),
    ];
    let registry = FunctionChecker::new(&ast);
    let found = registry.lookup(&"f".to_string()).expect("f is defined");
    assert_eq!(found.source_info, at(0, 10));
    assert_eq!(found.args.len(), 1);
    assert_eq!(registry.find_func(&"f".to_string()), Some(0));
    assert_eq!(registry.find_func(&"g".to_string()), Some(1));
    assert_eq!(registry.find_func(&"h".to_string()), None);
    assert!(registry.lookup(&"h".to_string()).is_none());
    assert!(registry.lookup(&"".to_string()).is_none());
}

#[test]
fn entry_point_is_a_function_called_main() {
    let without = FunctionChecker::new(&vec![func("Main", &[], vec![], 0, 10)]);
    assert!(!without.has_entry_point());
    let report = without.main_func_test().expect("main is missing");
    assert_eq!(report.kind, FindingKind::MissingMainFunction);
    assert_eq!(report.message, "No main function found");
    assert_eq!(report.notes, vec!["Try defining a function called main".to_string()]);
    assert!(report.labels.is_empty());

    let with = FunctionChecker::new(&vec![
        func("helper", &[], vec![], 0, 10),
        func("main", &["argv"], vec![], 11, 20),
    ]);
    assert!(with.has_entry_point());
    assert!(with.main_func_test().is_none());

    let nothing = FunctionChecker::new(&Vec::new());
    assert_eq!(nothing.len(), 0);
    assert!(!nothing.has_entry_point());
}

#[test]
fn check_expr_args_reports_nothing_for_good_calls() {
    let ast = vec![
        func("f", &["x"], vec![], 0, 10),
        func("main", &[], vec![call_stmt("f", 1, 15, 19), call_stmt("main", 0, 21, 27)], 11, 30),
    ];
    let registry = FunctionChecker::new(&ast);
    assert!(registry.check_expr_args().is_none());
    assert!(registry.run_checks().is_none());
}

#[test]
fn check_expr_args_reports_each_bad_call() {
    let ast = vec![
        func("f", &["x"], vec![call_stmt("g", 2, 3, 9)], 0, 10),
        func("second", &[], vec![call_stmt("f", 0, 15, 18), call_stmt("f", 12, 21, 40)], 11, 45),
    ];
    let registry = FunctionChecker::new(&ast);
    let found = registry.check_expr_args().expect("three calls are wrong");
    let kinds: Vec<FindingKind> = found.iter().map(|d| d.kind).collect();
    assert_eq!(
        kinds,
        vec![
            FindingKind::UnknownFunctionCall,
            FindingKind::ArityMismatch,
            FindingKind::ArityMismatch,
        ]
    );
    assert_eq!(found[0].labels[0].range, 3..9);
    assert_eq!(found[1].labels[0].message, "Expected 1 arguments, got 0");
    assert_eq!(
        found[2].message,
        "Function called with the wrong number of arguments: expected 1, got 12"
    );
    assert_eq!(found[2].labels[0].message, "Expected 1 arguments, got 12");
    assert_eq!(found[2].labels[1].range, 0..10);

    let all = registry.run_checks().expect("main is missing too");
    assert_eq!(all.len(), 4);
    assert_eq!(all[0].kind, FindingKind::MissingMainFunction);
    assert_eq!(&all[1..], &found[..]);
}

#[test]
fn check_into_and_resolve_all_append() {
    let ast = vec![func("f", &[], vec![call_stmt("g", 0, 3, 6)], 0, 10)];
    let registry = FunctionChecker::new(&ast);
    let mut errors = vec![Finding::invalid_break_continue(&at(1, 2))];
    registry.resolve_all(&mut errors);
    assert_eq!(errors.len(), 2);
    assert_eq!(errors[0].kind, FindingKind::InvalidBreakContinue);
    assert_eq!(errors[1].kind, FindingKind::UnknownFunctionCall);
    registry.check_into(&mut errors);
    let kinds: Vec<FindingKind> = errors.iter().map(|d| d.kind).collect();
    assert_eq!(
        kinds,
        vec![
            FindingKind::InvalidBreakContinue,
            FindingKind::UnknownFunctionCall,
            FindingKind::MissingMainFunction,
            FindingKind::UnknownFunctionCall,
        ]
    );
}

#[test]
fn decimal_string_writes_numbers() {
    assert_eq!(decimal_string(0), "0");
    assert_eq!(decimal_string(7), "7");
    assert_eq!(decimal_string(9), "9");
    assert_eq!(decimal_string(10), "10");
    assert_eq!(decimal_string(42), "42");
    assert_eq!(decimal_string(100), "100");
    assert_eq!(decimal_string(1234567890), "1234567890");
    assert_eq!(decimal_string(usize::MAX), usize::MAX.to_string());
}

#[test]
fn each_kind_of_finding_has_its_wording() {
    let d = Finding::unknown_function_call(&"go".to_string(), &at(1, 5));
    assert_eq!(d.kind, FindingKind::UnknownFunctionCall);
    assert_eq!(d.severity, Severity::Error);
    assert_eq!(d.labels, vec![Marker::new(MarkerStyle::Primary, &at(1, 5), "Function go not found".to_string())]);

    let d = Finding::arity_mismatch(10, 9, &at(1, 5), &at(20, 30));
    assert_eq!(d.kind, FindingKind::ArityMismatch);
    assert!(d.message.contains("expected 10, got 9"));

    let d = Finding::unbound_identifier(&"x".to_string(), &at(2, 3));
    assert_eq!(d.kind, FindingKind::UnboundIdentifier);
    assert_eq!(d.labels[0].message, "Identifier x not found");
    assert_eq!(d.labels[0].range, 2..3);
    assert_eq!(d.labels[0].file_id, 0);

    let d = Finding::type_mismatch(&at(4, 6), Mismatch::Condition);
    assert_eq!(d.kind, FindingKind::TypeMismatch);
    assert_eq!(d.labels[0].message, Mismatch::Condition.detail());
    assert_eq!(d.labels[0].message, "Condition must be a boolean");

    let d = Finding::return_mismatch(&at(4, 6), &at(1, 2));
    assert_eq!(d.kind, FindingKind::TypeMismatch);
    assert_eq!(d.labels[1].range, 1..2);

    let d = Finding::invalid_break_continue(&at(7, 12));
    assert_eq!(d.kind, FindingKind::InvalidBreakContinue);
    assert_eq!(d.labels[0].style, MarkerStyle::Primary);

    let d = Finding::missing_main_function();
    assert_eq!(d.kind, FindingKind::MissingMainFunction);
}

#[test]
fn mismatch_details_differ() {
    let all = [
        Mismatch::Elements,
        Mismatch::Index,
        Mismatch::Arithmetic,
        Mismatch::Comparison,
        Mismatch::Equality,
        Mismatch::Logical,
        Mismatch::Condition,
        Mismatch::Assignment,
    ];
    for (i, a) in all.iter().enumerate() {
        for b in all.iter().skip(i + 1) {
            assert_ne!(a.detail(), b.detail());
        }
    }
}

#[test]
fn emit_appends_at_the_end() {
    let mut found = Vec::new();
    emit(&mut found, Finding::missing_main_function());
    emit(&mut found, Finding::invalid_break_continue(&at(0, 1)));
    assert_eq!(found.len(), 2);
    assert_eq!(found[0].kind, FindingKind::MissingMainFunction);
    assert_eq!(found[1].kind, FindingKind::InvalidBreakContinue);
}

#[test]
fn clones_are_equal_to_what_they_copy() {
    let body = vec![
        Stmt::If(
            Expr::BinOp(
                Box::new(Expr::Ident("a".to_string(), at(0, 1))),
                ezlangsharp::ast::BinOp::Lt,
                Box::new(Expr::Float(1.25f64.to_bits(), at(4, 8))),
                at(0, 8),
            ),
            vec![Stmt::Return(Expr::ArrayLit(vec![Expr::BoolLit(true, at(9, 13))], at(8, 14)), at(8, 15))],
            Some(vec![Stmt::While(
                Expr::Call("f".to_string(), vec![Expr::StringLit("s".to_string(), at(20, 23))], at(18, 24)),
                vec![Stmt::Block(vec![Stmt::Error, Stmt::Expr(Expr::Continue(at(30, 38)), at(30, 39))], at(29, 40))],
                at(16, 41),
            )]),
            at(0, 42),
        ),
        Stmt::Let("x".to_string(), Expr::ArrayIndex("a".to_string(), Box::new(Expr::Int(0, at(52, 53))), at(50, 54)), at(46, 55)),
        Stmt::Assign("x".to_string(), Expr::Return(Box::new(Expr::Error), at(60, 66)), at(56, 67)),
        Stmt::Expr(Expr::Break(at(70, 75)), at(70, 76)),
    ];
    let item = func("f", &["a", "b"], body, 0, 80);
    assert_eq!(item.clone(), item);
    assert_eq!(TopLvl::Error.clone(), TopLvl::Error);
    let import = TopLvl::Import("lib".to_string(), at(0, 3));
    assert_eq!(import.clone(), import);
}
