use ezlangsharp::ast::{BinOp, Expr, SourceInfo, Stmt, TopLvl};
use ezlangsharp::semantic_analysis::basic_checks::FunctionChecker;
use ezlangsharp::semantic_analysis::checker::{
    check_expr, check_exprs, check_stmt, check_stmts, enter_function, infer_call, CheckState,
};
use ezlangsharp::semantic_analysis::diagnostics::{Finding, FindingKind, Mismatch};
use ezlangsharp::semantic_analysis::scope::Scope;
use ezlangsharp::semantic_analysis::typechecking::{Type, TypedExpr, TypedStmt};

fn at(start: usize, end: usize) -> SourceInfo {
    SourceInfo::new(start..end)
}

fn fresh() -> CheckState {
    CheckState { scope: Scope::new(), returned: None, diagnostics: Vec::new() }
}

fn registry() -> FunctionChecker {
    FunctionChecker::new(&vec![
        TopLvl::FuncDef("zero".to_string(), vec![], vec![], at(0, 5)),
        TopLvl::FuncDef("one".to_string(), vec!["a".to_string()], vec![], at(6, 10)),
        TopLvl::FuncDef("two".to_string(), vec!["a".to_string(), "b".to_string()], vec![], at(11, 15)),
    ])
}

fn kinds(state: &CheckState) -> Vec<FindingKind> {
    state.diagnostics.iter().map(|d| d.kind).collect()
}

#[test]
fn entering_a_function_binds_its_parameters() {
    let earlier = vec![Finding::missing_main_function()];
    let state = enter_function(&vec!["a".to_string(), "b".to_string()], earlier);
    assert_eq!(state.scope.lookup(&"a".to_string()), Some(Type::Unknown));
    assert_eq!(state.scope.lookup(&"b".to_string()), Some(Type::Unknown));
    assert_eq!(state.scope.lookup(&"c".to_string()), None);
    assert!(state.returned.is_none());
    assert_eq!(state.diagnostics, vec![Finding::missing_main_function()]);
}

#[test]
fn call_type_needs_an_earlier_function_and_the_right_arity() {
    let registry = registry();
    let rets = vec![Type::Int, Type::String];
    assert_eq!(infer_call(&registry, &rets, &"zero".to_string(), 0), Type::Int);
    assert_eq!(infer_call(&registry, &rets, &"one".to_string(), 1), Type::String);
    assert_eq!(infer_call(&registry, &rets, &"one".to_string(), 2), Type::Unknown);
    assert_eq!(infer_call(&registry, &rets, &"two".to_string(), 2), Type::Unknown);
    assert_eq!(infer_call(&registry, &rets, &"three".to_string(), 0), Type::Unknown);
    assert_eq!(infer_call(&registry, &Vec::new(), &"zero".to_string(), 0), Type::Unknown);
}

#[test]
fn checking_an_expression_leaves_earlier_findings() {
    let registry = registry();
    let rets = vec![Type::Bool];
    let mut state = fresh();
    state.report(Finding::missing_main_function());
    let e = Expr::BinOp(
        Box::new(Expr::Call("zero".to_string(), vec![], at(0, 6))),
        BinOp::Or,
        Box::new(Expr::Ident("flag".to_string(), at(10, 14))),
        at(0, 14),
    );
    let typed = check_expr(&registry, &rets, 0, &mut state, &e);
    assert_eq!(
        typed,
        TypedExpr::BinOp(
            Box::new(TypedExpr::Call("zero".to_string(), vec![], at(0, 6), Type::Bool)),
            BinOp::Or,
            Box::new(TypedExpr::Ident("flag".to_string(), at(10, 14), Type::Unknown)),
            at(0, 14),
            Type::Unknown,
        )
    );
    assert_eq!(
        kinds(&state),
        vec![FindingKind::MissingMainFunction, FindingKind::UnboundIdentifier]
    );
}

#[test]
fn depth_decides_on_break() {
    let registry = registry();
    let rets: Vec<Type> = Vec::new();
    let jump = Expr::Break(at(1, 6));
    let mut outside = fresh();
    check_expr(&registry, &rets, 0, &mut outside, &jump);
    assert_eq!(outside.diagnostics, vec![Finding::invalid_break_continue(&at(1, 6))]);
    for depth in [1, 2, usize::MAX] {
        let mut inside = fresh();
        check_expr(&registry, &rets, depth, &mut inside, &jump);
        assert!(inside.diagnostics.is_empty());
    }
    let nested = Stmt::While(
        Expr::BoolLit(true, at(0, 4)),
        vec![Stmt::Expr(Expr::Continue(at(6, 14)), at(6, 15))],
        at(0, 16),
    );
    for depth in [0, 1, usize::MAX] {
        let mut state = fresh();
        check_stmt(&registry, &rets, depth, &mut state, &nested);
        assert!(state.diagnostics.is_empty());
    }
}

#[test]
fn expressions_are_checked_from_left_to_right() {
    let registry = registry();
    let rets: Vec<Type> = Vec::new();
    let mut state = fresh();
    let items = vec![
        Expr::Ident("first".to_string(), at(0, 5)),
        Expr::Int(1, at(6, 7)),
        Expr::Ident("second".to_string(), at(8, 14)),
    ];
    let typed = check_exprs(&registry, &rets, 0, &mut state, &items);
    assert_eq!(typed.len(), 3);
    assert_eq!(typed[1], TypedExpr::Int(1, at(6, 7)));
    let found: Vec<String> = state.diagnostics.iter().map(|d| d.labels[0].message.clone()).collect();
    assert_eq!(
        found,
        vec!["Identifier first not found".to_string(), "Identifier second not found".to_string()]
    );
}

#[test]
fn statements_carry_the_scope_along() {
    let registry = registry();
    let rets: Vec<Type> = Vec::new();
    let mut state = fresh();
    let body = vec![
        Stmt::Let("x".to_string(), Expr::StringLit("s".to_string(), at(8, 11)), at(0, 12)),
        Stmt::Return(Expr::Ident("x".to_string(), at(20, 21)), at(13, 22)),
    ];
    let typed = check_stmts(&registry, &rets, 0, &mut state, &body);
    assert_eq!(
        typed[1],
        TypedStmt::Return(TypedExpr::Ident("x".to_string(), at(20, 21), Type::String), at(13, 22))
    );
    assert_eq!(state.scope.lookup(&"x".to_string()), Some(Type::String));
    let returned = state.returned.expect("a return was seen");
    assert_eq!(returned.ty, Type::String);
    assert_eq!(returned.at, at(13, 22));
    assert!(state.diagnostics.is_empty());
}

#[test]
fn state_rules_one_by_one() {
    let mut state = fresh();
    state.scope.bind("n".to_string(), Type::Int);

    assert_eq!(state.use_name(&"n".to_string(), &at(0, 1)), Type::Int);
    assert!(state.diagnostics.is_empty());
    assert_eq!(state.use_name(&"m".to_string(), &at(2, 3)), Type::Unknown);
    assert_eq!(state.diagnostics, vec![Finding::unbound_identifier(&"m".to_string(), &at(2, 3))]);

    state.check_condition(&Type::Bool, &at(4, 5));
    state.check_condition(&Type::Unknown, &at(4, 5));
    assert_eq!(state.diagnostics.len(), 1);
    state.check_condition(&Type::Int, &at(4, 5));
    assert_eq!(state.diagnostics[1], Finding::type_mismatch(&at(4, 5), Mismatch::Condition));

    state.check_assign(&"n".to_string(), &Type::Int, &at(6, 7));
    state.check_assign(&"n".to_string(), &Type::Unknown, &at(6, 7));
    assert_eq!(state.diagnostics.len(), 2);
    state.check_assign(&"n".to_string(), &Type::Float, &at(6, 7));
    assert_eq!(state.diagnostics[2], Finding::type_mismatch(&at(6, 7), Mismatch::Assignment));
    state.check_assign(&"q".to_string(), &Type::Float, &at(8, 9));
    assert_eq!(state.diagnostics[3], Finding::unbound_identifier(&"q".to_string(), &at(8, 9)));

    state.check_jump(3, &at(10, 11));
    assert_eq!(state.diagnostics.len(), 4);
    state.check_jump(0, &at(10, 11));
    assert_eq!(state.diagnostics[4], Finding::invalid_break_continue(&at(10, 11)));

    state.note_return(Type::Unknown, &at(12, 13));
    state.note_return(Type::Bool, &at(14, 15));
    state.note_return(Type::Bool, &at(16, 17));
    assert_eq!(state.diagnostics.len(), 5);
    state.note_return(Type::Int, &at(18, 19));
    assert_eq!(state.diagnostics[5], Finding::return_mismatch(&at(18, 19), &at(14, 15)));
    let returned = state.returned.as_ref().expect("a return was seen");
    assert_eq!(returned.ty, Type::Bool);
    assert_eq!(returned.at, at(14, 15));
}
