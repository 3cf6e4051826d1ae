use ezlangsharp::ast::{BinOp, Expr, SourceInfo, Stmt, TopLvl};
use ezlangsharp::semantic_analysis::analyze;
use ezlangsharp::semantic_analysis::diagnostics::{Finding, FindingKind, MarkerStyle, Severity};
use ezlangsharp::semantic_analysis::typechecking::{Type, TypedExpr, TypedStmt, TypedTopLvl};

fn at(start: usize, end: usize) -> SourceInfo {
    SourceInfo::new(start..end)
}

fn num(value: i64, start: usize) -> Expr {
    Expr::Int(value, at(start, start + 1))
}

fn string(value: &str, start: usize) -> Expr {
    Expr::StringLit(value.to_string(), at(start, start + value.len() + 2))
}

fn ident(name: &str, start: usize) -> Expr {
    Expr::Ident(name.to_string(), at(start, start + name.len()))
}

fn binop(lhs: Expr, op: BinOp, rhs: Expr, start: usize, end: usize) -> Expr {
    Expr::BinOp(Box::new(lhs), op, Box::new(rhs), at(start, end))
}

fn call(name: &str, args: Vec<Expr>, start: usize, end: usize) -> Expr {
    Expr::Call(name.to_string(), args, at(start, end))
}

fn stmt(e: Expr) -> Stmt {
    Stmt::Expr(e, at(0, 0))
}

fn let_(name: &str, e: Expr) -> Stmt {
    Stmt::Let(name.to_string(), e, at(0, 0))
}

fn func(name: &str, params: &[&str], body: Vec<Stmt>, start: usize, end: usize) -> TopLvl {
    TopLvl::FuncDef(
        name.to_string(),
        params.iter().map(|p| p.to_string()).collect(),
        body,
        at(start, end),
    )
}

fn main_with(body: Vec<Stmt>) -> TopLvl {
    func("main", &[], body, 1000, 2000)
}

fn count(diagnostics: &[Finding], kind: FindingKind) -> usize {
    diagnostics.iter().filter(|d| d.kind == kind).count()
}

fn kinds(diagnostics: &[Finding]) -> Vec<FindingKind> {
    diagnostics.iter().map(|d| d.kind).collect()
}

fn main_body(typed: &[TypedTopLvl]) -> &Vec<TypedStmt> {
    for item in typed {
        if let TypedTopLvl::FuncDef(name, _, body, _) = item {
            if name == "main" {
                return body;
            }
        }
    }
    panic!("no main in the typed program");
}

fn bound_value(s: &TypedStmt) -> &TypedExpr {
    match s {
        TypedStmt::Let(_, e, _) => e,
        TypedStmt::Expr(e, _) => e,
        TypedStmt::Assign(_, e, _) => e,
        TypedStmt::Return(e, _) => e,
        _ => panic!("statement holds no expression"),
    }
}

#[test]
fn empty_program_lacks_main() {
    let ast: Vec<TopLvl> = Vec::new();
    let (typed, diagnostics) = analyze(&ast);
    assert!(typed.is_empty());
    assert_eq!(diagnostics.len(), 1);
    assert_eq!(diagnostics[0].kind, FindingKind::MissingMainFunction);
    assert_eq!(diagnostics[0].severity, Severity::Error);
    assert_eq!(diagnostics[0].message, "No main function found");
    assert!(diagnostics[0].labels.is_empty());
    assert_eq!(diagnostics[0].notes, vec!["Try defining a function called main".to_string()]);
}

#[test]
fn missing_main_is_reported_exactly_once() {
    let ast = vec![
        func("foo", &[], vec![stmt(call("g", vec![], 5, 8)), stmt(Expr::Break(at(9, 14)))], 0, 20),
        func("bar", &["x"], vec![stmt(binop(num(1, 30), BinOp::Add, string("a", 34), 30, 37))], 21, 40),
    ];
    let (_, diagnostics) = analyze(&ast);
    assert_eq!(count(&diagnostics, FindingKind::MissingMainFunction), 1);
    assert_eq!(
        kinds(&diagnostics),
        vec![
            FindingKind::MissingMainFunction,
            FindingKind::UnknownFunctionCall,
            FindingKind::InvalidBreakContinue,
            FindingKind::TypeMismatch,
        ]
    );
}

#[test]
fn program_with_main_has_no_missing_main() {
    let ast = vec![main_with(vec![])];
    let (typed, diagnostics) = analyze(&ast);
    assert!(diagnostics.is_empty());
    assert_eq!(typed, vec![TypedTopLvl::FuncDef("main".to_string(), vec![], vec![], at(1000, 2000))]);
}

#[test]
fn arity_mismatch_states_expected_and_actual() {
    let ast = vec![
        func("f", &["x"], vec![], 0, 12),
        main_with(vec![stmt(call("f", vec![num(1, 22), num(2, 25)], 20, 27))]),
    ];
    let (_, diagnostics) = analyze(&ast);
    assert_eq!(diagnostics.len(), 1);
    assert_eq!(count(&diagnostics, FindingKind::ArityMismatch), 1);
    let d = &diagnostics[0];
    assert!(d.message.contains("expected 1, got 2"));
    assert_eq!(
        d.message,
        "Function called with the wrong number of arguments: expected 1, got 2"
    );
    assert_eq!(d.labels.len(), 2);
    assert_eq!(d.labels[0].style, MarkerStyle::Primary);
    assert_eq!(d.labels[0].file_id, 0);
    assert_eq!(d.labels[0].range, 20..27);
    assert_eq!(d.labels[0].message, "Expected 1 arguments, got 2");
    assert_eq!(d.labels[1].style, MarkerStyle::Secondary);
    assert_eq!(d.labels[1].range, 0..12);
    assert_eq!(d.labels[1].message, "Note: Function defined here");
    assert!(d.notes.is_empty());
}

#[test]
fn arity_mismatch_with_too_few_arguments() {
    let ast = vec![
        func("f", &["a", "b", "c"], vec![], 0, 12),
        main_with(vec![stmt(call("f", vec![], 20, 23))]),
    ];
    let (_, diagnostics) = analyze(&ast);
    assert_eq!(kinds(&diagnostics), vec![FindingKind::ArityMismatch]);
    assert!(diagnostics[0].message.ends_with("expected 3, got 0"));
}

#[test]
fn unknown_function_call_has_no_arity_mismatch() {
    let ast = vec![main_with(vec![stmt(call("g", vec![num(1, 3), num(2, 6), num(3, 9)], 1, 11))])];
    let (_, diagnostics) = analyze(&ast);
    assert_eq!(count(&diagnostics, FindingKind::UnknownFunctionCall), 1);
    assert_eq!(count(&diagnostics, FindingKind::ArityMismatch), 0);
    assert_eq!(diagnostics.len(), 1);
    assert_eq!(diagnostics[0].message, "Function not found");
    assert_eq!(diagnostics[0].labels.len(), 1);
    assert_eq!(diagnostics[0].labels[0].style, MarkerStyle::Primary);
    assert_eq!(diagnostics[0].labels[0].range, 1..11);
    assert_eq!(diagnostics[0].labels[0].message, "Function g not found");
}

#[test]
fn analysis_is_repeatable() {
    let ast = vec![
        func("f", &["x"], vec![Stmt::Return(string("s", 3), at(1, 8))], 0, 12),
        main_with(vec![
            stmt(call("f", vec![num(1, 22), num(2, 25)], 20, 27)),
            stmt(call("nowhere", vec![], 30, 39)),
            let_("y", binop(call("f", vec![num(1, 42)], 40, 44), BinOp::Sub, num(1, 47), 40, 48)),
            stmt(Expr::Continue(at(50, 58))),
        ]),
    ];
    let (typed_once, once) = analyze(&ast);
    let (typed_twice, twice) = analyze(&ast);
    assert_eq!(once, twice);
    assert_eq!(typed_once, typed_twice);
    assert_eq!(
        kinds(&once),
        vec![
            FindingKind::ArityMismatch,
            FindingKind::UnknownFunctionCall,
            FindingKind::TypeMismatch,
            FindingKind::InvalidBreakContinue,
        ]
    );
}

#[test]
fn nested_mismatch_is_reported_once() {
    let inner = binop(num(1, 1), BinOp::Add, string("a", 5), 1, 8);
    let outer = binop(inner, BinOp::Add, num(2, 12), 0, 13);
    let ast = vec![main_with(vec![stmt(outer)])];
    let (typed, diagnostics) = analyze(&ast);
    assert_eq!(diagnostics.len(), 1);
    assert_eq!(diagnostics[0].kind, FindingKind::TypeMismatch);
    assert_eq!(diagnostics[0].message, "Type mismatch");
    assert_eq!(diagnostics[0].labels[0].range, 1..8);
    assert_eq!(
        diagnostics[0].labels[0].message,
        "Arithmetic needs two integers or two floats"
    );
    assert_eq!(bound_value(&main_body(&typed)[0]).ty(), Type::Unknown);
}

#[test]
fn well_typed_program_has_no_findings() {
    let ast = vec![
        func(
            "add",
            &["a", "b"],
            vec![Stmt::Return(binop(num(1, 5), BinOp::Add, num(2, 9), 5, 10), at(0, 11))],
            0,
            20,
        ),
        main_with(vec![
            let_("x", call("add", vec![num(1, 30), num(2, 33)], 26, 35)),
            let_("y", binop(ident("x", 40), BinOp::Mul, num(3, 44), 40, 45)),
            let_(
                "ok",
                binop(
                    binop(ident("y", 50), BinOp::Lt, num(9, 54), 50, 55),
                    BinOp::And,
                    Expr::BoolLit(true, at(59, 63)),
                    50,
                    63,
                ),
            ),
            Stmt::If(
                ident("ok", 70),
                vec![Stmt::Assign("x".to_string(), num(5, 80), at(76, 81))],
                Some(vec![Stmt::Assign("x".to_string(), num(6, 90), at(86, 91))]),
                at(67, 95),
            ),
            Stmt::While(
                binop(ident("y", 100), BinOp::Ge, num(0, 105), 100, 106),
                vec![
                    Stmt::Assign(
                        "y".to_string(),
                        binop(ident("y", 110), BinOp::Sub, num(1, 114), 110, 115),
                        at(108, 116),
                    ),
                    Stmt::If(
                        binop(ident("y", 120), BinOp::Eq, num(3, 125), 120, 126),
                        vec![stmt(Expr::Break(at(130, 135)))],
                        None,
                        at(117, 140),
                    ),
                ],
                at(96, 145),
            ),
            let_("arr", Expr::ArrayLit(vec![num(1, 150), num(2, 153), num(3, 156)], at(149, 158))),
            let_(
                "z",
                binop(
                    Expr::ArrayIndex("arr".to_string(), Box::new(num(0, 164)), at(160, 166)),
                    BinOp::Add,
                    ident("x", 169),
                    160,
                    170,
                ),
            ),
            let_("s", string("a", 175)),
            let_("f", binop(
                Expr::Float(1.5f64.to_bits(), at(180, 183)),
                BinOp::Div,
                Expr::Float(0.5f64.to_bits(), at(186, 189)),
                180,
                189,
            )),
            Stmt::Return(ident("z", 195), at(190, 197)),
        ]),
    ];
    let (typed, diagnostics) = analyze(&ast);
    assert_eq!(diagnostics, Vec::<Finding>::new());
    assert_eq!(typed.len(), 2);
    let body = main_body(&typed);
    assert_eq!(body.len(), 10);
    assert_eq!(bound_value(&body[0]).ty(), Type::Int);
    assert_eq!(bound_value(&body[1]).ty(), Type::Int);
    assert_eq!(bound_value(&body[2]).ty(), Type::Bool);
    assert_eq!(bound_value(&body[5]).ty(), Type::Array(Box::new(Type::Int)));
    assert_eq!(bound_value(&body[6]).ty(), Type::Int);
    assert_eq!(bound_value(&body[7]).ty(), Type::String);
    assert_eq!(bound_value(&body[8]).ty(), Type::Float);
    assert_eq!(bound_value(&body[9]).ty(), Type::Int);
    match &typed[0] {
        TypedTopLvl::FuncDef(name, params, _, info) => {
            assert_eq!(name, "add");
            assert_eq!(
                params,
                &vec![("a".to_string(), Type::Unknown), ("b".to_string(), Type::Unknown)]
            );
            assert_eq!(info, &at(0, 20));
        }
        _ => panic!("the first item is a function"),
    }
}

#[test]
fn typed_tree_mirrors_the_untyped_tree() {
    let ast = vec![main_with(vec![let_(
        "x",
        binop(num(1, 1), BinOp::Lt, num(2, 5), 1, 6),
    )])];
    let (typed, diagnostics) = analyze(&ast);
    assert!(diagnostics.is_empty());
    assert_eq!(
        typed,
        vec![TypedTopLvl::FuncDef(
            "main".to_string(),
            vec![],
            vec![TypedStmt::Let(
                "x".to_string(),
                TypedExpr::BinOp(
                    Box::new(TypedExpr::Int(1, at(1, 2))),
                    BinOp::Lt,
                    Box::new(TypedExpr::Int(2, at(5, 6))),
                    at(1, 6),
                    Type::Bool,
                ),
                at(0, 0),
            )],
            at(1000, 2000),
        )]
    );
}

#[test]
fn break_at_top_level_is_reported() {
    let ast = vec![main_with(vec![stmt(Expr::Break(at(3, 8)))])];
    let (typed, diagnostics) = analyze(&ast);
    assert_eq!(diagnostics.len(), 1);
    assert_eq!(diagnostics[0].kind, FindingKind::InvalidBreakContinue);
    assert_eq!(diagnostics[0].message, "Break or continue outside of a loop");
    assert_eq!(diagnostics[0].labels[0].range, 3..8);
    assert_eq!(diagnostics[0].labels[0].message, "Not inside a loop");
    assert_eq!(main_body(&typed)[0], TypedStmt::Expr(TypedExpr::Break(at(3, 8)), at(0, 0)));
}

#[test]
fn break_inside_one_while_is_accepted() {
    let ast = vec![main_with(vec![Stmt::While(
        Expr::BoolLit(true, at(6, 10)),
        vec![stmt(Expr::Break(at(13, 18)))],
        at(0, 20),
    )])];
    let (_, diagnostics) = analyze(&ast);
    assert!(diagnostics.is_empty());
}

#[test]
fn continue_follows_the_same_rule_as_break() {
    let outside = vec![main_with(vec![stmt(Expr::Continue(at(3, 11)))])];
    let (_, diagnostics) = analyze(&outside);
    assert_eq!(kinds(&diagnostics), vec![FindingKind::InvalidBreakContinue]);
    assert_eq!(diagnostics[0].labels[0].range, 3..11);
    let inside = vec![main_with(vec![Stmt::While(
        Expr::BoolLit(true, at(6, 10)),
        vec![Stmt::Block(vec![stmt(Expr::Continue(at(13, 21)))], at(12, 22))],
        at(0, 24),
    )])];
    let (_, diagnostics) = analyze(&inside);
    assert!(diagnostics.is_empty());
}

#[test]
fn loop_ends_with_its_body() {
    let ast = vec![main_with(vec![
        Stmt::While(
            Expr::BoolLit(true, at(6, 10)),
            vec![Stmt::While(
                Expr::BoolLit(false, at(12, 17)),
                vec![stmt(Expr::Break(at(19, 24)))],
                at(11, 26),
            ), stmt(Expr::Break(at(27, 32)))],
            at(0, 34),
        ),
        stmt(Expr::Break(at(35, 40))),
    ])];
    let (_, diagnostics) = analyze(&ast);
    assert_eq!(kinds(&diagnostics), vec![FindingKind::InvalidBreakContinue]);
    assert_eq!(diagnostics[0].labels[0].range, 35..40);
}

#[test]
fn unbound_identifier_is_reported_once() {
    let ast = vec![main_with(vec![stmt(binop(ident("x", 1), BinOp::Add, num(1, 5), 1, 6))])];
    let (typed, diagnostics) = analyze(&ast);
    assert_eq!(kinds(&diagnostics), vec![FindingKind::UnboundIdentifier]);
    assert_eq!(diagnostics[0].message, "Identifier not found");
    assert_eq!(diagnostics[0].labels[0].range, 1..2);
    assert_eq!(diagnostics[0].labels[0].message, "Identifier x not found");
    assert_eq!(bound_value(&main_body(&typed)[0]).ty(), Type::Unknown);
}

#[test]
fn parameters_are_in_scope() {
    let ast = vec![
        func("id", &["a"], vec![Stmt::Return(ident("a", 9), at(2, 11))], 0, 12),
        main_with(vec![]),
    ];
    let (typed, diagnostics) = analyze(&ast);
    assert!(diagnostics.is_empty());
    match &typed[0] {
        TypedTopLvl::FuncDef(_, _, body, _) => {
            assert_eq!(
                body[0],
                TypedStmt::Return(TypedExpr::Ident("a".to_string(), at(9, 10), Type::Unknown), at(2, 11))
            );
        }
        _ => panic!("the first item is a function"),
    }
}

#[test]
fn scope_is_not_shared_between_functions() {
    let ast = vec![
        func("first", &["a"], vec![let_("b", num(1, 5))], 0, 12),
        main_with(vec![stmt(ident("a", 20)), stmt(ident("b", 25))]),
    ];
    let (_, diagnostics) = analyze(&ast);
    assert_eq!(
        kinds(&diagnostics),
        vec![FindingKind::UnboundIdentifier, FindingKind::UnboundIdentifier]
    );
}

#[test]
fn array_literal_with_differing_elements() {
    let literal = Expr::ArrayLit(
        vec![num(1, 1), string("a", 4), Expr::Float(2.0f64.to_bits(), at(9, 12))],
        at(0, 13),
    );
    let ast = vec![main_with(vec![let_("a", literal)])];
    let (typed, diagnostics) = analyze(&ast);
    assert_eq!(kinds(&diagnostics), vec![FindingKind::TypeMismatch]);
    assert_eq!(diagnostics[0].labels[0].range, 4..7);
    assert_eq!(
        diagnostics[0].labels[0].message,
        "Element type differs from the elements before it"
    );
    assert_eq!(
        bound_value(&main_body(&typed)[0]).ty(),
        Type::Array(Box::new(Type::Unknown))
    );
}

#[test]
fn array_literal_element_types() {
    let ast = vec![main_with(vec![
        let_("empty", Expr::ArrayLit(vec![], at(0, 2))),
        let_("flags", Expr::ArrayLit(vec![Expr::BoolLit(true, at(4, 8))], at(3, 9))),
        let_(
            "nested",
            Expr::ArrayLit(
                vec![
                    Expr::ArrayLit(vec![], at(11, 13)),
                    Expr::ArrayLit(vec![string("a", 16)], at(15, 20)),
                ],
                at(10, 21),
            ),
        ),
        let_("holes", Expr::ArrayLit(vec![ident("nowhere", 30), num(1, 39)], at(29, 41))),
    ])];
    let (typed, diagnostics) = analyze(&ast);
    assert_eq!(kinds(&diagnostics), vec![FindingKind::UnboundIdentifier]);
    let body = main_body(&typed);
    assert_eq!(bound_value(&body[0]).ty(), Type::Array(Box::new(Type::Unknown)));
    assert_eq!(bound_value(&body[1]).ty(), Type::Array(Box::new(Type::Bool)));
    assert_eq!(
        bound_value(&body[2]).ty(),
        Type::Array(Box::new(Type::Array(Box::new(Type::String))))
    );
    assert_eq!(bound_value(&body[3]).ty(), Type::Array(Box::new(Type::Int)));
}

#[test]
fn array_index_rules() {
    let index = |name: &str, i: Expr, start: usize| {
        Expr::ArrayIndex(name.to_string(), Box::new(i), at(start, start + 5))
    };
    let ast = vec![main_with(vec![
        let_("a", Expr::ArrayLit(vec![string("s", 1)], at(0, 5))),
        let_("n", num(1, 6)),
        let_("good", index("a", num(0, 12), 10)),
        let_("bad_index", index("a", string("x", 22), 20)),
        let_("bad_base", index("n", num(0, 32), 30)),
        let_("no_base", index("nowhere", num(0, 42), 40)),
        let_("unknown_index", index("a", ident("missing", 52), 50)),
    ])];
    let (typed, diagnostics) = analyze(&ast);
    assert_eq!(
        kinds(&diagnostics),
        vec![
            FindingKind::TypeMismatch,
            FindingKind::TypeMismatch,
            FindingKind::UnboundIdentifier,
            FindingKind::UnboundIdentifier,
        ]
    );
    assert_eq!(diagnostics[0].labels[0].range, 20..25);
    assert_eq!(
        diagnostics[0].labels[0].message,
        "Indexing needs an array and an integer index"
    );
    assert_eq!(diagnostics[1].labels[0].range, 30..35);
    assert_eq!(diagnostics[2].labels[0].range, 40..45);
    assert_eq!(diagnostics[2].labels[0].message, "Identifier nowhere not found");
    assert_eq!(diagnostics[3].labels[0].message, "Identifier missing not found");
    let body = main_body(&typed);
    assert_eq!(bound_value(&body[2]).ty(), Type::String);
    assert_eq!(bound_value(&body[3]).ty(), Type::Unknown);
    assert_eq!(bound_value(&body[4]).ty(), Type::Unknown);
    assert_eq!(bound_value(&body[5]).ty(), Type::Unknown);
    assert_eq!(bound_value(&body[6]).ty(), Type::Unknown);
}

#[test]
fn operator_rules() {
    let float = |v: f64, start: usize| Expr::Float(v.to_bits(), at(start, start + 3));
    let truth = |start: usize| Expr::BoolLit(true, at(start, start + 4));
    let ast = vec![main_with(vec![
        let_("a", binop(float(1.5, 0), BinOp::Pow, float(2.0, 4), 0, 7)),
        let_("b", binop(num(1, 10), BinOp::Mod, float(2.0, 14), 10, 17)),
        let_("c", binop(string("a", 20), BinOp::Lt, string("b", 26), 20, 29)),
        let_("d", binop(num(1, 30), BinOp::Le, float(2.0, 34), 30, 37)),
        let_("e", binop(float(1.0, 40), BinOp::Gt, float(2.0, 44), 40, 47)),
        let_("f", binop(num(1, 50), BinOp::Eq, string("a", 54), 50, 57)),
        let_("g", binop(string("a", 60), BinOp::Ne, string("b", 66), 60, 69)),
        let_("h", binop(num(1, 70), BinOp::And, truth(74), 70, 78)),
        let_("i", binop(truth(80), BinOp::Or, truth(88), 80, 92)),
        let_("j", binop(truth(100), BinOp::Add, truth(108), 100, 112)),
    ])];
    let (typed, diagnostics) = analyze(&ast);
    let found: Vec<(std::ops::Range<usize>, String)> = diagnostics
        .iter()
        .map(|d| (d.labels[0].range.clone(), d.labels[0].message.clone()))
        .collect();
    assert_eq!(
        found,
        vec![
            (10..17, "Arithmetic needs two integers or two floats".to_string()),
            (20..29, "Comparison needs two integers or two floats".to_string()),
            (30..37, "Comparison needs two integers or two floats".to_string()),
            (50..57, "Equality needs two operands of the same type".to_string()),
            (70..78, "Logical operators need two booleans".to_string()),
            (100..112, "Arithmetic needs two integers or two floats".to_string()),
        ]
    );
    assert_eq!(count(&diagnostics, FindingKind::TypeMismatch), 6);
    let body = main_body(&typed);
    let types: Vec<Type> = body.iter().map(|s| bound_value(s).ty()).collect();
    assert_eq!(
        types,
        vec![
            Type::Float,
            Type::Unknown,
            Type::Unknown,
            Type::Unknown,
            Type::Bool,
            Type::Unknown,
            Type::Bool,
            Type::Unknown,
            Type::Bool,
            Type::Unknown,
        ]
    );
}

#[test]
fn equality_of_arrays_goes_by_element_type() {
    let ast = vec![main_with(vec![
        let_(
            "same",
            binop(
                Expr::ArrayLit(vec![num(1, 1)], at(0, 3)),
                BinOp::Eq,
                Expr::ArrayLit(vec![], at(7, 9)),
                0,
                9,
            ),
        ),
        let_(
            "differ",
            binop(
                Expr::ArrayLit(vec![num(1, 11)], at(10, 13)),
                BinOp::Eq,
                Expr::ArrayLit(vec![string("a", 18)], at(17, 22)),
                10,
                22,
            ),
        ),
    ])];
    let (typed, diagnostics) = analyze(&ast);
    assert_eq!(kinds(&diagnostics), vec![FindingKind::TypeMismatch]);
    assert_eq!(diagnostics[0].labels[0].range, 10..22);
    assert_eq!(bound_value(&main_body(&typed)[0]).ty(), Type::Bool);
}

#[test]
fn conditions_must_be_boolean() {
    let ast = vec![main_with(vec![
        Stmt::If(num(1, 3), vec![], None, at(0, 10)),
        Stmt::While(string("s", 17), vec![], at(11, 25)),
        Stmt::If(ident("nowhere", 30), vec![], Some(vec![]), at(27, 45)),
        Stmt::While(Expr::Error, vec![], at(46, 50)),
        Stmt::If(Expr::BoolLit(false, at(54, 59)), vec![], None, at(51, 62)),
    ])];
    let (typed, diagnostics) = analyze(&ast);
    assert_eq!(
        kinds(&diagnostics),
        vec![
            FindingKind::TypeMismatch,
            FindingKind::TypeMismatch,
            FindingKind::UnboundIdentifier,
        ]
    );
    assert_eq!(diagnostics[0].labels[0].range, 3..4);
    assert_eq!(diagnostics[0].labels[0].message, "Condition must be a boolean");
    assert_eq!(diagnostics[1].labels[0].range, 17..20);
    assert_eq!(
        main_body(&typed)[3],
        TypedStmt::While(TypedExpr::Error, vec![], at(46, 50))
    );
}

#[test]
fn assignment_rules() {
    let assign = |name: &str, e: Expr, start: usize| {
        Stmt::Assign(name.to_string(), e, at(start, start + 6))
    };
    let ast = vec![main_with(vec![
        let_("x", num(1, 0)),
        assign("x", num(2, 14), 10),
        assign("x", string("a", 24), 20),
        assign("y", num(3, 34), 30),
        assign("x", ident("nowhere", 44), 40),
        let_("list", Expr::ArrayLit(vec![], at(50, 52))),
        assign("list", Expr::ArrayLit(vec![num(1, 61)], at(60, 63)), 56),
    ])];
    let (_, diagnostics) = analyze(&ast);
    assert_eq!(
        kinds(&diagnostics),
        vec![
            FindingKind::TypeMismatch,
            FindingKind::UnboundIdentifier,
            FindingKind::UnboundIdentifier,
        ]
    );
    assert_eq!(diagnostics[0].labels[0].range, 20..26);
    assert_eq!(
        diagnostics[0].labels[0].message,
        "Assigned type differs from the type of the variable"
    );
    assert_eq!(diagnostics[1].labels[0].range, 30..36);
    assert_eq!(diagnostics[1].labels[0].message, "Identifier y not found");
    assert_eq!(diagnostics[2].labels[0].range, 44..51);
}

#[test]
fn let_shadows_and_blocks_open_no_scope() {
    let ast = vec![main_with(vec![
        let_("x", num(1, 0)),
        let_("x", string("s", 5)),
        Stmt::Assign("x".to_string(), string("t", 14), at(10, 18)),
        Stmt::Block(vec![let_("inner", num(1, 22))], at(20, 25)),
        Stmt::Assign("inner".to_string(), num(2, 34), at(26, 36)),
        Stmt::If(
            Expr::BoolLit(true, at(40, 44)),
            vec![let_("late", Expr::BoolLit(true, at(50, 54)))],
            None,
            at(37, 56),
        ),
        Stmt::While(ident("late", 63), vec![], at(57, 70)),
    ])];
    let (_, diagnostics) = analyze(&ast);
    assert_eq!(diagnostics, Vec::<Finding>::new());
}

#[test]
fn returns_must_agree() {
    let ast = vec![main_with(vec![
        Stmt::Return(num(1, 7), at(0, 9)),
        Stmt::Return(num(2, 17), at(10, 19)),
        Stmt::Return(string("a", 27), at(20, 31)),
        stmt(Expr::Return(Box::new(Expr::BoolLit(true, at(40, 44))), at(33, 44))),
        Stmt::Return(ident("nowhere", 50), at(45, 58)),
    ])];
    let (_, diagnostics) = analyze(&ast);
    assert_eq!(
        kinds(&diagnostics),
        vec![
            FindingKind::TypeMismatch,
            FindingKind::TypeMismatch,
            FindingKind::UnboundIdentifier,
        ]
    );
    let d = &diagnostics[0];
    assert_eq!(d.message, "Type mismatch");
    assert_eq!(d.labels.len(), 2);
    assert_eq!(d.labels[0].style, MarkerStyle::Primary);
    assert_eq!(d.labels[0].range, 20..31);
    assert_eq!(d.labels[0].message, "Returned type differs from an earlier return");
    assert_eq!(d.labels[1].style, MarkerStyle::Secondary);
    assert_eq!(d.labels[1].range, 0..9);
    assert_eq!(d.labels[1].message, "Note: Earlier return here");
    assert_eq!(diagnostics[1].labels[0].range, 33..44);
    assert_eq!(diagnostics[1].labels[1].range, 0..9);
}

#[test]
fn unknown_return_gives_way_to_a_known_one() {
    let ast = vec![
        func(
            "f",
            &["a"],
            vec![
                Stmt::Return(ident("a", 7), at(0, 9)),
                Stmt::Return(num(1, 17), at(10, 19)),
                Stmt::Return(string("s", 27), at(20, 31)),
            ],
            0,
            40,
        ),
        main_with(vec![let_("x", call("f", vec![num(0, 52)], 50, 54))]),
    ];
    let (typed, diagnostics) = analyze(&ast);
    assert_eq!(kinds(&diagnostics), vec![FindingKind::TypeMismatch]);
    assert_eq!(diagnostics[0].labels[0].range, 20..31);
    assert_eq!(diagnostics[0].labels[1].range, 10..19);
    assert_eq!(bound_value(&main_body(&typed)[0]).ty(), Type::Int);
}

#[test]
fn call_has_the_return_type_of_an_earlier_function() {
    let ast = vec![
        func("name", &[], vec![Stmt::Return(string("s", 7), at(0, 11))], 0, 12),
        main_with(vec![let_(
            "y",
            binop(call("name", vec![], 20, 26), BinOp::Add, num(1, 29), 20, 30),
        )]),
    ];
    let (typed, diagnostics) = analyze(&ast);
    assert_eq!(kinds(&diagnostics), vec![FindingKind::TypeMismatch]);
    assert_eq!(diagnostics[0].labels[0].range, 20..30);
    match bound_value(&main_body(&typed)[0]) {
        TypedExpr::BinOp(lhs, _, _, _, t) => {
            assert_eq!(lhs.ty(), Type::String);
            assert_eq!(*t, Type::Unknown);
        }
        _ => panic!("the value is a binary operation"),
    }
}

#[test]
fn call_of_a_later_function_has_unknown_type() {
    let ast = vec![
        main_with(vec![
            let_("y", binop(call("later", vec![], 20, 27), BinOp::Add, num(1, 30), 20, 31)),
            let_("me", call("main", vec![], 40, 46)),
        ]),
        func("later", &[], vec![Stmt::Return(string("s", 57), at(50, 61))], 50, 62),
    ];
    let (typed, diagnostics) = analyze(&ast);
    assert!(diagnostics.is_empty());
    let body = main_body(&typed);
    assert_eq!(bound_value(&body[0]).ty(), Type::Unknown);
    assert_eq!(bound_value(&body[1]).ty(), Type::Unknown);
}

#[test]
fn function_without_return_has_unknown_type() {
    let ast = vec![
        func("quiet", &[], vec![], 0, 12),
        main_with(vec![let_("x", call("quiet", vec![], 20, 27))]),
    ];
    let (typed, diagnostics) = analyze(&ast);
    assert!(diagnostics.is_empty());
    assert_eq!(bound_value(&main_body(&typed)[0]).ty(), Type::Unknown);
}

#[test]
fn call_with_wrong_arity_has_unknown_type() {
    let ast = vec![
        func("one", &["a"], vec![Stmt::Return(num(1, 7), at(0, 9))], 0, 12),
        main_with(vec![let_(
            "x",
            binop(call("one", vec![], 20, 25), BinOp::And, Expr::BoolLit(true, at(29, 33)), 20, 33),
        )]),
    ];
    let (typed, diagnostics) = analyze(&ast);
    assert_eq!(kinds(&diagnostics), vec![FindingKind::ArityMismatch]);
    assert_eq!(bound_value(&main_body(&typed)[0]).ty(), Type::Unknown);
}

#[test]
fn calls_are_resolved_wherever_they_stand() {
    let unknown = |name: &str, start: usize| call(name, vec![], start, start + name.len() + 2);
    let ast = vec![main_with(vec![
        let_("a", binop(num(1, 0), BinOp::Add, unknown("in_binop", 4), 0, 14)),
        stmt(Expr::ArrayLit(vec![unknown("in_array", 20)], at(19, 31))),
        let_("list", Expr::ArrayLit(vec![], at(32, 34))),
        stmt(Expr::ArrayIndex("list".to_string(), Box::new(unknown("in_index", 40)), at(35, 51))),
        Stmt::Assign("a".to_string(), unknown("in_assign", 60), at(56, 71)),
        Stmt::If(
            unknown("in_if", 80),
            vec![stmt(unknown("in_then", 90))],
            Some(vec![stmt(unknown("in_else", 100))]),
            at(77, 110),
        ),
        Stmt::While(unknown("in_while", 120), vec![Stmt::Block(vec![stmt(unknown("in_block", 140))], at(139, 151))], at(114, 152)),
        stmt(call("outer", vec![unknown("inner", 166)], 160, 174)),
        Stmt::Return(unknown("in_return", 187), at(180, 198)),
        stmt(Expr::Return(Box::new(unknown("in_return_expr", 210)), at(203, 226))),
    ])];
    let (_, diagnostics) = analyze(&ast);
    let names: Vec<String> = diagnostics
        .iter()
        .filter(|d| d.kind == FindingKind::UnknownFunctionCall)
        .map(|d| d.labels[0].message.clone())
        .collect();
    let expected: Vec<String> = [
        "in_binop", "in_array", "in_index", "in_assign", "in_if", "in_then", "in_else",
        "in_while", "in_block", "outer", "inner", "in_return", "in_return_expr",
    ]
    .iter()
    .map(|n| format!("Function {} not found", n))
    .collect();
    assert_eq!(names, expected);
    assert_eq!(diagnostics.len(), expected.len());
}

#[test]
fn findings_come_in_the_order_of_the_checks() {
    let ast = vec![
        func("first", &[], vec![stmt(ident("a", 5)), stmt(call("gone", vec![], 10, 16))], 0, 20),
        func("second", &[], vec![stmt(call("first", vec![num(1, 36)], 30, 38)), stmt(Expr::Break(at(40, 45)))], 21, 50),
    ];
    let (_, diagnostics) = analyze(&ast);
    assert_eq!(
        kinds(&diagnostics),
        vec![
            FindingKind::MissingMainFunction,
            FindingKind::UnknownFunctionCall,
            FindingKind::ArityMismatch,
            FindingKind::UnboundIdentifier,
            FindingKind::InvalidBreakContinue,
        ]
    );
}

#[test]
fn first_definition_of_a_name_wins() {
    let ast = vec![
        func("f", &["a"], vec![Stmt::Return(num(1, 7), at(2, 9))], 0, 12),
        func("f", &["a", "b"], vec![Stmt::Return(string("s", 27), at(22, 31))], 20, 32),
        main_with(vec![
            let_("x", call("f", vec![num(1, 42)], 40, 44)),
            let_("y", call("f", vec![num(1, 52), num(2, 55)], 50, 57)),
        ]),
    ];
    let (typed, diagnostics) = analyze(&ast);
    assert_eq!(kinds(&diagnostics), vec![FindingKind::ArityMismatch]);
    assert_eq!(diagnostics[0].labels[0].range, 50..57);
    assert_eq!(diagnostics[0].labels[1].range, 0..12);
    let body = main_body(&typed);
    assert_eq!(bound_value(&body[0]).ty(), Type::Int);
    assert_eq!(bound_value(&body[1]).ty(), Type::Unknown);
}

#[test]
fn error_nodes_and_imports_pass_through() {
    let ast = vec![
        TopLvl::Import("lib".to_string(), at(0, 10)),
        TopLvl::Error,
        main_with(vec![
            Stmt::Error,
            stmt(Expr::Error),
            let_("x", binop(Expr::Error, BinOp::Add, num(1, 24), 20, 25)),
        ]),
    ];
    let (typed, diagnostics) = analyze(&ast);
    assert!(diagnostics.is_empty());
    assert_eq!(typed[0], TypedTopLvl::Import("lib".to_string(), at(0, 10)));
    assert_eq!(typed[1], TypedTopLvl::Error);
    let body = main_body(&typed);
    assert_eq!(body[0], TypedStmt::Error);
    assert_eq!(body[1], TypedStmt::Expr(TypedExpr::Error, at(0, 0)));
    assert_eq!(bound_value(&body[2]).ty(), Type::Unknown);
}

#[test]
fn literals_keep_their_values() {
    let ast = vec![main_with(vec![
        stmt(Expr::Float(2.5f64.to_bits(), at(0, 3))),
        stmt(Expr::Int(-7, at(4, 6))),
        stmt(string("hi", 7)),
        stmt(Expr::BoolLit(false, at(12, 17))),
    ])];
    let (typed, diagnostics) = analyze(&ast);
    assert!(diagnostics.is_empty());
    let body = main_body(&typed);
    match bound_value(&body[0]) {
        TypedExpr::Float(bits, info) => {
            assert_eq!(f64::from_bits(*bits), 2.5);
            assert_eq!(info, &at(0, 3));
        }
        _ => panic!("the value is a float literal"),
    }
    assert_eq!(bound_value(&body[1]), &TypedExpr::Int(-7, at(4, 6)));
    assert_eq!(bound_value(&body[2]), &TypedExpr::StringLit("hi".to_string(), at(7, 11)));
    assert_eq!(bound_value(&body[3]), &TypedExpr::BoolLit(false, at(12, 17)));
    assert_eq!(bound_value(&body[0]).ty(), Type::Float);
}
