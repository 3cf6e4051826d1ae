//! What holds of the analysis as a whole, proved from the typing rules.

use super::basic_checks::{
    basic_diagnostics, entry_point_diagnostics, has_entry_point, lookup, lookup_from,
    registry_of, resolve_call, resolve_expr, resolve_exprs, resolve_functions, resolve_stmt,
    resolve_stmts,
};
use super::diagnostics::{
    arity_message, count_kind, invalid_break_continue, unknown_function_call, FindingKind,
    FindingView, MarkerStyle,
};
use super::diagnostics::{diagnostics_view, Finding};
use super::rules::{
    analysis, binop_type, check_condition, check_expr, check_exprs, check_items, check_jump,
    check_stmt, check_stmts, condition_accepts, entry_state, index_type, report, require_bound,
    span_or, Env, State,
};
use super::typechecking::{compatible, Type};
use crate::ast::{program_view, TopLvl};
use super::FunctionView;
use crate::ast::{BinOp, ExprView, SourceInfo, StmtView, TopLvlView};
use vstd::prelude::*;

verus! {

/// Inside a loop, how many loops there are around an expression makes no
/// difference to how it is checked.
pub proof fn law_expr_loop_depth(env: Env, d1: nat, d2: nat, state: State, e: ExprView)
    requires
        d1 > 0,
        d2 > 0,
    ensures
        check_expr(env, d1, state, e) == check_expr(env, d2, state, e),
    decreases e, 0nat,
{
    match e {
        ExprView::ArrayLit(items, _) => {
            law_exprs_loop_depth(env, d1, d2, state, items, items.len());
        },
        ExprView::ArrayIndex(name, index, at) => {
            law_expr_loop_depth(
                env,
                d1,
                d2,
                require_bound(state, name, at),
                *index,
            );
        },
        ExprView::BinOp(lhs, _, rhs, _) => {
            law_expr_loop_depth(env, d1, d2, state, *lhs);
            law_expr_loop_depth(env, d1, d2, check_expr(env, d1, state, *lhs).1, *rhs);
        },
        ExprView::Call(_, args, _) => {
            law_exprs_loop_depth(env, d1, d2, state, args, args.len());
        },
        ExprView::Return(value, _) => {
            law_expr_loop_depth(env, d1, d2, state, *value);
        },
        _ => {},
    }
}

/// Inside a loop, how many loops there are around a sequence of expressions
/// makes no difference to how it is checked.
pub proof fn law_exprs_loop_depth(
    env: Env,
    d1: nat,
    d2: nat,
    state: State,
    items: Seq<ExprView>,
    n: nat,
)
    requires
        d1 > 0,
        d2 > 0,
    ensures
        check_exprs(env, d1, state, items, n) == check_exprs(env, d2, state, items, n),
    decreases items, n,
{
    if n > 0 && n <= items.len() {
        law_exprs_loop_depth(env, d1, d2, state, items, (n - 1) as nat);
        law_expr_loop_depth(
            env,
            d1,
            d2,
            check_exprs(env, d1, state, items, (n - 1) as nat).1,
            items[n - 1],
        );
    }
}

/// Inside a loop, how many loops there are around a statement makes no
/// difference to how it is checked.
pub proof fn law_stmt_loop_depth(env: Env, d1: nat, d2: nat, state: State, s: StmtView)
    requires
        d1 > 0,
        d2 > 0,
    ensures
        check_stmt(env, d1, state, s) == check_stmt(env, d2, state, s),
    decreases s, 0nat,
{
    match s {
        StmtView::Expr(e, _) => {
            law_expr_loop_depth(env, d1, d2, state, e);
        },
        StmtView::If(cond, then_body, else_body, at) => {
            law_expr_loop_depth(env, d1, d2, state, cond);
            let (typed, after_cond) = check_expr(env, d1, state, cond);
            let checked = check_condition(
                after_cond,
                typed.ty(),
                span_or(typed.span(), at),
            );
            law_stmts_loop_depth(env, d1, d2, checked, then_body, then_body.len());
            match else_body {
                Some(body) => {
                    let after_then = check_stmts(env, d1, checked, then_body, then_body.len()).1;
                    law_stmts_loop_depth(env, d1, d2, after_then, body, body.len());
                },
                None => {},
            }
        },
        StmtView::While(cond, body, at) => {
            law_expr_loop_depth(env, d1, d2, state, cond);
            let (typed, after_cond) = check_expr(env, d1, state, cond);
            let checked = check_condition(
                after_cond,
                typed.ty(),
                span_or(typed.span(), at),
            );
            law_stmts_loop_depth(env, d1 + 1, d2 + 1, checked, body, body.len());
        },
        StmtView::Block(body, _) => {
            law_stmts_loop_depth(env, d1, d2, state, body, body.len());
        },
        StmtView::Return(e, _) => {
            law_expr_loop_depth(env, d1, d2, state, e);
        },
        StmtView::Let(_, e, _) => {
            law_expr_loop_depth(env, d1, d2, state, e);
        },
        StmtView::Assign(_, e, _) => {
            law_expr_loop_depth(env, d1, d2, state, e);
        },
        StmtView::Error => {},
    }
}

/// Inside a loop, how many loops there are around a sequence of statements
/// makes no difference to how it is checked.
pub proof fn law_stmts_loop_depth(
    env: Env,
    d1: nat,
    d2: nat,
    state: State,
    body: Seq<StmtView>,
    n: nat,
)
    requires
        d1 > 0,
        d2 > 0,
    ensures
        check_stmts(env, d1, state, body, n) == check_stmts(env, d2, state, body, n),
    decreases body, n,
{
    if n > 0 && n <= body.len() {
        law_stmts_loop_depth(env, d1, d2, state, body, (n - 1) as nat);
        law_stmt_loop_depth(
            env,
            d1,
            d2,
            check_stmts(env, d1, state, body, (n - 1) as nat).1,
            body[n - 1],
        );
    }
}

/// The kinds of finding that type checking reports.
pub open spec fn typing_kinds() -> Set<FindingKind> {
    set![
        FindingKind::UnboundIdentifier,
        FindingKind::TypeMismatch,
        FindingKind::InvalidBreakContinue,
    ]
}

/// The kinds of finding that call resolution reports.
pub open spec fn resolution_kinds() -> Set<FindingKind> {
    set![FindingKind::UnknownFunctionCall, FindingKind::ArityMismatch]
}

/// Whether `after` is `before` with findings added at its end, each of one of
/// the given kinds: nothing that was found is removed or changed.
pub open spec fn grows_within(
    before: Seq<FindingView>,
    after: Seq<FindingView>,
    kinds: Set<FindingKind>,
) -> bool {
    &&& before.len() <= after.len()
    &&& forall|i: int| 0 <= i < before.len() ==> after[i] == before[i]
    &&& forall|i: int| before.len() <= i < after.len() ==> kinds.contains((#[trigger] after[i]).kind)
}

/// Checking an expression binds nothing, removes no finding, and adds only
/// findings of the kinds of type checking.
pub proof fn law_check_expr_appends(env: Env, depth: nat, state: State, e: ExprView)
    ensures
        check_expr(env, depth, state, e).1.scope == state.scope,
        grows_within(state.diags, check_expr(env, depth, state, e).1.diags, typing_kinds()),
    decreases e, 0nat,
{
    match e {
        ExprView::ArrayLit(items, _) => {
            law_check_exprs_appends(env, depth, state, items, items.len());
        },
        ExprView::ArrayIndex(name, index, at) => {
            law_check_expr_appends(env, depth, require_bound(state, name, at), *index);
        },
        ExprView::BinOp(lhs, _, rhs, _) => {
            law_check_expr_appends(env, depth, state, *lhs);
            law_check_expr_appends(env, depth, check_expr(env, depth, state, *lhs).1, *rhs);
        },
        ExprView::Call(_, args, _) => {
            law_check_exprs_appends(env, depth, state, args, args.len());
        },
        ExprView::Return(value, _) => {
            law_check_expr_appends(env, depth, state, *value);
        },
        _ => {},
    }
}

/// Checking a sequence of expressions binds nothing, removes no finding, and
/// adds only findings of the kinds of type checking.
pub proof fn law_check_exprs_appends(
    env: Env,
    depth: nat,
    state: State,
    items: Seq<ExprView>,
    n: nat,
)
    ensures
        check_exprs(env, depth, state, items, n).1.scope == state.scope,
        grows_within(state.diags, check_exprs(env, depth, state, items, n).1.diags, typing_kinds()),
        check_exprs(env, depth, state, items, n).0.len() == if n <= items.len() {
            n
        } else {
            0
        },
    decreases items, n,
{
    if n > 0 && n <= items.len() {
        law_check_exprs_appends(env, depth, state, items, (n - 1) as nat);
        law_check_expr_appends(
            env,
            depth,
            check_exprs(env, depth, state, items, (n - 1) as nat).1,
            items[n - 1],
        );
    }
}

/// Checking a statement removes no finding, and adds only findings of the
/// kinds of type checking.
pub proof fn law_check_stmt_appends(env: Env, depth: nat, state: State, s: StmtView)
    ensures
        grows_within(state.diags, check_stmt(env, depth, state, s).1.diags, typing_kinds()),
    decreases s, 0nat,
{
    match s {
        StmtView::Expr(e, _) => {
            law_check_expr_appends(env, depth, state, e);
        },
        StmtView::If(cond, then_body, else_body, at) => {
            law_check_expr_appends(env, depth, state, cond);
            let (typed, after_cond) = check_expr(env, depth, state, cond);
            let checked = check_condition(after_cond, typed.ty(), span_or(typed.span(), at));
            law_check_stmts_appends(env, depth, checked, then_body, then_body.len());
            match else_body {
                Some(body) => {
                    let after_then = check_stmts(env, depth, checked, then_body, then_body.len()).1;
                    law_check_stmts_appends(env, depth, after_then, body, body.len());
                },
                None => {},
            }
        },
        StmtView::While(cond, body, at) => {
            law_check_expr_appends(env, depth, state, cond);
            let (typed, after_cond) = check_expr(env, depth, state, cond);
            let checked = check_condition(after_cond, typed.ty(), span_or(typed.span(), at));
            law_check_stmts_appends(env, depth + 1, checked, body, body.len());
        },
        StmtView::Block(body, _) => {
            law_check_stmts_appends(env, depth, state, body, body.len());
        },
        StmtView::Return(e, _) => {
            law_check_expr_appends(env, depth, state, e);
        },
        StmtView::Let(_, e, _) => {
            law_check_expr_appends(env, depth, state, e);
        },
        StmtView::Assign(_, e, _) => {
            law_check_expr_appends(env, depth, state, e);
        },
        StmtView::Error => {},
    }
}

/// Checking a sequence of statements removes no finding, and adds only
/// findings of the kinds of type checking.
pub proof fn law_check_stmts_appends(
    env: Env,
    depth: nat,
    state: State,
    body: Seq<StmtView>,
    n: nat,
)
    ensures
        grows_within(state.diags, check_stmts(env, depth, state, body, n).1.diags, typing_kinds()),
    decreases body, n,
{
    if n > 0 && n <= body.len() {
        law_check_stmts_appends(env, depth, state, body, (n - 1) as nat);
        law_check_stmt_appends(
            env,
            depth,
            check_stmts(env, depth, state, body, (n - 1) as nat).1,
            body[n - 1],
        );
    }
}

/// Checking the items of a program removes no finding, and adds only findings
/// of the kinds of type checking.
pub proof fn law_check_items_appends(
    funcs: Seq<FunctionView>,
    items: Seq<TopLvlView>,
    n: nat,
    diags: Seq<FindingView>,
)
    ensures
        grows_within(diags, check_items(funcs, items, n, diags).diags, typing_kinds()),
    decreases n,
{
    if n > 0 && n <= items.len() {
        law_check_items_appends(funcs, items, (n - 1) as nat, diags);
        let before = check_items(funcs, items, (n - 1) as nat, diags);
        match items[n - 1] {
            TopLvlView::FuncDef(_, params, body, _) => {
                law_check_stmts_appends(
                    Env { funcs, rets: before.rets },
                    0,
                    entry_state(params, before.diags),
                    body,
                    body.len(),
                );
            },
            _ => {},
        }
    }
}

/// What is reported of one call is of the kinds of call resolution.
pub proof fn law_resolve_call_kinds(
    funcs: Seq<FunctionView>,
    name: Seq<char>,
    argc: nat,
    at: SourceInfo,
    found: Seq<FindingView>,
)
    ensures
        grows_within(found, found + resolve_call(funcs, name, argc, at), resolution_kinds()),
{
}

/// Resolving the calls of an expression removes no finding, and adds only
/// findings of the kinds of call resolution.
pub proof fn law_resolve_expr_appends(
    funcs: Seq<FunctionView>,
    found: Seq<FindingView>,
    e: ExprView,
)
    ensures
        grows_within(found, resolve_expr(funcs, found, e), resolution_kinds()),
    decreases e, 0nat,
{
    match e {
        ExprView::ArrayLit(items, _) => {
            law_resolve_exprs_appends(funcs, found, items, items.len());
        },
        ExprView::ArrayIndex(_, index, _) => {
            law_resolve_expr_appends(funcs, found, *index);
        },
        ExprView::BinOp(lhs, _, rhs, _) => {
            law_resolve_expr_appends(funcs, found, *lhs);
            law_resolve_expr_appends(funcs, resolve_expr(funcs, found, *lhs), *rhs);
        },
        ExprView::Call(name, args, at) => {
            law_resolve_call_kinds(funcs, name, args.len(), at, found);
            law_resolve_exprs_appends(
                funcs,
                found + resolve_call(funcs, name, args.len(), at),
                args,
                args.len(),
            );
        },
        ExprView::Return(value, _) => {
            law_resolve_expr_appends(funcs, found, *value);
        },
        _ => {},
    }
}

/// Resolving the calls of a sequence of expressions removes no finding, and
/// adds only findings of the kinds of call resolution.
pub proof fn law_resolve_exprs_appends(
    funcs: Seq<FunctionView>,
    found: Seq<FindingView>,
    items: Seq<ExprView>,
    n: nat,
)
    ensures
        grows_within(found, resolve_exprs(funcs, found, items, n), resolution_kinds()),
    decreases items, n,
{
    if n > 0 && n <= items.len() {
        law_resolve_exprs_appends(funcs, found, items, (n - 1) as nat);
        law_resolve_expr_appends(
            funcs,
            resolve_exprs(funcs, found, items, (n - 1) as nat),
            items[n - 1],
        );
    }
}

/// Resolving the calls of a statement removes no finding, and adds only
/// findings of the kinds of call resolution.
pub proof fn law_resolve_stmt_appends(
    funcs: Seq<FunctionView>,
    found: Seq<FindingView>,
    s: StmtView,
)
    ensures
        grows_within(found, resolve_stmt(funcs, found, s), resolution_kinds()),
    decreases s, 0nat,
{
    match s {
        StmtView::Expr(e, _) => {
            law_resolve_expr_appends(funcs, found, e);
        },
        StmtView::If(cond, then_body, else_body, _) => {
            law_resolve_expr_appends(funcs, found, cond);
            let after_cond = resolve_expr(funcs, found, cond);
            law_resolve_stmts_appends(funcs, after_cond, then_body, then_body.len());
            match else_body {
                Some(body) => {
                    let after_then = resolve_stmts(funcs, after_cond, then_body, then_body.len());
                    law_resolve_stmts_appends(funcs, after_then, body, body.len());
                },
                None => {},
            }
        },
        StmtView::While(cond, body, _) => {
            law_resolve_expr_appends(funcs, found, cond);
            law_resolve_stmts_appends(funcs, resolve_expr(funcs, found, cond), body, body.len());
        },
        StmtView::Block(body, _) => {
            law_resolve_stmts_appends(funcs, found, body, body.len());
        },
        StmtView::Return(e, _) => {
            law_resolve_expr_appends(funcs, found, e);
        },
        StmtView::Let(_, e, _) => {
            law_resolve_expr_appends(funcs, found, e);
        },
        StmtView::Assign(_, e, _) => {
            law_resolve_expr_appends(funcs, found, e);
        },
        StmtView::Error => {},
    }
}

/// Resolving the calls of a sequence of statements removes no finding, and
/// adds only findings of the kinds of call resolution.
pub proof fn law_resolve_stmts_appends(
    funcs: Seq<FunctionView>,
    found: Seq<FindingView>,
    body: Seq<StmtView>,
    n: nat,
)
    ensures
        grows_within(found, resolve_stmts(funcs, found, body, n), resolution_kinds()),
    decreases body, n,
{
    if n > 0 && n <= body.len() {
        law_resolve_stmts_appends(funcs, found, body, (n - 1) as nat);
        law_resolve_stmt_appends(
            funcs,
            resolve_stmts(funcs, found, body, (n - 1) as nat),
            body[n - 1],
        );
    }
}

/// Resolving the calls of the function bodies removes no finding, and adds
/// only findings of the kinds of call resolution.
pub proof fn law_resolve_functions_appends(
    funcs: Seq<FunctionView>,
    found: Seq<FindingView>,
    n: nat,
)
    ensures
        grows_within(found, resolve_functions(funcs, found, n), resolution_kinds()),
    decreases n,
{
    if n > 0 && n <= funcs.len() {
        law_resolve_functions_appends(funcs, found, (n - 1) as nat);
        let body = funcs[n - 1].body;
        law_resolve_stmts_appends(
            funcs,
            resolve_functions(funcs, found, (n - 1) as nat),
            body,
            body.len(),
        );
    }
}

/// Findings added at the end, none of them of a given kind, leave the number
/// of findings of that kind as it was.
pub proof fn law_count_unchanged(
    before: Seq<FindingView>,
    after: Seq<FindingView>,
    kinds: Set<FindingKind>,
    kind: FindingKind,
)
    requires
        grows_within(before, after, kinds),
        !kinds.contains(kind),
    ensures
        count_kind(after, kind) == count_kind(before, kind),
    decreases after.len(),
{
    if after.len() == before.len() {
        assert(after =~= before);
    } else {
        assert(grows_within(before, after.drop_last(), kinds)) by {
            assert forall|i: int| before.len() <= i < after.drop_last().len() implies kinds.contains(
                (#[trigger] after.drop_last()[i]).kind,
            ) by {
                assert(after.drop_last()[i] == after[i]);
            }
        }
        law_count_unchanged(before, after.drop_last(), kinds, kind);
        assert(kinds.contains(after[after.len() - 1].kind));
    }
}

/// A program without a function called `main` gets exactly one finding of
/// the kind `MissingMainFunction`, and a program with one gets none.
pub proof fn law_missing_main_reported_once(items: Seq<TopLvlView>)
    ensures
        count_kind(analysis(items).1, FindingKind::MissingMainFunction) == if has_entry_point(
            registry_of(items),
        ) {
            0nat
        } else {
            1nat
        },
{
    let funcs = registry_of(items);
    let first = entry_point_diagnostics(funcs);
    let second = basic_diagnostics(funcs);
    let third = analysis(items).1;
    law_resolve_functions_appends(funcs, first, funcs.len());
    law_count_unchanged(first, second, resolution_kinds(), FindingKind::MissingMainFunction);
    law_check_items_appends(funcs, items, items.len(), second);
    law_count_unchanged(second, third, typing_kinds(), FindingKind::MissingMainFunction);
    if has_entry_point(funcs) {
        assert(count_kind(first, FindingKind::MissingMainFunction) == 0);
    } else {
        assert(first.drop_last() =~= Seq::empty());
        assert(count_kind(first.drop_last(), FindingKind::MissingMainFunction) == 0);
        assert(count_kind(first, FindingKind::MissingMainFunction) == 1);
    }
}

/// The findings of the analysis come in the order of its three checks: what
/// the entry-point check reports, then what call resolution adds, each of
/// its own kinds, then what type checking adds, each of its own kinds.
/// No check removes or changes what an earlier one reported.
pub proof fn law_phases_in_order(items: Seq<TopLvlView>)
    ensures
        grows_within(
            entry_point_diagnostics(registry_of(items)),
            basic_diagnostics(registry_of(items)),
            resolution_kinds(),
        ),
        grows_within(basic_diagnostics(registry_of(items)), analysis(items).1, typing_kinds()),
{
    let funcs = registry_of(items);
    law_resolve_functions_appends(funcs, entry_point_diagnostics(funcs), funcs.len());
    law_check_items_appends(funcs, items, items.len(), basic_diagnostics(funcs));
}

/// A name refers to the first function of that name, wherever it is defined
/// more than once, and to none where no function has it.
pub proof fn law_lookup_first(funcs: Seq<FunctionView>, name: Seq<char>, from: int)
    requires
        0 <= from,
    ensures
        match lookup_from(funcs, name, from) {
            Some(i) => {
                &&& from <= i < funcs.len()
                &&& funcs[i].name == name
                &&& forall|j: int| from <= j < i ==> funcs[j].name != name
            },
            None => forall|j: int| from <= j < funcs.len() ==> funcs[j].name != name,
        },
    decreases funcs.len() - from,
{
    if from < funcs.len() && funcs[from].name != name {
        law_lookup_first(funcs, name, from + 1);
    }
}

/// A call of a function that is not defined gets one finding, of the kind
/// `UnknownFunctionCall`, at the place of the call; the number of its
/// arguments is not held against it.
pub proof fn law_undefined_call(
    funcs: Seq<FunctionView>,
    name: Seq<char>,
    argc: nat,
    at: SourceInfo,
)
    requires
        lookup(funcs, name) is None,
    ensures
        resolve_call(funcs, name, argc, at) == seq![unknown_function_call(name, at)],
        count_kind(resolve_call(funcs, name, argc, at), FindingKind::UnknownFunctionCall) == 1,
        count_kind(resolve_call(funcs, name, argc, at), FindingKind::ArityMismatch) == 0,
{
    let found = resolve_call(funcs, name, argc, at);
    assert(found.drop_last() =~= Seq::empty());
    assert(count_kind(found.drop_last(), FindingKind::UnknownFunctionCall) == 0);
    assert(count_kind(found.drop_last(), FindingKind::ArityMismatch) == 0);
}

/// A call that gives a defined function another number of arguments than it
/// declares gets one finding, of the kind `ArityMismatch`: its message names
/// both numbers, its first label marks the call, and its second label marks
/// the definition of the function.
pub proof fn law_wrong_arity(funcs: Seq<FunctionView>, name: Seq<char>, argc: nat, at: SourceInfo)
    requires
        lookup(funcs, name) is Some,
        funcs[lookup(funcs, name).unwrap()].args.len() != argc,
    ensures
        ({
            let callee = funcs[lookup(funcs, name).unwrap()];
            let found = resolve_call(funcs, name, argc, at);
            &&& found.len() == 1
            &&& count_kind(found, FindingKind::ArityMismatch) == 1
            &&& count_kind(found, FindingKind::UnknownFunctionCall) == 0
            &&& found[0].kind == FindingKind::ArityMismatch
            &&& found[0].message == arity_message(callee.args.len(), argc)
            &&& found[0].labels.len() == 2
            &&& found[0].labels[0].style == MarkerStyle::Primary
            &&& found[0].labels[0].range == at.span
            &&& found[0].labels[1].style == MarkerStyle::Secondary
            &&& found[0].labels[1].range == callee.source_info.span
        }),
{
    let found = resolve_call(funcs, name, argc, at);
    assert(found.drop_last() =~= Seq::empty());
    assert(count_kind(found.drop_last(), FindingKind::UnknownFunctionCall) == 0);
    assert(count_kind(found.drop_last(), FindingKind::ArityMismatch) == 0);
}

/// The analysis is a function of the program: two runs on the same program
/// give the same findings, in the same order.
pub proof fn law_analysis_repeats(ast: Seq<TopLvl>, first: Seq<Finding>, second: Seq<Finding>)
    requires
        diagnostics_view(first) == analysis(program_view(ast)).1,
        diagnostics_view(second) == analysis(program_view(ast)).1,
    ensures
        diagnostics_view(first) == diagnostics_view(second),
{
}

/// A type that is unknown breaks no rule, on either side.
pub proof fn law_unknown_breaks_no_rule(op: BinOp, t: Type)
    ensures
        binop_type(op, Type::Unknown, t) == Some(Type::Unknown),
        binop_type(op, t, Type::Unknown) == Some(Type::Unknown),
        index_type(Type::Unknown, t) == Some(Type::Unknown),
        index_type(t, Type::Unknown) == Some(Type::Unknown),
        condition_accepts(Type::Unknown),
        compatible(Type::Unknown, t),
        compatible(t, Type::Unknown),
{
}

/// A binary operation with an operand of unknown type adds no finding of its
/// own: what is found is what its operands gave, and its type is unknown.
pub proof fn law_unknown_operand_adds_nothing(
    env: Env,
    depth: nat,
    state: State,
    lhs: ExprView,
    op: BinOp,
    rhs: ExprView,
    at: SourceInfo,
)
    ensures
        ({
            let (left, middle) = check_expr(env, depth, state, lhs);
            let (right, after) = check_expr(env, depth, middle, rhs);
            let whole = check_expr(
                env,
                depth,
                state,
                ExprView::BinOp(Box::new(lhs), op, Box::new(rhs), at),
            );
            left.ty() == Type::Unknown || right.ty() == Type::Unknown ==> whole.1 == after
                && whole.0.ty() == Type::Unknown
        }),
{
}

/// A binary operation whose operands break the rule of its operator adds one
/// finding, and its type is unknown: so the operation around it adds none.
pub proof fn law_mismatch_reported_once(
    env: Env,
    depth: nat,
    state: State,
    lhs: ExprView,
    inner: BinOp,
    rhs: ExprView,
    inner_at: SourceInfo,
    outer: BinOp,
    other: ExprView,
    outer_at: SourceInfo,
)
    ensures
        ({
            let (left, middle) = check_expr(env, depth, state, lhs);
            let (right, after) = check_expr(env, depth, middle, rhs);
            let broken = ExprView::BinOp(Box::new(lhs), inner, Box::new(rhs), inner_at);
            let whole = ExprView::BinOp(Box::new(broken), outer, Box::new(other), outer_at);
            binop_type(inner, left.ty(), right.ty()) is None ==> {
                &&& check_expr(env, depth, state, broken).0.ty() == Type::Unknown
                &&& check_expr(env, depth, state, broken).1.diags.len() == after.diags.len() + 1
                &&& check_expr(env, depth, state, whole).1 == check_expr(
                    env,
                    depth,
                    check_expr(env, depth, state, broken).1,
                    other,
                ).1
            }
        }),
{
}

/// A `break` or `continue` outside every loop gets one finding, of the kind
/// `InvalidBreakContinue`; inside a loop it gets none.
pub proof fn law_jump_needs_loop(env: Env, depth: nat, state: State, at: SourceInfo)
    ensures
        check_expr(env, depth, state, ExprView::Break(at)).1 == check_jump(state, depth, at),
        check_expr(env, depth, state, ExprView::Continue(at)).1 == check_jump(state, depth, at),
        depth == 0 ==> check_jump(state, depth, at) == report(state, invalid_break_continue(at)),
        depth > 0 ==> check_jump(state, depth, at) == state,
{
}

/// A `break` that is a statement of a function body gets a finding of the
/// kind `InvalidBreakContinue`; the same `break` as the body of one `while`
/// gets none: all that is found there is what the condition gave.
pub proof fn law_break_at_top_level_and_in_loop(
    env: Env,
    state: State,
    at: SourceInfo,
    stmt_at: SourceInfo,
    cond: ExprView,
    loop_at: SourceInfo,
)
    ensures
        ({
            let jump = StmtView::Expr(ExprView::Break(at), stmt_at);
            let (typed, after_cond) = check_expr(env, 0, state, cond);
            &&& check_stmt(env, 0, state, jump).1 == report(state, invalid_break_continue(at))
            &&& check_stmt(env, 0, state, StmtView::While(cond, seq![jump], loop_at)).1
                == check_condition(after_cond, typed.ty(), span_or(typed.span(), loop_at))
        }),
{
    let jump = StmtView::Expr(ExprView::Break(at), stmt_at);
    let body = seq![jump];
    let (typed, after_cond) = check_expr(env, 0, state, cond);
    let checked = check_condition(after_cond, typed.ty(), span_or(typed.span(), loop_at));
    assert(body.len() == 1);
    assert(body[0] == jump);
    assert(check_stmts(env, 1, checked, body, 0).1 == checked);
    assert(check_stmts(env, 1, checked, body, 1).1 == check_stmt(env, 1, checked, jump).1);
}

} // verus!
