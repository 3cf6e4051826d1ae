//! Programs that keep every rule, and the proof that the analysis finds
//! nothing in them.

use super::basic_checks::{
    basic_diagnostics, entry_point_diagnostics, has_entry_point, lookup, registry_of,
    resolve_call, resolve_expr, resolve_exprs, resolve_functions, resolve_stmt, resolve_stmts,
};
use super::diagnostics::FindingView;
use super::laws::{
    law_check_expr_appends, law_check_exprs_appends, law_check_items_appends,
    law_check_stmt_appends, law_check_stmts_appends, law_resolve_expr_appends,
    law_resolve_exprs_appends, law_resolve_functions_appends, law_resolve_stmt_appends,
    law_resolve_stmts_appends,
};
use super::rules::{
    analysis, binop_type, check_condition, check_expr, check_exprs, check_items, check_stmt,
    check_stmts, condition_accepts, elements_agreement, entry_state, index_type, require_bound,
    span_or, Env, State,
};
use super::typechecking::compatible;
use super::typechecking::Type;
use super::FunctionView;
use crate::ast::{ExprView, StmtView, TopLvlView};
use vstd::prelude::*;

verus! {

/// Whether a call names a defined function and gives it as many arguments as
/// it declares.
pub open spec fn call_resolves(funcs: Seq<FunctionView>, name: Seq<char>, argc: nat) -> bool {
    match lookup(funcs, name) {
        Some(i) => funcs[i].args.len() == argc,
        None => false,
    }
}

/// Whether every call in the expression resolves.
pub open spec fn expr_calls_resolve(funcs: Seq<FunctionView>, e: ExprView) -> bool
    decreases e,
{
    match e {
        ExprView::ArrayLit(items, _) => forall|i: int|
            0 <= i < items.len() ==> expr_calls_resolve(funcs, #[trigger] items[i]),
        ExprView::ArrayIndex(_, index, _) => expr_calls_resolve(funcs, *index),
        ExprView::BinOp(lhs, _, rhs, _) => expr_calls_resolve(funcs, *lhs) && expr_calls_resolve(
            funcs,
            *rhs,
        ),
        ExprView::Call(name, args, _) => call_resolves(funcs, name, args.len()) && forall|i: int|
            0 <= i < args.len() ==> expr_calls_resolve(funcs, #[trigger] args[i]),
        ExprView::Return(value, _) => expr_calls_resolve(funcs, *value),
        _ => true,
    }
}

/// Whether every call in the statement resolves.
pub open spec fn stmt_calls_resolve(funcs: Seq<FunctionView>, s: StmtView) -> bool
    decreases s,
{
    match s {
        StmtView::Expr(e, _) => expr_calls_resolve(funcs, e),
        StmtView::If(cond, then_body, else_body, _) => {
            &&& expr_calls_resolve(funcs, cond)
            &&& forall|i: int|
                0 <= i < then_body.len() ==> stmt_calls_resolve(funcs, #[trigger] then_body[i])
            &&& match else_body {
                Some(body) => forall|i: int|
                    0 <= i < body.len() ==> stmt_calls_resolve(funcs, #[trigger] body[i]),
                None => true,
            }
        },
        StmtView::While(cond, body, _) => expr_calls_resolve(funcs, cond) && forall|i: int|
            0 <= i < body.len() ==> stmt_calls_resolve(funcs, #[trigger] body[i]),
        StmtView::Block(body, _) => forall|i: int|
            0 <= i < body.len() ==> stmt_calls_resolve(funcs, #[trigger] body[i]),
        StmtView::Return(e, _) => expr_calls_resolve(funcs, e),
        StmtView::Let(_, e, _) => expr_calls_resolve(funcs, e),
        StmtView::Assign(_, e, _) => expr_calls_resolve(funcs, e),
        StmtView::Error => true,
    }
}

/// Whether every call in every function body of the program resolves.
pub open spec fn program_calls_resolve(funcs: Seq<FunctionView>) -> bool {
    forall|i: int, j: int|
        0 <= i < funcs.len() && 0 <= j < funcs[i].body.len() ==> stmt_calls_resolve(
            funcs,
            #[trigger] funcs[i].body[j],
        )
}

/// Whether a `return` of a value of type `t` goes with what the function
/// returned before.
pub open spec fn return_agrees(state: State, t: Type) -> bool {
    match state.ret {
        Some(first) => compatible(first.ty, t),
        None => true,
    }
}

/// Whether the expression keeps the typing rules, and everything in it does:
/// every name is bound, the elements of every array literal agree, every
/// index and every operation has operands that its rule accepts, every
/// `return` goes with those before it, and `break` and `continue` stand
/// inside a loop.
pub open spec fn expr_respects(env: Env, depth: nat, state: State, e: ExprView) -> bool
    decreases e, 0nat,
{
    match e {
        ExprView::Ident(name, _) => state.scope.contains_key(name),
        ExprView::ArrayLit(items, _) => {
            &&& exprs_respect(env, depth, state, items, items.len())
            &&& elements_agreement(
                check_exprs(env, depth, state, items, items.len()).0,
                items.len(),
            ) is Agreed
        },
        ExprView::ArrayIndex(name, index, _) => {
            &&& state.scope.contains_key(name)
            &&& expr_respects(env, depth, state, *index)
            &&& index_type(state.scope[name], check_expr(env, depth, state, *index).0.ty()) is Some
        },
        ExprView::BinOp(lhs, op, rhs, _) => {
            let (left, middle) = check_expr(env, depth, state, *lhs);
            &&& expr_respects(env, depth, state, *lhs)
            &&& expr_respects(env, depth, middle, *rhs)
            &&& binop_type(op, left.ty(), check_expr(env, depth, middle, *rhs).0.ty()) is Some
        },
        ExprView::Call(_, args, _) => exprs_respect(env, depth, state, args, args.len()),
        ExprView::Return(value, _) => {
            let (typed, after) = check_expr(env, depth, state, *value);
            expr_respects(env, depth, state, *value) && return_agrees(after, typed.ty())
        },
        ExprView::Break(_) => depth > 0,
        ExprView::Continue(_) => depth > 0,
        _ => true,
    }
}

/// Whether the first `n` of the expressions keep the typing rules, each in
/// the state that those before it leave.
pub open spec fn exprs_respect(
    env: Env,
    depth: nat,
    state: State,
    items: Seq<ExprView>,
    n: nat,
) -> bool
    decreases items, n,
{
    if n == 0 || n > items.len() {
        true
    } else {
        &&& exprs_respect(env, depth, state, items, (n - 1) as nat)
        &&& expr_respects(
            env,
            depth,
            check_exprs(env, depth, state, items, (n - 1) as nat).1,
            items[n - 1],
        )
    }
}

/// Whether the statement keeps the typing rules, and everything in it does:
/// besides what holds of its expressions, every condition is a boolean, and
/// every assignment goes to a bound variable of a type that goes with the value.
pub open spec fn stmt_respects(env: Env, depth: nat, state: State, s: StmtView) -> bool
    decreases s, 0nat,
{
    match s {
        StmtView::Expr(e, _) => expr_respects(env, depth, state, e),
        StmtView::If(cond, then_body, else_body, _) => {
            let (typed, after_cond) = check_expr(env, depth, state, cond);
            &&& expr_respects(env, depth, state, cond)
            &&& condition_accepts(typed.ty())
            &&& stmts_respect(env, depth, after_cond, then_body, then_body.len())
            &&& match else_body {
                Some(body) => stmts_respect(
                    env,
                    depth,
                    check_stmts(env, depth, after_cond, then_body, then_body.len()).1,
                    body,
                    body.len(),
                ),
                None => true,
            }
        },
        StmtView::While(cond, body, _) => {
            let (typed, after_cond) = check_expr(env, depth, state, cond);
            &&& expr_respects(env, depth, state, cond)
            &&& condition_accepts(typed.ty())
            &&& stmts_respect(env, depth + 1, after_cond, body, body.len())
        },
        StmtView::Block(body, _) => stmts_respect(env, depth, state, body, body.len()),
        StmtView::Return(e, _) => {
            let (typed, after) = check_expr(env, depth, state, e);
            expr_respects(env, depth, state, e) && return_agrees(after, typed.ty())
        },
        StmtView::Let(_, e, _) => expr_respects(env, depth, state, e),
        StmtView::Assign(name, e, _) => {
            let (typed, after) = check_expr(env, depth, state, e);
            &&& expr_respects(env, depth, state, e)
            &&& after.scope.contains_key(name)
            &&& compatible(after.scope[name], typed.ty())
        },
        StmtView::Error => true,
    }
}

/// Whether the first `n` of the statements keep the typing rules, each in the
/// state that those before it leave.
pub open spec fn stmts_respect(
    env: Env,
    depth: nat,
    state: State,
    body: Seq<StmtView>,
    n: nat,
) -> bool
    decreases body, n,
{
    if n == 0 || n > body.len() {
        true
    } else {
        &&& stmts_respect(env, depth, state, body, (n - 1) as nat)
        &&& stmt_respects(
            env,
            depth,
            check_stmts(env, depth, state, body, (n - 1) as nat).1,
            body[n - 1],
        )
    }
}

/// Whether the bodies of the functions among the first `n` top-level items
/// keep the typing rules, each against the return types of those before it.
pub open spec fn items_respect(
    funcs: Seq<FunctionView>,
    items: Seq<TopLvlView>,
    n: nat,
    diags: Seq<FindingView>,
) -> bool
    decreases n,
{
    if n == 0 || n > items.len() {
        true
    } else {
        let before = check_items(funcs, items, (n - 1) as nat, diags);
        &&& items_respect(funcs, items, (n - 1) as nat, diags)
        &&& match items[n - 1] {
            TopLvlView::FuncDef(_, params, body, _) => stmts_respect(
                Env { funcs, rets: before.rets },
                0,
                entry_state(params, before.diags),
                body,
                body.len(),
            ),
            _ => true,
        }
    }
}

/// Whether a program keeps every rule: it defines `main`, every call
/// resolves, and every function body keeps the typing rules.
pub open spec fn program_respects(items: Seq<TopLvlView>) -> bool {
    let funcs = registry_of(items);
    &&& has_entry_point(funcs)
    &&& program_calls_resolve(funcs)
    &&& items_respect(funcs, items, items.len(), Seq::empty())
}

/// Call resolution finds nothing in an expression whose calls all resolve.
pub proof fn law_resolved_expr_is_clean(
    funcs: Seq<FunctionView>,
    found: Seq<FindingView>,
    e: ExprView,
)
    requires
        expr_calls_resolve(funcs, e),
    ensures
        resolve_expr(funcs, found, e) == found,
    decreases e, 0nat,
{
    match e {
        ExprView::ArrayLit(items, _) => {
            law_resolved_exprs_are_clean(funcs, found, items, items.len());
        },
        ExprView::ArrayIndex(_, index, _) => {
            law_resolved_expr_is_clean(funcs, found, *index);
        },
        ExprView::BinOp(lhs, _, rhs, _) => {
            law_resolved_expr_is_clean(funcs, found, *lhs);
            law_resolved_expr_is_clean(funcs, found, *rhs);
        },
        ExprView::Call(name, args, at) => {
            assert(found + resolve_call(funcs, name, args.len(), at) =~= found);
            law_resolved_exprs_are_clean(funcs, found, args, args.len());
        },
        ExprView::Return(value, _) => {
            law_resolved_expr_is_clean(funcs, found, *value);
        },
        _ => {},
    }
}

/// Call resolution finds nothing in expressions whose calls all resolve.
pub proof fn law_resolved_exprs_are_clean(
    funcs: Seq<FunctionView>,
    found: Seq<FindingView>,
    items: Seq<ExprView>,
    n: nat,
)
    requires
        forall|i: int| 0 <= i < items.len() ==> expr_calls_resolve(funcs, #[trigger] items[i]),
    ensures
        resolve_exprs(funcs, found, items, n) == found,
    decreases items, n,
{
    if n > 0 && n <= items.len() {
        law_resolved_exprs_are_clean(funcs, found, items, (n - 1) as nat);
        law_resolved_expr_is_clean(funcs, found, items[n - 1]);
    }
}

/// Call resolution finds nothing in a statement whose calls all resolve.
pub proof fn law_resolved_stmt_is_clean(
    funcs: Seq<FunctionView>,
    found: Seq<FindingView>,
    s: StmtView,
)
    requires
        stmt_calls_resolve(funcs, s),
    ensures
        resolve_stmt(funcs, found, s) == found,
    decreases s, 0nat,
{
    match s {
        StmtView::Expr(e, _) => {
            law_resolved_expr_is_clean(funcs, found, e);
        },
        StmtView::If(cond, then_body, else_body, _) => {
            law_resolved_expr_is_clean(funcs, found, cond);
            law_resolved_stmts_are_clean(funcs, found, then_body, then_body.len());
            match else_body {
                Some(body) => {
                    law_resolved_stmts_are_clean(funcs, found, body, body.len());
                },
                None => {},
            }
        },
        StmtView::While(cond, body, _) => {
            law_resolved_expr_is_clean(funcs, found, cond);
            law_resolved_stmts_are_clean(funcs, found, body, body.len());
        },
        StmtView::Block(body, _) => {
            law_resolved_stmts_are_clean(funcs, found, body, body.len());
        },
        StmtView::Return(e, _) => {
            law_resolved_expr_is_clean(funcs, found, e);
        },
        StmtView::Let(_, e, _) => {
            law_resolved_expr_is_clean(funcs, found, e);
        },
        StmtView::Assign(_, e, _) => {
            law_resolved_expr_is_clean(funcs, found, e);
        },
        StmtView::Error => {},
    }
}

/// Call resolution finds nothing in statements whose calls all resolve.
pub proof fn law_resolved_stmts_are_clean(
    funcs: Seq<FunctionView>,
    found: Seq<FindingView>,
    body: Seq<StmtView>,
    n: nat,
)
    requires
        forall|i: int| 0 <= i < body.len() ==> stmt_calls_resolve(funcs, #[trigger] body[i]),
    ensures
        resolve_stmts(funcs, found, body, n) == found,
    decreases body, n,
{
    if n > 0 && n <= body.len() {
        law_resolved_stmts_are_clean(funcs, found, body, (n - 1) as nat);
        law_resolved_stmt_is_clean(funcs, found, body[n - 1]);
    }
}

/// Call resolution finds nothing in a program whose calls all resolve.
pub proof fn law_resolved_program_is_clean(
    funcs: Seq<FunctionView>,
    found: Seq<FindingView>,
    n: nat,
)
    requires
        program_calls_resolve(funcs),
    ensures
        resolve_functions(funcs, found, n) == found,
    decreases n,
{
    if n > 0 && n <= funcs.len() {
        law_resolved_program_is_clean(funcs, found, (n - 1) as nat);
        let body = funcs[n - 1].body;
        assert forall|j: int| 0 <= j < body.len() implies stmt_calls_resolve(
            funcs,
            #[trigger] body[j],
        ) by {
            assert(stmt_calls_resolve(funcs, funcs[n - 1].body[j]));
        }
        law_resolved_stmts_are_clean(funcs, found, body, body.len());
    }
}

/// Type checking finds nothing in an expression that keeps the typing rules.
pub proof fn law_respecting_expr_is_clean(env: Env, depth: nat, state: State, e: ExprView)
    requires
        expr_respects(env, depth, state, e),
    ensures
        check_expr(env, depth, state, e).1.diags == state.diags,
        check_expr(env, depth, state, e).1.scope == state.scope,
    decreases e, 0nat,
{
    match e {
        ExprView::ArrayLit(items, _) => {
            law_respecting_exprs_are_clean(env, depth, state, items, items.len());
        },
        ExprView::ArrayIndex(name, index, at) => {
            assert(require_bound(state, name, at) == state);
            law_respecting_expr_is_clean(env, depth, state, *index);
        },
        ExprView::BinOp(lhs, _, rhs, _) => {
            law_respecting_expr_is_clean(env, depth, state, *lhs);
            law_respecting_expr_is_clean(env, depth, check_expr(env, depth, state, *lhs).1, *rhs);
        },
        ExprView::Call(_, args, _) => {
            law_respecting_exprs_are_clean(env, depth, state, args, args.len());
        },
        ExprView::Return(value, _) => {
            law_respecting_expr_is_clean(env, depth, state, *value);
        },
        _ => {},
    }
}

/// Type checking finds nothing in expressions that keep the typing rules.
pub proof fn law_respecting_exprs_are_clean(
    env: Env,
    depth: nat,
    state: State,
    items: Seq<ExprView>,
    n: nat,
)
    requires
        exprs_respect(env, depth, state, items, n),
    ensures
        check_exprs(env, depth, state, items, n).1.diags == state.diags,
        check_exprs(env, depth, state, items, n).1.scope == state.scope,
        check_exprs(env, depth, state, items, n).0.len() == if n <= items.len() {
            n
        } else {
            0
        },
    decreases items, n,
{
    if n > 0 && n <= items.len() {
        law_respecting_exprs_are_clean(env, depth, state, items, (n - 1) as nat);
        law_respecting_expr_is_clean(
            env,
            depth,
            check_exprs(env, depth, state, items, (n - 1) as nat).1,
            items[n - 1],
        );
    }
}

/// Type checking finds nothing in a statement that keeps the typing rules.
pub proof fn law_respecting_stmt_is_clean(env: Env, depth: nat, state: State, s: StmtView)
    requires
        stmt_respects(env, depth, state, s),
    ensures
        check_stmt(env, depth, state, s).1.diags == state.diags,
    decreases s, 0nat,
{
    match s {
        StmtView::Expr(e, _) => {
            law_respecting_expr_is_clean(env, depth, state, e);
        },
        StmtView::If(cond, then_body, else_body, at) => {
            law_respecting_expr_is_clean(env, depth, state, cond);
            let (typed, after_cond) = check_expr(env, depth, state, cond);
            assert(check_condition(after_cond, typed.ty(), span_or(typed.span(), at))
                == after_cond);
            law_respecting_stmts_are_clean(env, depth, after_cond, then_body, then_body.len());
            match else_body {
                Some(body) => {
                    law_respecting_stmts_are_clean(
                        env,
                        depth,
                        check_stmts(env, depth, after_cond, then_body, then_body.len()).1,
                        body,
                        body.len(),
                    );
                },
                None => {},
            }
        },
        StmtView::While(cond, body, at) => {
            law_respecting_expr_is_clean(env, depth, state, cond);
            let (typed, after_cond) = check_expr(env, depth, state, cond);
            assert(check_condition(after_cond, typed.ty(), span_or(typed.span(), at))
                == after_cond);
            law_respecting_stmts_are_clean(env, depth + 1, after_cond, body, body.len());
        },
        StmtView::Block(body, _) => {
            law_respecting_stmts_are_clean(env, depth, state, body, body.len());
        },
        StmtView::Return(e, _) => {
            law_respecting_expr_is_clean(env, depth, state, e);
        },
        StmtView::Let(_, e, _) => {
            law_respecting_expr_is_clean(env, depth, state, e);
        },
        StmtView::Assign(_, e, _) => {
            law_respecting_expr_is_clean(env, depth, state, e);
        },
        StmtView::Error => {},
    }
}

/// Type checking finds nothing in statements that keep the typing rules.
pub proof fn law_respecting_stmts_are_clean(
    env: Env,
    depth: nat,
    state: State,
    body: Seq<StmtView>,
    n: nat,
)
    requires
        stmts_respect(env, depth, state, body, n),
    ensures
        check_stmts(env, depth, state, body, n).1.diags == state.diags,
    decreases body, n,
{
    if n > 0 && n <= body.len() {
        law_respecting_stmts_are_clean(env, depth, state, body, (n - 1) as nat);
        law_respecting_stmt_is_clean(
            env,
            depth,
            check_stmts(env, depth, state, body, (n - 1) as nat).1,
            body[n - 1],
        );
    }
}

/// Type checking finds nothing in a program whose function bodies keep the
/// typing rules.
pub proof fn law_respecting_items_are_clean(
    funcs: Seq<FunctionView>,
    items: Seq<TopLvlView>,
    n: nat,
    diags: Seq<FindingView>,
)
    requires
        items_respect(funcs, items, n, diags),
    ensures
        check_items(funcs, items, n, diags).diags == diags,
    decreases n,
{
    if n > 0 && n <= items.len() {
        law_respecting_items_are_clean(funcs, items, (n - 1) as nat, diags);
        let before = check_items(funcs, items, (n - 1) as nat, diags);
        match items[n - 1] {
            TopLvlView::FuncDef(_, params, body, _) => {
                law_respecting_stmts_are_clean(
                    Env { funcs, rets: before.rets },
                    0,
                    entry_state(params, before.diags),
                    body,
                    body.len(),
                );
            },
            _ => {},
        }
    }
}

/// The analysis of a program that keeps every rule finds nothing.
pub proof fn law_well_typed_program_is_clean(items: Seq<TopLvlView>)
    requires
        program_respects(items),
    ensures
        analysis(items).1 == Seq::<FindingView>::empty(),
{
    let funcs = registry_of(items);
    assert(entry_point_diagnostics(funcs) =~= Seq::empty());
    law_resolved_program_is_clean(funcs, Seq::empty(), funcs.len());
    assert(basic_diagnostics(funcs) == Seq::<FindingView>::empty());
    law_respecting_items_are_clean(funcs, items, items.len(), Seq::empty());
}

/// Where call resolution finds nothing in an expression, every call in it resolves.
pub proof fn law_clean_expr_resolves(funcs: Seq<FunctionView>, found: Seq<FindingView>, e: ExprView)
    requires
        resolve_expr(funcs, found, e).len() == found.len(),
    ensures
        expr_calls_resolve(funcs, e),
    decreases e, 0nat,
{
    match e {
        ExprView::ArrayLit(items, _) => {
            law_clean_exprs_resolve(funcs, found, items, items.len());
        },
        ExprView::ArrayIndex(_, index, _) => {
            law_clean_expr_resolves(funcs, found, *index);
        },
        ExprView::BinOp(lhs, _, rhs, _) => {
            let middle = resolve_expr(funcs, found, *lhs);
            law_resolve_expr_appends(funcs, found, *lhs);
            law_resolve_expr_appends(funcs, middle, *rhs);
            law_clean_expr_resolves(funcs, found, *lhs);
            law_clean_expr_resolves(funcs, middle, *rhs);
        },
        ExprView::Call(name, args, at) => {
            let middle = found + resolve_call(funcs, name, args.len(), at);
            law_resolve_exprs_appends(funcs, middle, args, args.len());
            law_clean_exprs_resolve(funcs, middle, args, args.len());
        },
        ExprView::Return(value, _) => {
            law_clean_expr_resolves(funcs, found, *value);
        },
        _ => {},
    }
}

/// Where call resolution finds nothing in the first `n` expressions, every
/// call in them resolves.
pub proof fn law_clean_exprs_resolve(
    funcs: Seq<FunctionView>,
    found: Seq<FindingView>,
    items: Seq<ExprView>,
    n: nat,
)
    requires
        n <= items.len(),
        resolve_exprs(funcs, found, items, n).len() == found.len(),
    ensures
        forall|i: int| 0 <= i < n ==> expr_calls_resolve(funcs, #[trigger] items[i]),
    decreases items, n,
{
    if n > 0 {
        let middle = resolve_exprs(funcs, found, items, (n - 1) as nat);
        law_resolve_exprs_appends(funcs, found, items, (n - 1) as nat);
        law_resolve_expr_appends(funcs, middle, items[n - 1]);
        law_clean_exprs_resolve(funcs, found, items, (n - 1) as nat);
        law_clean_expr_resolves(funcs, middle, items[n - 1]);
    }
}

/// Where call resolution finds nothing in a statement, every call in it resolves.
pub proof fn law_clean_stmt_resolves(funcs: Seq<FunctionView>, found: Seq<FindingView>, s: StmtView)
    requires
        resolve_stmt(funcs, found, s).len() == found.len(),
    ensures
        stmt_calls_resolve(funcs, s),
    decreases s, 0nat,
{
    match s {
        StmtView::Expr(e, _) => {
            law_clean_expr_resolves(funcs, found, e);
        },
        StmtView::If(cond, then_body, else_body, _) => {
            let after_cond = resolve_expr(funcs, found, cond);
            let after_then = resolve_stmts(funcs, after_cond, then_body, then_body.len());
            law_resolve_expr_appends(funcs, found, cond);
            law_resolve_stmts_appends(funcs, after_cond, then_body, then_body.len());
            match else_body {
                Some(body) => {
                    law_resolve_stmts_appends(funcs, after_then, body, body.len());
                    law_clean_stmts_resolve(funcs, after_then, body, body.len());
                },
                None => {},
            }
            law_clean_expr_resolves(funcs, found, cond);
            law_clean_stmts_resolve(funcs, after_cond, then_body, then_body.len());
        },
        StmtView::While(cond, body, _) => {
            let after_cond = resolve_expr(funcs, found, cond);
            law_resolve_expr_appends(funcs, found, cond);
            law_resolve_stmts_appends(funcs, after_cond, body, body.len());
            law_clean_expr_resolves(funcs, found, cond);
            law_clean_stmts_resolve(funcs, after_cond, body, body.len());
        },
        StmtView::Block(body, _) => {
            law_clean_stmts_resolve(funcs, found, body, body.len());
        },
        StmtView::Return(e, _) => {
            law_clean_expr_resolves(funcs, found, e);
        },
        StmtView::Let(_, e, _) => {
            law_clean_expr_resolves(funcs, found, e);
        },
        StmtView::Assign(_, e, _) => {
            law_clean_expr_resolves(funcs, found, e);
        },
        StmtView::Error => {},
    }
}

/// Where call resolution finds nothing in the first `n` statements, every
/// call in them resolves.
pub proof fn law_clean_stmts_resolve(
    funcs: Seq<FunctionView>,
    found: Seq<FindingView>,
    body: Seq<StmtView>,
    n: nat,
)
    requires
        n <= body.len(),
        resolve_stmts(funcs, found, body, n).len() == found.len(),
    ensures
        forall|i: int| 0 <= i < n ==> stmt_calls_resolve(funcs, #[trigger] body[i]),
    decreases body, n,
{
    if n > 0 {
        let middle = resolve_stmts(funcs, found, body, (n - 1) as nat);
        law_resolve_stmts_appends(funcs, found, body, (n - 1) as nat);
        law_resolve_stmt_appends(funcs, middle, body[n - 1]);
        law_clean_stmts_resolve(funcs, found, body, (n - 1) as nat);
        law_clean_stmt_resolves(funcs, middle, body[n - 1]);
    }
}

/// Where call resolution finds nothing in the first `n` function bodies,
/// every call in them resolves.
pub proof fn law_clean_functions_resolve(
    funcs: Seq<FunctionView>,
    found: Seq<FindingView>,
    n: nat,
)
    requires
        n <= funcs.len(),
        resolve_functions(funcs, found, n).len() == found.len(),
    ensures
        forall|i: int, j: int|
            0 <= i < n && 0 <= j < funcs[i].body.len() ==> stmt_calls_resolve(
                funcs,
                #[trigger] funcs[i].body[j],
            ),
    decreases n,
{
    if n > 0 {
        let middle = resolve_functions(funcs, found, (n - 1) as nat);
        let body = funcs[n - 1].body;
        law_resolve_functions_appends(funcs, found, (n - 1) as nat);
        law_resolve_stmts_appends(funcs, middle, body, body.len());
        law_clean_functions_resolve(funcs, found, (n - 1) as nat);
        law_clean_stmts_resolve(funcs, middle, body, body.len());
    }
}

/// Where type checking finds nothing in an expression, the expression keeps
/// the typing rules.
pub proof fn law_clean_expr_respects(env: Env, depth: nat, state: State, e: ExprView)
    requires
        check_expr(env, depth, state, e).1.diags.len() == state.diags.len(),
    ensures
        expr_respects(env, depth, state, e),
    decreases e, 0nat,
{
    match e {
        ExprView::ArrayLit(items, _) => {
            law_check_exprs_appends(env, depth, state, items, items.len());
            law_clean_exprs_respect(env, depth, state, items, items.len());
        },
        ExprView::ArrayIndex(name, index, at) => {
            let bound = require_bound(state, name, at);
            law_check_expr_appends(env, depth, bound, *index);
            law_clean_expr_respects(env, depth, bound, *index);
        },
        ExprView::BinOp(lhs, _, rhs, _) => {
            let middle = check_expr(env, depth, state, *lhs).1;
            law_check_expr_appends(env, depth, state, *lhs);
            law_check_expr_appends(env, depth, middle, *rhs);
            law_clean_expr_respects(env, depth, state, *lhs);
            law_clean_expr_respects(env, depth, middle, *rhs);
        },
        ExprView::Call(_, args, _) => {
            law_clean_exprs_respect(env, depth, state, args, args.len());
        },
        ExprView::Return(value, _) => {
            law_check_expr_appends(env, depth, state, *value);
            law_clean_expr_respects(env, depth, state, *value);
        },
        _ => {},
    }
}

/// Where type checking finds nothing in the first `n` expressions, they keep
/// the typing rules.
pub proof fn law_clean_exprs_respect(
    env: Env,
    depth: nat,
    state: State,
    items: Seq<ExprView>,
    n: nat,
)
    requires
        n <= items.len(),
        check_exprs(env, depth, state, items, n).1.diags.len() == state.diags.len(),
    ensures
        exprs_respect(env, depth, state, items, n),
    decreases items, n,
{
    if n > 0 {
        let middle = check_exprs(env, depth, state, items, (n - 1) as nat).1;
        law_check_exprs_appends(env, depth, state, items, (n - 1) as nat);
        law_check_expr_appends(env, depth, middle, items[n - 1]);
        law_clean_exprs_respect(env, depth, state, items, (n - 1) as nat);
        law_clean_expr_respects(env, depth, middle, items[n - 1]);
    }
}

/// Where type checking finds nothing in a statement, the statement keeps the
/// typing rules.
pub proof fn law_clean_stmt_respects(env: Env, depth: nat, state: State, s: StmtView)
    requires
        check_stmt(env, depth, state, s).1.diags.len() == state.diags.len(),
    ensures
        stmt_respects(env, depth, state, s),
    decreases s, 0nat,
{
    match s {
        StmtView::Expr(e, _) => {
            law_clean_expr_respects(env, depth, state, e);
        },
        StmtView::If(cond, then_body, else_body, at) => {
            let (typed, after_cond) = check_expr(env, depth, state, cond);
            let checked = check_condition(after_cond, typed.ty(), span_or(typed.span(), at));
            let after_then = check_stmts(env, depth, checked, then_body, then_body.len()).1;
            law_check_expr_appends(env, depth, state, cond);
            law_check_stmts_appends(env, depth, checked, then_body, then_body.len());
            match else_body {
                Some(body) => {
                    law_check_stmts_appends(env, depth, after_then, body, body.len());
                    law_clean_stmts_respect(env, depth, after_then, body, body.len());
                },
                None => {},
            }
            law_clean_expr_respects(env, depth, state, cond);
            law_clean_stmts_respect(env, depth, checked, then_body, then_body.len());
        },
        StmtView::While(cond, body, at) => {
            let (typed, after_cond) = check_expr(env, depth, state, cond);
            let checked = check_condition(after_cond, typed.ty(), span_or(typed.span(), at));
            law_check_expr_appends(env, depth, state, cond);
            law_check_stmts_appends(env, depth + 1, checked, body, body.len());
            law_clean_expr_respects(env, depth, state, cond);
            law_clean_stmts_respect(env, depth + 1, checked, body, body.len());
        },
        StmtView::Block(body, _) => {
            law_clean_stmts_respect(env, depth, state, body, body.len());
        },
        StmtView::Return(e, _) => {
            law_check_expr_appends(env, depth, state, e);
            law_clean_expr_respects(env, depth, state, e);
        },
        StmtView::Let(_, e, _) => {
            law_clean_expr_respects(env, depth, state, e);
        },
        StmtView::Assign(_, e, _) => {
            law_check_expr_appends(env, depth, state, e);
            law_clean_expr_respects(env, depth, state, e);
        },
        StmtView::Error => {},
    }
}

/// Where type checking finds nothing in the first `n` statements, they keep
/// the typing rules.
pub proof fn law_clean_stmts_respect(
    env: Env,
    depth: nat,
    state: State,
    body: Seq<StmtView>,
    n: nat,
)
    requires
        n <= body.len(),
        check_stmts(env, depth, state, body, n).1.diags.len() == state.diags.len(),
    ensures
        stmts_respect(env, depth, state, body, n),
    decreases body, n,
{
    if n > 0 {
        let middle = check_stmts(env, depth, state, body, (n - 1) as nat).1;
        law_check_stmts_appends(env, depth, state, body, (n - 1) as nat);
        law_check_stmt_appends(env, depth, middle, body[n - 1]);
        law_clean_stmts_respect(env, depth, state, body, (n - 1) as nat);
        law_clean_stmt_respects(env, depth, middle, body[n - 1]);
    }
}

/// Where type checking finds nothing in the first `n` top-level items, their
/// function bodies keep the typing rules.
pub proof fn law_clean_items_respect(
    funcs: Seq<FunctionView>,
    items: Seq<TopLvlView>,
    n: nat,
    diags: Seq<FindingView>,
)
    requires
        n <= items.len(),
        check_items(funcs, items, n, diags).diags.len() == diags.len(),
    ensures
        items_respect(funcs, items, n, diags),
    decreases n,
{
    if n > 0 {
        let before = check_items(funcs, items, (n - 1) as nat, diags);
        law_check_items_appends(funcs, items, (n - 1) as nat, diags);
        match items[n - 1] {
            TopLvlView::FuncDef(_, params, body, _) => {
                let env = Env { funcs, rets: before.rets };
                let entry = entry_state(params, before.diags);
                law_check_stmts_appends(env, 0, entry, body, body.len());
                law_clean_stmts_respect(env, 0, entry, body, body.len());
            },
            _ => {},
        }
        law_clean_items_respect(funcs, items, (n - 1) as nat, diags);
    }
}

/// A program in which the analysis finds nothing keeps every rule: the
/// analysis finds nothing exactly in the programs that do.
pub proof fn law_clean_program_is_well_typed(items: Seq<TopLvlView>)
    ensures
        analysis(items).1.len() == 0 <==> program_respects(items),
{
    let funcs = registry_of(items);
    let first = entry_point_diagnostics(funcs);
    let second = basic_diagnostics(funcs);
    if analysis(items).1.len() == 0 {
        law_resolve_functions_appends(funcs, first, funcs.len());
        law_check_items_appends(funcs, items, items.len(), second);
        assert(second =~= Seq::empty());
        assert(first =~= Seq::empty());
        law_clean_functions_resolve(funcs, first, funcs.len());
        law_clean_items_respect(funcs, items, items.len(), second);
    }
    if program_respects(items) {
        law_well_typed_program_is_clean(items);
    }
}

} // verus!
