//! The typed tree without its types, and the proof that this is the tree
//! that was checked: checking adds types and changes nothing else.

use super::diagnostics::FindingView;
use super::rules::{
    analysis, check_condition, check_expr, check_exprs, check_items, check_stmt, check_stmts,
    entry_state, require_bound, span_or, Env, State,
};
use super::typechecking::{TypedExprView, TypedStmtView, TypedTopLvlView};
use super::FunctionView;
use crate::ast::{ExprView, StmtView, TopLvlView};
use vstd::prelude::*;

verus! {

/// A typed expression without its types.
pub open spec fn erase_expr(e: TypedExprView) -> ExprView
    decreases e,
{
    match e {
        TypedExprView::Float(bits, at) => ExprView::Float(bits, at),
        TypedExprView::Int(value, at) => ExprView::Int(value, at),
        TypedExprView::StringLit(text, at) => ExprView::StringLit(text, at),
        TypedExprView::Ident(name, at, _) => ExprView::Ident(name, at),
        TypedExprView::ArrayLit(items, at, _) => ExprView::ArrayLit(erase_exprs(items), at),
        TypedExprView::ArrayIndex(name, index, at, _) => ExprView::ArrayIndex(
            name,
            Box::new(erase_expr(*index)),
            at,
        ),
        TypedExprView::BinOp(lhs, op, rhs, at, _) => ExprView::BinOp(
            Box::new(erase_expr(*lhs)),
            op,
            Box::new(erase_expr(*rhs)),
            at,
        ),
        TypedExprView::Call(name, args, at, _) => ExprView::Call(name, erase_exprs(args), at),
        TypedExprView::Return(value, at) => ExprView::Return(Box::new(erase_expr(*value)), at),
        TypedExprView::Break(at) => ExprView::Break(at),
        TypedExprView::Continue(at) => ExprView::Continue(at),
        TypedExprView::BoolLit(value, at) => ExprView::BoolLit(value, at),
        TypedExprView::Error => ExprView::Error,
    }
}

/// Typed expressions without their types, in order.
pub open spec fn erase_exprs(items: Seq<TypedExprView>) -> Seq<ExprView>
    decreases items,
{
    Seq::new(
        items.len(),
        |i: int|
            if 0 <= i < items.len() {
                erase_expr(items[i])
            } else {
                ExprView::Error
            },
    )
}

/// A typed statement without its types.
pub open spec fn erase_stmt(s: TypedStmtView) -> StmtView
    decreases s,
{
    match s {
        TypedStmtView::Expr(e, at) => StmtView::Expr(erase_expr(e), at),
        TypedStmtView::If(cond, then_body, else_body, at) => StmtView::If(
            erase_expr(cond),
            erase_stmts(then_body),
            match else_body {
                Some(body) => Some(erase_stmts(body)),
                None => None,
            },
            at,
        ),
        TypedStmtView::While(cond, body, at) => StmtView::While(
            erase_expr(cond),
            erase_stmts(body),
            at,
        ),
        TypedStmtView::Block(body, at) => StmtView::Block(erase_stmts(body), at),
        TypedStmtView::Return(e, at) => StmtView::Return(erase_expr(e), at),
        TypedStmtView::Let(name, e, at) => StmtView::Let(name, erase_expr(e), at),
        TypedStmtView::Assign(name, e, at) => StmtView::Assign(name, erase_expr(e), at),
        TypedStmtView::Error => StmtView::Error,
    }
}

/// Typed statements without their types, in order.
pub open spec fn erase_stmts(body: Seq<TypedStmtView>) -> Seq<StmtView>
    decreases body,
{
    Seq::new(
        body.len(),
        |i: int|
            if 0 <= i < body.len() {
                erase_stmt(body[i])
            } else {
                StmtView::Error
            },
    )
}

/// A typed top-level item without its types.
pub open spec fn erase_item(item: TypedTopLvlView) -> TopLvlView {
    match item {
        TypedTopLvlView::Import(path, at) => TopLvlView::Import(path, at),
        TypedTopLvlView::FuncDef(name, params, body, at) => TopLvlView::FuncDef(
            name,
            Seq::new(params.len(), |i: int| params[i].0),
            erase_stmts(body),
            at,
        ),
        TypedTopLvlView::Error => TopLvlView::Error,
    }
}

/// A typed program without its types.
pub open spec fn erase_program(items: Seq<TypedTopLvlView>) -> Seq<TopLvlView> {
    Seq::new(items.len(), |i: int| erase_item(items[i]))
}

/// The typed form of an expression is that expression with types added.
pub proof fn law_typed_expr_mirrors(env: Env, depth: nat, state: State, e: ExprView)
    ensures
        erase_expr(check_expr(env, depth, state, e).0) == e,
    decreases e, 0nat,
{
    match e {
        ExprView::ArrayLit(items, _) => {
            law_typed_exprs_mirror(env, depth, state, items, items.len());
            assert(items.subrange(0, items.len() as int) =~= items);
        },
        ExprView::ArrayIndex(name, index, at) => {
            law_typed_expr_mirrors(env, depth, require_bound(state, name, at), *index);
        },
        ExprView::BinOp(lhs, _, rhs, _) => {
            law_typed_expr_mirrors(env, depth, state, *lhs);
            law_typed_expr_mirrors(env, depth, check_expr(env, depth, state, *lhs).1, *rhs);
        },
        ExprView::Call(_, args, _) => {
            law_typed_exprs_mirror(env, depth, state, args, args.len());
            assert(args.subrange(0, args.len() as int) =~= args);
        },
        ExprView::Return(value, _) => {
            law_typed_expr_mirrors(env, depth, state, *value);
        },
        _ => {},
    }
}

/// The typed forms of the first `n` expressions are those expressions with
/// types added.
pub proof fn law_typed_exprs_mirror(
    env: Env,
    depth: nat,
    state: State,
    items: Seq<ExprView>,
    n: nat,
)
    requires
        n <= items.len(),
    ensures
        erase_exprs(check_exprs(env, depth, state, items, n).0) == items.subrange(0, n as int),
    decreases items, n,
{
    if n > 0 {
        law_typed_exprs_mirror(env, depth, state, items, (n - 1) as nat);
        let (before, middle) = check_exprs(env, depth, state, items, (n - 1) as nat);
        law_typed_expr_mirrors(env, depth, middle, items[n - 1]);
        let typed = check_expr(env, depth, middle, items[n - 1]).0;
        assert(erase_exprs(before.push(typed)) =~= erase_exprs(before).push(erase_expr(typed)));
        assert(items.subrange(0, n as int) =~= items.subrange(0, n - 1).push(items[n - 1]));
    } else {
        assert(erase_exprs(Seq::empty()) =~= items.subrange(0, 0));
    }
}

/// The typed form of a statement is that statement with types added.
pub proof fn law_typed_stmt_mirrors(env: Env, depth: nat, state: State, s: StmtView)
    ensures
        erase_stmt(check_stmt(env, depth, state, s).0) == s,
    decreases s, 0nat,
{
    match s {
        StmtView::Expr(e, _) => {
            law_typed_expr_mirrors(env, depth, state, e);
        },
        StmtView::If(cond, then_body, else_body, at) => {
            law_typed_expr_mirrors(env, depth, state, cond);
            let (typed, after_cond) = check_expr(env, depth, state, cond);
            let checked = check_condition(after_cond, typed.ty(), span_or(typed.span(), at));
            law_typed_stmts_mirror(env, depth, checked, then_body, then_body.len());
            assert(then_body.subrange(0, then_body.len() as int) =~= then_body);
            match else_body {
                Some(body) => {
                    let after_then = check_stmts(env, depth, checked, then_body, then_body.len()).1;
                    law_typed_stmts_mirror(env, depth, after_then, body, body.len());
                    assert(body.subrange(0, body.len() as int) =~= body);
                },
                None => {},
            }
        },
        StmtView::While(cond, body, at) => {
            law_typed_expr_mirrors(env, depth, state, cond);
            let (typed, after_cond) = check_expr(env, depth, state, cond);
            let checked = check_condition(after_cond, typed.ty(), span_or(typed.span(), at));
            law_typed_stmts_mirror(env, depth + 1, checked, body, body.len());
            assert(body.subrange(0, body.len() as int) =~= body);
        },
        StmtView::Block(body, _) => {
            law_typed_stmts_mirror(env, depth, state, body, body.len());
            assert(body.subrange(0, body.len() as int) =~= body);
        },
        StmtView::Return(e, _) => {
            law_typed_expr_mirrors(env, depth, state, e);
        },
        StmtView::Let(_, e, _) => {
            law_typed_expr_mirrors(env, depth, state, e);
        },
        StmtView::Assign(_, e, _) => {
            law_typed_expr_mirrors(env, depth, state, e);
        },
        StmtView::Error => {},
    }
}

/// The typed forms of the first `n` statements are those statements with
/// types added.
pub proof fn law_typed_stmts_mirror(
    env: Env,
    depth: nat,
    state: State,
    body: Seq<StmtView>,
    n: nat,
)
    requires
        n <= body.len(),
    ensures
        erase_stmts(check_stmts(env, depth, state, body, n).0) == body.subrange(0, n as int),
    decreases body, n,
{
    if n > 0 {
        law_typed_stmts_mirror(env, depth, state, body, (n - 1) as nat);
        let (before, middle) = check_stmts(env, depth, state, body, (n - 1) as nat);
        law_typed_stmt_mirrors(env, depth, middle, body[n - 1]);
        let typed = check_stmt(env, depth, middle, body[n - 1]).0;
        assert(erase_stmts(before.push(typed)) =~= erase_stmts(before).push(erase_stmt(typed)));
        assert(body.subrange(0, n as int) =~= body.subrange(0, n - 1).push(body[n - 1]));
    } else {
        assert(erase_stmts(Seq::empty()) =~= body.subrange(0, 0));
    }
}

/// The typed forms of the first `n` top-level items are those items with
/// types added.
pub proof fn law_typed_items_mirror(
    funcs: Seq<FunctionView>,
    items: Seq<TopLvlView>,
    n: nat,
    diags: Seq<FindingView>,
)
    requires
        n <= items.len(),
    ensures
        erase_program(check_items(funcs, items, n, diags).typed) == items.subrange(0, n as int),
    decreases n,
{
    if n > 0 {
        law_typed_items_mirror(funcs, items, (n - 1) as nat, diags);
        let before = check_items(funcs, items, (n - 1) as nat, diags);
        let after = check_items(funcs, items, n, diags);
        match items[n - 1] {
            TopLvlView::FuncDef(name, params, body, at) => {
                law_typed_stmts_mirror(
                    Env { funcs, rets: before.rets },
                    0,
                    entry_state(params, before.diags),
                    body,
                    body.len(),
                );
                assert(body.subrange(0, body.len() as int) =~= body);
                let typed_params = after.typed.last()->FuncDef_1;
                assert(Seq::new(typed_params.len(), |i: int| typed_params[i].0) =~= params);
            },
            _ => {},
        }
        assert(after.typed.len() == before.typed.len() + 1);
        assert(erase_item(after.typed.last()) == items[n - 1]);
        assert(erase_program(after.typed) =~= erase_program(before.typed).push(
            erase_item(after.typed.last()),
        ));
        assert(items.subrange(0, n as int) =~= items.subrange(0, n - 1).push(items[n - 1]));
    } else {
        assert(erase_program(Seq::empty()) =~= items.subrange(0, 0));
    }
}

/// The typed program that the analysis gives is the program that it was
/// given, with types added: every item, statement and expression is there, in
/// its place and with its location.
pub proof fn law_typed_program_mirrors(items: Seq<TopLvlView>)
    ensures
        erase_program(analysis(items).0) == items,
{
    let funcs = super::basic_checks::registry_of(items);
    law_typed_items_mirror(funcs, items, items.len(), super::basic_checks::basic_diagnostics(funcs));
    assert(items.subrange(0, items.len() as int) =~= items);
}

} // verus!
