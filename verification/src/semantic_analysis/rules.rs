//! The typing rules, stated over the models of the syntax tree.
//!
//! Checking walks a function body once, in the order of the source. It carries a
//! state along: the variables in scope, what the function returns as far as it
//! is known, and the diagnostics found so far.

use super::basic_checks::{basic_diagnostics, lookup, registry_of};
use super::diagnostics::{
    invalid_break_continue, return_mismatch, type_mismatch, unbound_identifier, FindingView,
    Mismatch,
};
use super::typechecking::{
    compatible, join, Type, TypedExprView, TypedStmtView, TypedTopLvlView,
};
use super::FunctionView;
use crate::ast::{BinOp, ExprView, SourceInfo, StmtView, TopLvlView};
use vstd::prelude::*;

verus! {

/// What stays fixed while one function body is checked.
pub ghost struct Env {
    /// The functions of the program, in order of definition.
    pub funcs: Seq<FunctionView>,
    /// The return types inferred so far: those of the functions defined before
    /// the one that is being checked, in the same order.
    pub rets: Seq<Type>,
}

/// The type of a `return` of the function being checked, and where it stands.
pub struct Returned {
    pub ty: Type,
    pub at: SourceInfo,
}

/// What checking carries along through a function body.
pub ghost struct State {
    /// The variables in scope, each with its type.
    pub scope: Map<Seq<char>, Type>,
    /// What the function returns, once a `return` has been seen.
    pub ret: Option<Returned>,
    /// The diagnostics found so far, oldest first.
    pub diags: Seq<FindingView>,
}

/// The state with one more diagnostic.
pub open spec fn report(state: State, d: FindingView) -> State {
    State { diags: state.diags.push(d), ..state }
}

/// The four classes of binary operators.
#[derive(Debug, Clone, Copy, PartialEq, Eq)]
pub enum OpClass {
    Arithmetic,
    Comparison,
    Equality,
    Logical,
}

/// The class of a binary operator.
pub open spec fn op_class(op: BinOp) -> OpClass {
    match op {
        BinOp::Add | BinOp::Sub | BinOp::Mul | BinOp::Div | BinOp::Mod | BinOp::Pow => {
            OpClass::Arithmetic
        },
        BinOp::Lt | BinOp::Le | BinOp::Gt | BinOp::Ge => OpClass::Comparison,
        BinOp::Eq | BinOp::Ne => OpClass::Equality,
        BinOp::And | BinOp::Or => OpClass::Logical,
    }
}

/// The rule that the operands of an operator of the given class must meet.
pub open spec fn class_rule(class: OpClass) -> Mismatch {
    match class {
        OpClass::Arithmetic => Mismatch::Arithmetic,
        OpClass::Comparison => Mismatch::Comparison,
        OpClass::Equality => Mismatch::Equality,
        OpClass::Logical => Mismatch::Logical,
    }
}

/// The type of a binary operation on operands of the given types, or `None`
/// where the operands break the rule of the operator. An operand of unknown
/// type breaks no rule and makes the result unknown.
pub open spec fn binop_type(op: BinOp, lhs: Type, rhs: Type) -> Option<Type> {
    if lhs == Type::Unknown || rhs == Type::Unknown {
        Some(Type::Unknown)
    } else {
        match op_class(op) {
            OpClass::Arithmetic => if lhs == Type::Int && rhs == Type::Int {
                Some(Type::Int)
            } else if lhs == Type::Float && rhs == Type::Float {
                Some(Type::Float)
            } else {
                None
            },
            OpClass::Comparison => if (lhs == Type::Int && rhs == Type::Int) || (lhs
                == Type::Float && rhs == Type::Float) {
                Some(Type::Bool)
            } else {
                None
            },
            OpClass::Equality => if compatible(lhs, rhs) {
                Some(Type::Bool)
            } else {
                None
            },
            OpClass::Logical => if lhs == Type::Bool && rhs == Type::Bool {
                Some(Type::Bool)
            } else {
                None
            },
        }
    }
}

/// The type of an element taken from `base` at an index of type `index`, or
/// `None` where `base` is no array or `index` no integer. Where either type is
/// unknown, no rule is broken and the result is unknown.
pub open spec fn index_type(base: Type, index: Type) -> Option<Type> {
    if base == Type::Unknown || index == Type::Unknown {
        Some(Type::Unknown)
    } else {
        match base {
            Type::Array(element) => if index == Type::Int {
                Some(*element)
            } else {
                None
            },
            _ => None,
        }
    }
}

/// Whether a condition may have the given type.
pub open spec fn condition_accepts(t: Type) -> bool {
    t == Type::Bool || t == Type::Unknown
}

/// The type that a call has: the return type inferred for the function that
/// the name refers to, if that function is defined before the one being
/// checked and declares as many parameters as the call has arguments.
pub open spec fn call_type(env: Env, name: Seq<char>, argc: nat) -> Type {
    match lookup(env.funcs, name) {
        Some(i) => if env.funcs[i].args.len() == argc && i < env.rets.len() {
            env.rets[i]
        } else {
            Type::Unknown
        },
        None => Type::Unknown,
    }
}

/// Whether the elements of an array literal agree in type.
pub ghost enum Agreement {
    /// They agree: the type that all of them go with.
    Agreed(Type),
    /// They do not: the index of the first that goes with none of those before it.
    Diverged(int),
}

/// Whether the first `n` of the elements agree in type.
pub open spec fn elements_agreement(items: Seq<TypedExprView>, n: nat) -> Agreement
    decreases n,
{
    if n == 0 || n > items.len() {
        Agreement::Agreed(Type::Unknown)
    } else {
        match elements_agreement(items, (n - 1) as nat) {
            Agreement::Diverged(i) => Agreement::Diverged(i),
            Agreement::Agreed(t) => if compatible(t, items[n - 1].ty()) {
                Agreement::Agreed(join(t, items[n - 1].ty()))
            } else {
                Agreement::Diverged(n - 1)
            },
        }
    }
}

/// The place to point at for an expression: its own, or the given one where it has none.
pub open spec fn span_or(at: Option<SourceInfo>, otherwise: SourceInfo) -> SourceInfo {
    match at {
        Some(info) => info,
        None => otherwise,
    }
}

/// The type that a name is bound to, unknown where it is not bound.
pub open spec fn bound_type(state: State, name: Seq<char>) -> Type {
    if state.scope.contains_key(name) {
        state.scope[name]
    } else {
        Type::Unknown
    }
}

/// The state after a name was used at the given place: reported where it is not bound.
pub open spec fn require_bound(state: State, name: Seq<char>, at: SourceInfo) -> State {
    if state.scope.contains_key(name) {
        state
    } else {
        report(state, unbound_identifier(name, at))
    }
}

/// The state after a `return` of a value of type `t` at the given place.
///
/// The first `return` sets what the function returns. A later one must go
/// with it; where it does not, that is reported with both places.
pub open spec fn note_return(state: State, t: Type, at: SourceInfo) -> State {
    match state.ret {
        None => State { ret: Some(Returned { ty: t, at }), ..state },
        Some(first) => if compatible(first.ty, t) {
            State {
                ret: Some(
                    Returned {
                        ty: join(first.ty, t),
                        at: if first.ty == Type::Unknown {
                            at
                        } else {
                            first.at
                        },
                    },
                ),
                ..state
            }
        } else {
            report(state, return_mismatch(at, first.at))
        },
    }
}

/// The state after a condition of type `t` was checked.
pub open spec fn check_condition(state: State, t: Type, at: SourceInfo) -> State {
    if condition_accepts(t) {
        state
    } else {
        report(state, type_mismatch(at, Mismatch::Condition))
    }
}

/// The state after a value of type `t` was assigned to a variable.
pub open spec fn check_assign(state: State, name: Seq<char>, t: Type, at: SourceInfo) -> State {
    if !state.scope.contains_key(name) {
        report(state, unbound_identifier(name, at))
    } else if compatible(state.scope[name], t) {
        state
    } else {
        report(state, type_mismatch(at, Mismatch::Assignment))
    }
}

/// The state after `break` or `continue` at the given place, `depth` loops deep.
pub open spec fn check_jump(state: State, depth: nat, at: SourceInfo) -> State {
    if depth == 0 {
        report(state, invalid_break_continue(at))
    } else {
        state
    }
}

/// The typed form of an expression, and the state after it was checked.
/// `depth` is the number of loops around the expression.
pub open spec fn check_expr(env: Env, depth: nat, state: State, e: ExprView) -> (
    TypedExprView,
    State,
)
    decreases e, 0nat,
{
    match e {
        ExprView::Float(bits, at) => (TypedExprView::Float(bits, at), state),
        ExprView::Int(value, at) => (TypedExprView::Int(value, at), state),
        ExprView::StringLit(text, at) => (TypedExprView::StringLit(text, at), state),
        ExprView::BoolLit(value, at) => (TypedExprView::BoolLit(value, at), state),
        ExprView::Ident(name, at) => (
            TypedExprView::Ident(name, at, bound_type(state, name)),
            require_bound(state, name, at),
        ),
        ExprView::ArrayLit(items, at) => {
            let (typed, after) = check_exprs(env, depth, state, items, items.len());
            match elements_agreement(typed, typed.len()) {
                Agreement::Agreed(t) => (
                    TypedExprView::ArrayLit(typed, at, Type::Array(Box::new(t))),
                    after,
                ),
                Agreement::Diverged(i) => (
                    TypedExprView::ArrayLit(typed, at, Type::Array(Box::new(Type::Unknown))),
                    report(after, type_mismatch(span_or(typed[i].span(), at), Mismatch::Elements)),
                ),
            }
        },
        ExprView::ArrayIndex(name, index, at) => {
            let base = bound_type(state, name);
            let (typed, after) = check_expr(env, depth, require_bound(state, name, at), *index);
            match index_type(base, typed.ty()) {
                Some(t) => (TypedExprView::ArrayIndex(name, Box::new(typed), at, t), after),
                None => (
                    TypedExprView::ArrayIndex(name, Box::new(typed), at, Type::Unknown),
                    report(after, type_mismatch(at, Mismatch::Index)),
                ),
            }
        },
        ExprView::BinOp(lhs, op, rhs, at) => {
            let (left, middle) = check_expr(env, depth, state, *lhs);
            let (right, after) = check_expr(env, depth, middle, *rhs);
            match binop_type(op, left.ty(), right.ty()) {
                Some(t) => (
                    TypedExprView::BinOp(Box::new(left), op, Box::new(right), at, t),
                    after,
                ),
                None => (
                    TypedExprView::BinOp(Box::new(left), op, Box::new(right), at, Type::Unknown),
                    report(after, type_mismatch(at, class_rule(op_class(op)))),
                ),
            }
        },
        ExprView::Call(name, args, at) => {
            let (typed, after) = check_exprs(env, depth, state, args, args.len());
            (TypedExprView::Call(name, typed, at, call_type(env, name, args.len())), after)
        },
        ExprView::Return(value, at) => {
            let (typed, after) = check_expr(env, depth, state, *value);
            (TypedExprView::Return(Box::new(typed), at), note_return(after, typed.ty(), at))
        },
        ExprView::Break(at) => (TypedExprView::Break(at), check_jump(state, depth, at)),
        ExprView::Continue(at) => (TypedExprView::Continue(at), check_jump(state, depth, at)),
        ExprView::Error => (TypedExprView::Error, state),
    }
}

/// The typed forms of the first `n` of the expressions, and the state after
/// they were checked from left to right.
pub open spec fn check_exprs(
    env: Env,
    depth: nat,
    state: State,
    items: Seq<ExprView>,
    n: nat,
) -> (Seq<TypedExprView>, State)
    decreases items, n,
{
    if n == 0 || n > items.len() {
        (Seq::empty(), state)
    } else {
        let (before, middle) = check_exprs(env, depth, state, items, (n - 1) as nat);
        let (typed, after) = check_expr(env, depth, middle, items[n - 1]);
        (before.push(typed), after)
    }
}

/// The typed form of a statement, and the state after it was checked.
/// `depth` is the number of loops around the statement.
pub open spec fn check_stmt(env: Env, depth: nat, state: State, s: StmtView) -> (
    TypedStmtView,
    State,
)
    decreases s, 0nat,
{
    match s {
        StmtView::Expr(e, at) => {
            let (typed, after) = check_expr(env, depth, state, e);
            (TypedStmtView::Expr(typed, at), after)
        },
        StmtView::If(cond, then_body, else_body, at) => {
            let (typed, after_cond) = check_expr(env, depth, state, cond);
            let checked = check_condition(after_cond, typed.ty(), span_or(typed.span(), at));
            let (then_typed, after_then) = check_stmts(
                env,
                depth,
                checked,
                then_body,
                then_body.len(),
            );
            match else_body {
                Some(body) => {
                    let (else_typed, after_else) = check_stmts(
                        env,
                        depth,
                        after_then,
                        body,
                        body.len(),
                    );
                    (TypedStmtView::If(typed, then_typed, Some(else_typed), at), after_else)
                },
                None => (TypedStmtView::If(typed, then_typed, None, at), after_then),
            }
        },
        StmtView::While(cond, body, at) => {
            let (typed, after_cond) = check_expr(env, depth, state, cond);
            let checked = check_condition(after_cond, typed.ty(), span_or(typed.span(), at));
            let (body_typed, after) = check_stmts(env, depth + 1, checked, body, body.len());
            (TypedStmtView::While(typed, body_typed, at), after)
        },
        StmtView::Block(body, at) => {
            let (typed, after) = check_stmts(env, depth, state, body, body.len());
            (TypedStmtView::Block(typed, at), after)
        },
        StmtView::Return(e, at) => {
            let (typed, after) = check_expr(env, depth, state, e);
            (TypedStmtView::Return(typed, at), note_return(after, typed.ty(), at))
        },
        StmtView::Let(name, e, at) => {
            let (typed, after) = check_expr(env, depth, state, e);
            (
                TypedStmtView::Let(name, typed, at),
                State { scope: after.scope.insert(name, typed.ty()), ..after },
            )
        },
        StmtView::Assign(name, e, at) => {
            let (typed, after) = check_expr(env, depth, state, e);
            (TypedStmtView::Assign(name, typed, at), check_assign(after, name, typed.ty(), at))
        },
        StmtView::Error => (TypedStmtView::Error, state),
    }
}

/// The typed forms of the first `n` of the statements, and the state after
/// they were checked in order.
pub open spec fn check_stmts(
    env: Env,
    depth: nat,
    state: State,
    body: Seq<StmtView>,
    n: nat,
) -> (Seq<TypedStmtView>, State)
    decreases body, n,
{
    if n == 0 || n > body.len() {
        (Seq::empty(), state)
    } else {
        let (before, middle) = check_stmts(env, depth, state, body, (n - 1) as nat);
        let (typed, after) = check_stmt(env, depth, middle, body[n - 1]);
        (before.push(typed), after)
    }
}

/// The scope that the first `n` parameters of a function make: each is bound,
/// and nothing is known of its type.
pub open spec fn param_scope(params: Seq<Seq<char>>, n: nat) -> Map<Seq<char>, Type>
    decreases n,
{
    if n == 0 || n > params.len() {
        Map::empty()
    } else {
        param_scope(params, (n - 1) as nat).insert(params[n - 1], Type::Unknown)
    }
}

/// The parameters of a function, each with the type it is checked under.
pub open spec fn typed_params(params: Seq<Seq<char>>) -> Seq<(Seq<char>, Type)> {
    Seq::new(params.len(), |i: int| (params[i], Type::Unknown))
}

/// The state in which the body of a function is entered.
pub open spec fn entry_state(params: Seq<Seq<char>>, diags: Seq<FindingView>) -> State {
    State { scope: param_scope(params, params.len()), ret: None, diags }
}

/// The return type inferred for a function from the state at the end of its
/// body: unknown where it has no `return`.
pub open spec fn inferred_return(state: State) -> Type {
    match state.ret {
        Some(returned) => returned.ty,
        None => Type::Unknown,
    }
}

/// How far the checking of a program has come.
pub ghost struct Progress {
    /// The typed forms of the top-level items checked so far.
    pub typed: Seq<TypedTopLvlView>,
    /// The return types inferred for the functions checked so far.
    pub rets: Seq<Type>,
    /// The diagnostics found so far.
    pub diags: Seq<FindingView>,
}

/// Checking of the first `n` top-level items, one after the other. Each
/// function body is checked in a scope of its own, against the return types
/// of the functions before it.
pub open spec fn check_items(
    funcs: Seq<FunctionView>,
    items: Seq<TopLvlView>,
    n: nat,
    diags: Seq<FindingView>,
) -> Progress
    decreases n,
{
    if n == 0 || n > items.len() {
        Progress { typed: Seq::empty(), rets: Seq::empty(), diags }
    } else {
        let before = check_items(funcs, items, (n - 1) as nat, diags);
        match items[n - 1] {
            TopLvlView::Import(path, at) => Progress {
                typed: before.typed.push(TypedTopLvlView::Import(path, at)),
                ..before
            },
            TopLvlView::FuncDef(name, params, body, at) => {
                let (typed, after) = check_stmts(
                    Env { funcs, rets: before.rets },
                    0,
                    entry_state(params, before.diags),
                    body,
                    body.len(),
                );
                Progress {
                    typed: before.typed.push(
                        TypedTopLvlView::FuncDef(name, typed_params(params), typed, at),
                    ),
                    rets: before.rets.push(inferred_return(after)),
                    diags: after.diags,
                }
            },
            TopLvlView::Error => Progress {
                typed: before.typed.push(TypedTopLvlView::Error),
                ..before
            },
        }
    }
}

/// The whole analysis of a program: its typed form, and every diagnostic. The
/// entry-point check comes first, then call resolution, then type checking.
pub open spec fn analysis(items: Seq<TopLvlView>) -> (Seq<TypedTopLvlView>, Seq<FindingView>) {
    let funcs = registry_of(items);
    let done = check_items(funcs, items, items.len(), basic_diagnostics(funcs));
    (done.typed, done.diags)
}

} // verus!
