//! The type checker: it turns the syntax tree into its typed form and reports
//! what breaks the typing rules, going on after each report.

use super::basic_checks::FunctionChecker;
use super::diagnostics::{diagnostics_view, emit, Finding, Mismatch};
use super::laws::law_stmts_loop_depth;
use super::rules;
use super::rules::{
    binop_type, bound_type, call_type, class_rule, elements_agreement, entry_state, index_type,
    op_class, param_scope, require_bound, span_or, Agreement, Env, OpClass, Returned, State,
};
use super::scope::Scope;
use super::typechecking::{
    typed_exprs_view, typed_stmts_view, Type, TypedExpr, TypedStmt,
};
use crate::ast::{exprs_view, names_view, stmts_view, BinOp, Expr, SourceInfo, Stmt};
use vstd::prelude::*;

verus! {

/// What the checker carries along through a function body.
pub struct CheckState {
    /// The variables in scope.
    pub scope: Scope,
    /// What the function returns, once a `return` has been seen.
    pub returned: Option<Returned>,
    /// The diagnostics found so far, oldest first.
    pub diagnostics: Vec<Finding>,
}

impl View for CheckState {
    type V = State;

    open spec fn view(&self) -> State {
        State {
            scope: self.scope@,
            ret: self.returned,
            diags: diagnostics_view(self.diagnostics@),
        }
    }
}

/// The fixed surroundings of a check, as the rules see them.
pub open spec fn env_of(registry: &FunctionChecker, rets: &Vec<Type>) -> Env {
    Env { funcs: registry@, rets: rets@ }
}

impl BinOp {
    /// The class of the operator.
    pub fn class(&self) -> (class: OpClass)
        ensures
            class == op_class(*self),
    {
        match self {
            BinOp::Add | BinOp::Sub | BinOp::Mul | BinOp::Div | BinOp::Mod | BinOp::Pow => {
                OpClass::Arithmetic
            },
            BinOp::Lt | BinOp::Le | BinOp::Gt | BinOp::Ge => OpClass::Comparison,
            BinOp::Eq | BinOp::Ne => OpClass::Equality,
            BinOp::And | BinOp::Or => OpClass::Logical,
        }
    }
}

impl OpClass {
    /// The rule that the operands of an operator of this class must meet.
    pub fn rule(&self) -> (rule: Mismatch)
        ensures
            rule == class_rule(*self),
    {
        match self {
            OpClass::Arithmetic => Mismatch::Arithmetic,
            OpClass::Comparison => Mismatch::Comparison,
            OpClass::Equality => Mismatch::Equality,
            OpClass::Logical => Mismatch::Logical,
        }
    }
}

/// The type of a binary operation, or `None` where the operands break the
/// rule of the operator.
pub fn infer_binop(op: BinOp, lhs: &Type, rhs: &Type) -> (t: Option<Type>)
    ensures
        t == binop_type(op, *lhs, *rhs),
{
    if lhs.is_unknown() || rhs.is_unknown() {
        return Some(Type::Unknown);
    }
    match op.class() {
        OpClass::Arithmetic => {
            if lhs.is_int() && rhs.is_int() {
                Some(Type::Int)
            } else if lhs.is_float() && rhs.is_float() {
                Some(Type::Float)
            } else {
                None
            }
        },
        OpClass::Comparison => {
            if (lhs.is_int() && rhs.is_int()) || (lhs.is_float() && rhs.is_float()) {
                Some(Type::Bool)
            } else {
                None
            }
        },
        OpClass::Equality => {
            if lhs.is_compatible_with(rhs) {
                Some(Type::Bool)
            } else {
                None
            }
        },
        OpClass::Logical => {
            if lhs.is_bool() && rhs.is_bool() {
                Some(Type::Bool)
            } else {
                None
            }
        },
    }
}

/// The type of an element taken from `base` at an index of type `index`, or
/// `None` where `base` is no array or `index` no integer.
pub fn infer_index(base: &Type, index: &Type) -> (t: Option<Type>)
    ensures
        t == index_type(*base, *index),
{
    if base.is_unknown() || index.is_unknown() {
        return Some(Type::Unknown);
    }
    match base {
        Type::Array(element) => {
            if index.is_int() {
                Some((**element).clone())
            } else {
                None
            }
        },
        _ => None,
    }
}

/// The type that a call has.
pub fn infer_call(registry: &FunctionChecker, rets: &Vec<Type>, name: &String, argc: usize) -> (t:
    Type)
    ensures
        t == call_type(env_of(registry, rets), name@, argc as nat),
{
    match registry.find_func(name) {
        Some(i) => match registry.get(i) {
            Some(callee) => {
                if callee.args.len() == argc && i < rets.len() {
                    rets[i].clone()
                } else {
                    Type::Unknown
                }
            },
            None => Type::Unknown,
        },
        None => Type::Unknown,
    }
}

/// Whether the elements agree in type: the type that all of them go with, or
/// the index of the first that goes with none of those before it.
pub fn infer_elements(items: &Vec<TypedExpr>) -> (r: Result<Type, usize>)
    ensures
        match r {
            Ok(t) => elements_agreement(typed_exprs_view(items@), items.len() as nat)
                == Agreement::Agreed(t),
            Err(i) => i < items.len() && elements_agreement(
                typed_exprs_view(items@),
                items.len() as nat,
            ) == Agreement::Diverged(i as int),
        },
{
    let mut agreed = Type::Unknown;
    let mut i: usize = 0;
    while i < items.len()
        invariant
            i <= items.len(),
            elements_agreement(typed_exprs_view(items@), i as nat) == Agreement::Agreed(agreed),
        decreases items.len() - i,
    {
        let t = items[i].ty();
        if agreed.is_compatible_with(&t) {
            agreed = agreed.merged_with(&t);
        } else {
            proof {
                lemma_divergence_stays(typed_exprs_view(items@), (i + 1) as nat, items.len() as nat);
            }
            return Err(i);
        }
        i += 1;
    }
    Ok(agreed)
}

/// Once the elements diverge, further elements change nothing.
proof fn lemma_divergence_stays(items: Seq<super::typechecking::TypedExprView>, n: nat, m: nat)
    requires
        n <= m <= items.len(),
        elements_agreement(items, n) is Diverged,
    ensures
        elements_agreement(items, m) == elements_agreement(items, n),
    decreases m,
{
    if n < m {
        lemma_divergence_stays(items, n, (m - 1) as nat);
    }
}

/// The place to point at for an expression: its own, or the given one where it has none.
fn place_of(e: &TypedExpr, otherwise: &SourceInfo) -> (at: SourceInfo)
    ensures
        at == span_or(e@.span(), *otherwise),
{
    match e.span() {
        Some(at) => at,
        None => otherwise.clone(),
    }
}

impl CheckState {
    /// Adds a diagnostic.
    pub fn report(&mut self, d: Finding)
        ensures
            final(self)@ == rules::report(old(self)@, d@),
    {
        emit(&mut self.diagnostics, d);
    }

    /// The type that a name is bound to, unknown where it is not bound; a name
    /// that is not bound is reported.
    pub fn use_name(&mut self, name: &String, at: &SourceInfo) -> (t: Type)
        ensures
            t == bound_type(old(self)@, name@),
            final(self)@ == require_bound(old(self)@, name@, *at),
    {
        match self.scope.lookup(name) {
            Some(t) => t,
            None => {
                self.report(Finding::unbound_identifier(name, at));
                Type::Unknown
            },
        }
    }

    /// Takes note of a `return` of a value of type `t` at the given place.
    pub fn note_return(&mut self, t: Type, at: &SourceInfo)
        ensures
            final(self)@ == rules::note_return(old(self)@, t, *at),
    {
        let mismatch: Option<SourceInfo> = match &self.returned {
            None => {
                self.returned = Some(Returned { ty: t, at: at.clone() });
                None
            },
            Some(first) => {
                if first.ty.is_compatible_with(&t) {
                    let place = if first.ty.is_unknown() {
                        at.clone()
                    } else {
                        first.at.clone()
                    };
                    let merged = first.ty.merged_with(&t);
                    self.returned = Some(Returned { ty: merged, at: place });
                    None
                } else {
                    Some(first.at.clone())
                }
            },
        };
        if let Some(first_at) = mismatch {
            self.report(Finding::return_mismatch(at, &first_at));
        }
    }

    /// Checks the type of a condition.
    pub fn check_condition(&mut self, t: &Type, at: &SourceInfo)
        ensures
            final(self)@ == rules::check_condition(old(self)@, *t, *at),
    {
        if !(t.is_bool() || t.is_unknown()) {
            self.report(Finding::type_mismatch(at, Mismatch::Condition));
        }
    }

    /// Checks the assignment of a value of type `t` to a variable.
    pub fn check_assign(&mut self, name: &String, t: &Type, at: &SourceInfo)
        ensures
            final(self)@ == rules::check_assign(old(self)@, name@, *t, *at),
    {
        match self.scope.lookup(name) {
            None => {
                self.report(Finding::unbound_identifier(name, at));
            },
            Some(bound) => {
                if !bound.is_compatible_with(t) {
                    self.report(Finding::type_mismatch(at, Mismatch::Assignment));
                }
            },
        }
    }

    /// Checks a `break` or `continue` at the given place, `depth` loops deep.
    pub fn check_jump(&mut self, depth: usize, at: &SourceInfo)
        ensures
            final(self)@ == rules::check_jump(old(self)@, depth as nat, *at),
    {
        if depth == 0 {
            self.report(Finding::invalid_break_continue(at));
        }
    }
}

/// Checks an expression: returns its typed form, and adds to the state what
/// it breaks. `depth` is the number of loops around the expression.
pub fn check_expr(
    registry: &FunctionChecker,
    rets: &Vec<Type>,
    depth: usize,
    state: &mut CheckState,
    e: &Expr,
) -> (typed: TypedExpr)
    ensures
        (typed@, final(state)@) == rules::check_expr(
            env_of(registry, rets),
            depth as nat,
            old(state)@,
            e@,
        ),
    decreases e, 0nat,
{
    match e {
        Expr::Float(bits, at) => TypedExpr::Float(*bits, at.clone()),
        Expr::Int(value, at) => TypedExpr::Int(*value, at.clone()),
        Expr::StringLit(text, at) => TypedExpr::StringLit(text.clone(), at.clone()),
        Expr::BoolLit(value, at) => TypedExpr::BoolLit(*value, at.clone()),
        Expr::Ident(name, at) => {
            let t = state.use_name(name, at);
            TypedExpr::Ident(name.clone(), at.clone(), t)
        },
        Expr::ArrayLit(items, at) => {
            let typed = check_exprs(registry, rets, depth, state, items);
            match infer_elements(&typed) {
                Ok(t) => TypedExpr::ArrayLit(typed, at.clone(), Type::Array(Box::new(t))),
                Err(i) => {
                    let place = place_of(&typed[i], at);
                    state.report(Finding::type_mismatch(&place, Mismatch::Elements));
                    TypedExpr::ArrayLit(typed, at.clone(), Type::Array(Box::new(Type::Unknown)))
                },
            }
        },
        Expr::ArrayIndex(name, index, at) => {
            let base = state.use_name(name, at);
            let typed = check_expr(registry, rets, depth, state, index);
            match infer_index(&base, &typed.ty()) {
                Some(t) => TypedExpr::ArrayIndex(name.clone(), Box::new(typed), at.clone(), t),
                None => {
                    state.report(Finding::type_mismatch(at, Mismatch::Index));
                    TypedExpr::ArrayIndex(
                        name.clone(),
                        Box::new(typed),
                        at.clone(),
                        Type::Unknown,
                    )
                },
            }
        },
        Expr::BinOp(lhs, op, rhs, at) => {
            let left = check_expr(registry, rets, depth, state, lhs);
            let right = check_expr(registry, rets, depth, state, rhs);
            match infer_binop(*op, &left.ty(), &right.ty()) {
                Some(t) => TypedExpr::BinOp(Box::new(left), *op, Box::new(right), at.clone(), t),
                None => {
                    state.report(Finding::type_mismatch(at, op.class().rule()));
                    TypedExpr::BinOp(
                        Box::new(left),
                        *op,
                        Box::new(right),
                        at.clone(),
                        Type::Unknown,
                    )
                },
            }
        },
        Expr::Call(name, args, at) => {
            let typed = check_exprs(registry, rets, depth, state, args);
            let t = infer_call(registry, rets, name, args.len());
            TypedExpr::Call(name.clone(), typed, at.clone(), t)
        },
        Expr::Return(value, at) => {
            let typed = check_expr(registry, rets, depth, state, value);
            state.note_return(typed.ty(), at);
            TypedExpr::Return(Box::new(typed), at.clone())
        },
        Expr::Break(at) => {
            state.check_jump(depth, at);
            TypedExpr::Break(at.clone())
        },
        Expr::Continue(at) => {
            state.check_jump(depth, at);
            TypedExpr::Continue(at.clone())
        },
        Expr::Error => TypedExpr::Error,
    }
}

/// Checks a sequence of expressions from left to right.
pub fn check_exprs(
    registry: &FunctionChecker,
    rets: &Vec<Type>,
    depth: usize,
    state: &mut CheckState,
    items: &Vec<Expr>,
) -> (typed: Vec<TypedExpr>)
    ensures
        (typed_exprs_view(typed@), final(state)@) == rules::check_exprs(
            env_of(registry, rets),
            depth as nat,
            old(state)@,
            exprs_view(items@),
            items.len() as nat,
        ),
    decreases items, 0nat,
{
    let mut typed: Vec<TypedExpr> = Vec::new();
    let mut i: usize = 0;
    assert(typed_exprs_view(typed@) =~= Seq::empty());
    while i < items.len()
        invariant
            i <= items.len(),
            (typed_exprs_view(typed@), state@) == rules::check_exprs(
                env_of(registry, rets),
                depth as nat,
                old(state)@,
                exprs_view(items@),
                i as nat,
            ),
        decreases items.len() - i,
    {
        let ghost before = typed_exprs_view(typed@);
        let item = check_expr(registry, rets, depth, state, &items[i]);
        typed.push(item);
        assert(typed_exprs_view(typed@) =~= before.push(item@));
        i += 1;
    }
    typed
}

/// Checks a statement: returns its typed form, and adds to the state what it
/// binds and what it breaks. `depth` is the number of loops around the statement.
pub fn check_stmt(
    registry: &FunctionChecker,
    rets: &Vec<Type>,
    depth: usize,
    state: &mut CheckState,
    s: &Stmt,
) -> (typed: TypedStmt)
    ensures
        (typed@, final(state)@) == rules::check_stmt(
            env_of(registry, rets),
            depth as nat,
            old(state)@,
            s@,
        ),
    decreases s, 0nat,
{
    match s {
        Stmt::Expr(e, at) => {
            let typed = check_expr(registry, rets, depth, state, e);
            TypedStmt::Expr(typed, at.clone())
        },
        Stmt::If(cond, then_body, else_body, at) => {
            let typed = check_expr(registry, rets, depth, state, cond);
            let place = place_of(&typed, at);
            state.check_condition(&typed.ty(), &place);
            let then_typed = check_stmts(registry, rets, depth, state, then_body);
            let else_typed = match else_body {
                Some(body) => Some(check_stmts(registry, rets, depth, state, body)),
                None => None,
            };
            TypedStmt::If(typed, then_typed, else_typed, at.clone())
        },
        Stmt::While(cond, body, at) => {
            let typed = check_expr(registry, rets, depth, state, cond);
            let place = place_of(&typed, at);
            state.check_condition(&typed.ty(), &place);
            let inner = if depth < usize::MAX {
                depth + 1
            } else {
                depth
            };
            proof {
                law_stmts_loop_depth(
                    env_of(registry, rets),
                    inner as nat,
                    (depth + 1) as nat,
                    state@,
                    stmts_view(body@),
                    body.len() as nat,
                );
            }
            let body_typed = check_stmts(registry, rets, inner, state, body);
            TypedStmt::While(typed, body_typed, at.clone())
        },
        Stmt::Block(body, at) => {
            let typed = check_stmts(registry, rets, depth, state, body);
            TypedStmt::Block(typed, at.clone())
        },
        Stmt::Return(e, at) => {
            let typed = check_expr(registry, rets, depth, state, e);
            state.note_return(typed.ty(), at);
            TypedStmt::Return(typed, at.clone())
        },
        Stmt::Let(name, e, at) => {
            let typed = check_expr(registry, rets, depth, state, e);
            state.scope.bind(name.clone(), typed.ty());
            TypedStmt::Let(name.clone(), typed, at.clone())
        },
        Stmt::Assign(name, e, at) => {
            let typed = check_expr(registry, rets, depth, state, e);
            state.check_assign(name, &typed.ty(), at);
            TypedStmt::Assign(name.clone(), typed, at.clone())
        },
        Stmt::Error => TypedStmt::Error,
    }
}

/// Checks a sequence of statements in order.
pub fn check_stmts(
    registry: &FunctionChecker,
    rets: &Vec<Type>,
    depth: usize,
    state: &mut CheckState,
    body: &Vec<Stmt>,
) -> (typed: Vec<TypedStmt>)
    ensures
        (typed_stmts_view(typed@), final(state)@) == rules::check_stmts(
            env_of(registry, rets),
            depth as nat,
            old(state)@,
            stmts_view(body@),
            body.len() as nat,
        ),
    decreases body, 0nat,
{
    let mut typed: Vec<TypedStmt> = Vec::new();
    let mut i: usize = 0;
    assert(typed_stmts_view(typed@) =~= Seq::empty());
    while i < body.len()
        invariant
            i <= body.len(),
            (typed_stmts_view(typed@), state@) == rules::check_stmts(
                env_of(registry, rets),
                depth as nat,
                old(state)@,
                stmts_view(body@),
                i as nat,
            ),
        decreases body.len() - i,
    {
        let ghost before = typed_stmts_view(typed@);
        let item = check_stmt(registry, rets, depth, state, &body[i]);
        typed.push(item);
        assert(typed_stmts_view(typed@) =~= before.push(item@));
        i += 1;
    }
    typed
}

/// The state in which the body of a function with the given parameters is
/// entered: the parameters are in scope, nothing is returned yet.
pub fn enter_function(params: &Vec<String>, diagnostics: Vec<Finding>) -> (state: CheckState)
    ensures
        state@ == entry_state(names_view(params@), diagnostics_view(diagnostics@)),
{
    let mut scope = Scope::new();
    let mut i: usize = 0;
    while i < params.len()
        invariant
            i <= params.len(),
            scope@ == param_scope(names_view(params@), i as nat),
        decreases params.len() - i,
    {
        scope.bind(params[i].clone(), Type::Unknown);
        i += 1;
    }
    CheckState { scope, returned: None, diagnostics }
}

} // verus!
