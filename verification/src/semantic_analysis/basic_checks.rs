//! The function registry, and the checks that need nothing else: that the
//! program has an entry point, and that every call names a defined function
//! and passes as many arguments as that function declares.

use super::diagnostics::{
    arity_mismatch, diagnostics_view, emit, missing_main_function, unknown_function_call,
    Finding, FindingView,
};
use super::{functions_view, Function, FunctionView};
use crate::ast::{
    clone_names, clone_stmts, program_view, Expr, ExprView, SourceInfo, Stmt, StmtView, TopLvl,
    TopLvlView,
};
use vstd::prelude::*;
use vstd::string::*;

verus! {

/// The functions that the first `n` top-level items define, in order of definition.
pub open spec fn registry_upto(items: Seq<TopLvlView>, n: nat) -> Seq<FunctionView>
    decreases n,
{
    if n == 0 {
        Seq::empty()
    } else {
        let before = registry_upto(items, (n - 1) as nat);
        match items[n - 1] {
            TopLvlView::FuncDef(name, args, body, source_info) => before.push(
                FunctionView { body, name, args, source_info },
            ),
            _ => before,
        }
    }
}

/// The functions that a program defines, in order of definition. A name that is
/// defined twice is listed twice.
pub open spec fn registry_of(items: Seq<TopLvlView>) -> Seq<FunctionView> {
    registry_upto(items, items.len())
}

/// The index of the first function called `name` at or after index `from`.
pub open spec fn lookup_from(funcs: Seq<FunctionView>, name: Seq<char>, from: int) -> Option<int>
    decreases funcs.len() - from,
{
    if from < 0 || from >= funcs.len() {
        None
    } else if funcs[from].name == name {
        Some(from)
    } else {
        lookup_from(funcs, name, from + 1)
    }
}

/// The index of the function that a name refers to: the first definition of that name.
pub open spec fn lookup(funcs: Seq<FunctionView>, name: Seq<char>) -> Option<int> {
    lookup_from(funcs, name, 0)
}

/// Whether the program has an entry point: a function called `main`.
pub open spec fn has_entry_point(funcs: Seq<FunctionView>) -> bool {
    lookup(funcs, "main"@) is Some
}

/// What the entry-point check reports.
pub open spec fn entry_point_diagnostics(funcs: Seq<FunctionView>) -> Seq<FindingView> {
    if has_entry_point(funcs) {
        seq![]
    } else {
        seq![missing_main_function()]
    }
}

/// What is reported of one call, by the name and the number of arguments it gives.
pub open spec fn resolve_call(
    funcs: Seq<FunctionView>,
    name: Seq<char>,
    argc: nat,
    at: SourceInfo,
) -> Seq<FindingView> {
    match lookup(funcs, name) {
        None => seq![unknown_function_call(name, at)],
        Some(i) => if funcs[i].args.len() != argc {
            seq![arity_mismatch(funcs[i].args.len(), argc, at, funcs[i].source_info)]
        } else {
            seq![]
        },
    }
}

/// The reports so far, followed by those of every call in the expression: a call
/// comes before the calls among its arguments, and operands go left to right.
pub open spec fn resolve_expr(
    funcs: Seq<FunctionView>,
    found: Seq<FindingView>,
    e: ExprView,
) -> Seq<FindingView>
    decreases e, 0nat,
{
    match e {
        ExprView::ArrayLit(items, _) => resolve_exprs(funcs, found, items, items.len()),
        ExprView::ArrayIndex(_, index, _) => resolve_expr(funcs, found, *index),
        ExprView::BinOp(lhs, _, rhs, _) => resolve_expr(
            funcs,
            resolve_expr(funcs, found, *lhs),
            *rhs,
        ),
        ExprView::Call(name, args, at) => resolve_exprs(
            funcs,
            found + resolve_call(funcs, name, args.len(), at),
            args,
            args.len(),
        ),
        ExprView::Return(value, _) => resolve_expr(funcs, found, *value),
        _ => found,
    }
}

/// The reports so far, followed by those of the first `n` of the expressions.
pub open spec fn resolve_exprs(
    funcs: Seq<FunctionView>,
    found: Seq<FindingView>,
    items: Seq<ExprView>,
    n: nat,
) -> Seq<FindingView>
    decreases items, n,
{
    if n == 0 || n > items.len() {
        found
    } else {
        resolve_expr(funcs, resolve_exprs(funcs, found, items, (n - 1) as nat), items[n - 1])
    }
}

/// The reports so far, followed by those of every call in the statement, in
/// the order of the source.
pub open spec fn resolve_stmt(
    funcs: Seq<FunctionView>,
    found: Seq<FindingView>,
    s: StmtView,
) -> Seq<FindingView>
    decreases s, 0nat,
{
    match s {
        StmtView::Expr(e, _) => resolve_expr(funcs, found, e),
        StmtView::If(cond, then_body, else_body, _) => {
            let after_cond = resolve_expr(funcs, found, cond);
            let after_then = resolve_stmts(funcs, after_cond, then_body, then_body.len());
            match else_body {
                Some(body) => resolve_stmts(funcs, after_then, body, body.len()),
                None => after_then,
            }
        },
        StmtView::While(cond, body, _) => resolve_stmts(
            funcs,
            resolve_expr(funcs, found, cond),
            body,
            body.len(),
        ),
        StmtView::Block(body, _) => resolve_stmts(funcs, found, body, body.len()),
        StmtView::Return(e, _) => resolve_expr(funcs, found, e),
        StmtView::Let(_, e, _) => resolve_expr(funcs, found, e),
        StmtView::Assign(_, e, _) => resolve_expr(funcs, found, e),
        StmtView::Error => found,
    }
}

/// The reports so far, followed by those of the first `n` of the statements.
pub open spec fn resolve_stmts(
    funcs: Seq<FunctionView>,
    found: Seq<FindingView>,
    body: Seq<StmtView>,
    n: nat,
) -> Seq<FindingView>
    decreases body, n,
{
    if n == 0 || n > body.len() {
        found
    } else {
        resolve_stmt(funcs, resolve_stmts(funcs, found, body, (n - 1) as nat), body[n - 1])
    }
}

/// The reports so far, followed by those of the bodies of the first `n` functions.
pub open spec fn resolve_functions(
    funcs: Seq<FunctionView>,
    found: Seq<FindingView>,
    n: nat,
) -> Seq<FindingView>
    decreases n,
{
    if n == 0 || n > funcs.len() {
        found
    } else {
        let body = funcs[n - 1].body;
        resolve_stmts(funcs, resolve_functions(funcs, found, (n - 1) as nat), body, body.len())
    }
}

/// What call resolution reports of a whole program: the calls of each function
/// body, the functions in order of definition.
pub open spec fn call_diagnostics(funcs: Seq<FunctionView>) -> Seq<FindingView> {
    resolve_functions(funcs, Seq::empty(), funcs.len())
}

/// What the two basic checks report together: the entry point first, then the calls.
pub open spec fn basic_diagnostics(funcs: Seq<FunctionView>) -> Seq<FindingView> {
    resolve_functions(funcs, entry_point_diagnostics(funcs), funcs.len())
}

/// The registry of the functions that a program defines.
pub struct FunctionChecker {
    funcs: Vec<Function>,
}

impl View for FunctionChecker {
    type V = Seq<FunctionView>;

    closed spec fn view(&self) -> Seq<FunctionView> {
        functions_view(self.funcs@)
    }
}

impl FunctionChecker {
    /// Builds the registry from the top-level items of a program.
    pub fn new(ast: &Vec<TopLvl>) -> (checker: FunctionChecker)
        ensures
            checker@ == registry_of(program_view(ast@)),
    {
        let mut funcs: Vec<Function> = Vec::new();
        let mut i: usize = 0;
        while i < ast.len()
            invariant
                i <= ast.len(),
                functions_view(funcs@) == registry_upto(program_view(ast@), i as nat),
            decreases ast.len() - i,
        {
            match &ast[i] {
                TopLvl::FuncDef(name, args, body, source_info) => {
                    let func = Function {
                        body: clone_stmts(body),
                        name: name.clone(),
                        args: clone_names(args),
                        source_info: source_info.clone(),
                    };
                    let ghost before = functions_view(funcs@);
                    funcs.push(func);
                    assert(functions_view(funcs@) =~= before.push(func@));
                },
                _ => (),
            }
            i += 1;
        }
        FunctionChecker { funcs }
    }

    /// How many functions the registry holds.
    pub fn len(&self) -> (n: usize)
        ensures
            n == self@.len(),
    {
        self.funcs.len()
    }

    /// The function at the given place in the order of definition, if there
    /// are that many.
    pub fn get(&self, i: usize) -> (func: Option<&Function>)
        ensures
            match func {
                Some(f) => i < self@.len() && f@ == self@[i as int],
                None => i >= self@.len(),
            },
    {
        if i < self.funcs.len() {
            Some(&self.funcs[i])
        } else {
            None
        }
    }

    /// The index of the function that a name refers to: the first definition of that name.
    pub fn find_func(&self, name: &String) -> (found: Option<usize>)
        ensures
            match found {
                Some(i) => lookup(self@, name@) == Some(i as int) && i < self@.len(),
                None => lookup(self@, name@) is None,
            },
    {
        let mut i: usize = 0;
        while i < self.funcs.len()
            invariant
                i <= self.funcs.len(),
                lookup(self@, name@) == lookup_from(self@, name@, i as int),
            decreases self.funcs.len() - i,
        {
            if self.funcs[i].name == *name {
                return Some(i);
            }
            i += 1;
        }
        None
    }

    /// The function that a name refers to: the first definition of that name.
    pub fn lookup(&self, name: &String) -> (found: Option<&Function>)
        ensures
            match found {
                Some(func) => match lookup(self@, name@) {
                    Some(i) => 0 <= i < self@.len() && func@ == self@[i],
                    None => false,
                },
                None => lookup(self@, name@) is None,
            },
    {
        match self.find_func(name) {
            Some(i) => Some(&self.funcs[i]),
            None => None,
        }
    }

    /// Whether a function called `main` is defined.
    pub fn has_entry_point(&self) -> (found: bool)
        ensures
            found == has_entry_point(self@),
    {
        let name = String::from_str("main");
        self.find_func(&name).is_some()
    }

    /// The entry-point check: reports a program without a function `main`.
    pub fn main_func_test(&self) -> (report: Option<Finding>)
        ensures
            match report {
                Some(d) => !has_entry_point(self@) && d@ == missing_main_function(),
                None => has_entry_point(self@),
            },
    {
        if self.has_entry_point() {
            None
        } else {
            Some(Finding::missing_main_function())
        }
    }

    fn resolve_call(&self, name: &String, argc: usize, at: &SourceInfo, errors: &mut Vec<Finding>)
        ensures
            diagnostics_view(final(errors)@) == diagnostics_view(old(errors)@) + resolve_call(
                self@,
                name@,
                argc as nat,
                *at,
            ),
    {
        let ghost before = diagnostics_view(errors@);
        match self.find_func(name) {
            None => {
                emit(errors, Finding::unknown_function_call(name, at));
                assert(before.push(unknown_function_call(name@, *at)) =~= before + seq![
                    unknown_function_call(name@, *at),
                ]);
            },
            Some(i) => {
                let callee = &self.funcs[i];
                if callee.args.len() != argc {
                    emit(
                        errors,
                        Finding::arity_mismatch(
                            callee.args.len(),
                            argc,
                            at,
                            &callee.source_info,
                        ),
                    );
                    let ghost d = arity_mismatch(
                        callee.args.len() as nat,
                        argc as nat,
                        *at,
                        callee.source_info,
                    );
                    assert(before.push(d) =~= before + seq![d]);
                } else {
                    assert(before =~= before + Seq::<FindingView>::empty());
                }
            },
        }
    }

    fn resolve_expr(&self, e: &Expr, errors: &mut Vec<Finding>)
        ensures
            diagnostics_view(final(errors)@) == resolve_expr(
                self@,
                diagnostics_view(old(errors)@),
                e@,
            ),
        decreases e, 0nat,
    {
        match e {
            Expr::ArrayLit(items, _) => self.resolve_exprs(items, errors),
            Expr::ArrayIndex(_, index, _) => self.resolve_expr(index, errors),
            Expr::BinOp(lhs, _, rhs, _) => {
                self.resolve_expr(lhs, errors);
                self.resolve_expr(rhs, errors);
            },
            Expr::Call(name, args, at) => {
                self.resolve_call(name, args.len(), at, errors);
                self.resolve_exprs(args, errors);
            },
            Expr::Return(value, _) => self.resolve_expr(value, errors),
            _ => (),
        }
    }

    fn resolve_exprs(&self, items: &Vec<Expr>, errors: &mut Vec<Finding>)
        ensures
            diagnostics_view(final(errors)@) == resolve_exprs(
                self@,
                diagnostics_view(old(errors)@),
                crate::ast::exprs_view(items@),
                items.len() as nat,
            ),
        decreases items, 0nat,
    {
        let mut i: usize = 0;
        while i < items.len()
            invariant
                i <= items.len(),
                diagnostics_view(errors@) == resolve_exprs(
                    self@,
                    diagnostics_view(old(errors)@),
                    crate::ast::exprs_view(items@),
                    i as nat,
                ),
            decreases items.len() - i,
        {
            self.resolve_expr(&items[i], errors);
            i += 1;
        }
    }

    fn resolve_stmt(&self, s: &Stmt, errors: &mut Vec<Finding>)
        ensures
            diagnostics_view(final(errors)@) == resolve_stmt(
                self@,
                diagnostics_view(old(errors)@),
                s@,
            ),
        decreases s, 0nat,
    {
        match s {
            Stmt::Expr(e, _) => self.resolve_expr(e, errors),
            Stmt::If(cond, then_body, else_body, _) => {
                self.resolve_expr(cond, errors);
                self.resolve_stmts(then_body, errors);
                match else_body {
                    Some(body) => self.resolve_stmts(body, errors),
                    None => (),
                }
            },
            Stmt::While(cond, body, _) => {
                self.resolve_expr(cond, errors);
                self.resolve_stmts(body, errors);
            },
            Stmt::Block(body, _) => self.resolve_stmts(body, errors),
            Stmt::Return(e, _) => self.resolve_expr(e, errors),
            Stmt::Let(_, e, _) => self.resolve_expr(e, errors),
            Stmt::Assign(_, e, _) => self.resolve_expr(e, errors),
            Stmt::Error => (),
        }
    }

    fn resolve_stmts(&self, body: &Vec<Stmt>, errors: &mut Vec<Finding>)
        ensures
            diagnostics_view(final(errors)@) == resolve_stmts(
                self@,
                diagnostics_view(old(errors)@),
                crate::ast::stmts_view(body@),
                body.len() as nat,
            ),
        decreases body, 0nat,
    {
        let mut i: usize = 0;
        while i < body.len()
            invariant
                i <= body.len(),
                diagnostics_view(errors@) == resolve_stmts(
                    self@,
                    diagnostics_view(old(errors)@),
                    crate::ast::stmts_view(body@),
                    i as nat,
                ),
            decreases body.len() - i,
        {
            self.resolve_stmt(&body[i], errors);
            i += 1;
        }
    }

    /// Appends what call resolution reports of the whole program.
    pub fn resolve_all(&self, errors: &mut Vec<Finding>)
        ensures
            diagnostics_view(final(errors)@) == resolve_functions(
                self@,
                diagnostics_view(old(errors)@),
                self@.len(),
            ),
    {
        let mut i: usize = 0;
        while i < self.funcs.len()
            invariant
                i <= self.funcs.len(),
                diagnostics_view(errors@) == resolve_functions(
                    self@,
                    diagnostics_view(old(errors)@),
                    i as nat,
                ),
            decreases self.funcs.len() - i,
        {
            self.resolve_stmts(&self.funcs[i].body, errors);
            i += 1;
        }
    }

    /// Call resolution: reports every call of an undefined function, and every
    /// call that passes a number of arguments other than its callee declares.
    /// `None` stands for "nothing to report".
    pub fn check_expr_args(&self) -> (report: Option<Vec<Finding>>)
        ensures
            match report {
                Some(errors) => errors.len() > 0 && diagnostics_view(errors@) == call_diagnostics(
                    self@,
                ),
                None => call_diagnostics(self@).len() == 0,
            },
    {
        let mut errors: Vec<Finding> = Vec::new();
        assert(diagnostics_view(errors@) =~= Seq::empty());
        self.resolve_all(&mut errors);
        if errors.len() > 0 {
            return Some(errors);
        }
        None
    }

    /// Both basic checks: the entry point first, then the calls.
    /// `None` stands for "nothing to report".
    pub fn run_checks(&self) -> (report: Option<Vec<Finding>>)
        ensures
            match report {
                Some(errors) => errors.len() > 0 && diagnostics_view(errors@) == basic_diagnostics(
                    self@,
                ),
                None => basic_diagnostics(self@).len() == 0,
            },
    {
        let mut errors: Vec<Finding> = Vec::new();
        assert(diagnostics_view(errors@) + entry_point_diagnostics(self@)
            =~= entry_point_diagnostics(self@));
        self.check_into(&mut errors);
        if errors.len() > 0 {
            return Some(errors);
        }
        None
    }

    /// Appends what both basic checks report.
    pub fn check_into(&self, errors: &mut Vec<Finding>)
        ensures
            diagnostics_view(final(errors)@) == resolve_functions(
                self@,
                diagnostics_view(old(errors)@) + entry_point_diagnostics(self@),
                self@.len(),
            ),
    {
        let ghost before = diagnostics_view(errors@);
        if let Some(error) = self.main_func_test() {
            emit(errors, error);
        }
        assert(diagnostics_view(errors@) =~= before + entry_point_diagnostics(self@));
        self.resolve_all(errors);
    }
}

} // verus!
