//! The analysis itself: function registry, call resolution and type checking.

use crate::ast::{names_view, program_view, stmts_view, SourceInfo, Stmt, StmtView, TopLvl};
use vstd::prelude::*;

pub mod basic_checks;
pub mod checker;
pub mod diagnostics;
pub mod erasure;
pub mod laws;
pub mod rules;
pub mod scope;
pub mod typechecking;
pub mod well_typed;

use self::basic_checks::{basic_diagnostics, FunctionChecker};
use self::checker::{check_stmts, enter_function};
use self::diagnostics::{diagnostics_view, Finding};
use self::rules::{analysis, check_items, inferred_return, typed_params, Progress};
use self::typechecking::{typed_params_view, typed_program_view, Type, TypedTopLvl};

verus! {

/// A function definition as the registry holds it.
#[derive(Debug, PartialEq)]
pub struct Function {
    pub body: Vec<Stmt>,
    pub name: String,
    pub args: Vec<String>,
    pub source_info: SourceInfo,
}

/// Mathematical model of a [`Function`].
pub ghost struct FunctionView {
    pub body: Seq<StmtView>,
    pub name: Seq<char>,
    pub args: Seq<Seq<char>>,
    pub source_info: SourceInfo,
}

impl View for Function {
    type V = FunctionView;

    open spec fn view(&self) -> FunctionView {
        FunctionView {
            body: stmts_view(self.body@),
            name: self.name@,
            args: names_view(self.args@),
            source_info: self.source_info,
        }
    }
}

impl Clone for Function {
    fn clone(&self) -> (copy: Function)
        ensures
            copy@ == self@,
    {
        Function {
            body: crate::ast::clone_stmts(&self.body),
            name: self.name.clone(),
            args: crate::ast::clone_names(&self.args),
            source_info: self.source_info.clone(),
        }
    }
}

/// The models of a sequence of functions, in order.
pub open spec fn functions_view(funcs: Seq<Function>) -> Seq<FunctionView> {
    Seq::new(funcs.len(), |i: int| funcs[i]@)
}

/// The parameters of a function, each with the type it is checked under.
fn unknown_params(params: &Vec<String>) -> (typed: Vec<(String, Type)>)
    ensures
        typed_params_view(typed@) == typed_params(names_view(params@)),
{
    let mut typed: Vec<(String, Type)> = Vec::new();
    let mut i: usize = 0;
    while i < params.len()
        invariant
            i <= params.len(),
            typed.len() == i,
            forall|j: int| 0 <= j < i ==> typed[j].0@ == params[j]@ && typed[j].1 == Type::Unknown,
        decreases params.len() - i,
    {
        typed.push((params[i].clone(), Type::Unknown));
        i += 1;
    }
    assert(typed_params_view(typed@) =~= typed_params(names_view(params@)));
    typed
}

/// Analyses a program: builds the registry of its functions, checks that it
/// has an entry point, resolves every call, and checks the types of every
/// function body. Returns the typed program and every diagnostic, in that
/// order of the checks. Nothing stops the analysis early.
pub fn analyze(ast: &Vec<TopLvl>) -> (result: (Vec<TypedTopLvl>, Vec<Finding>))
    ensures
        (typed_program_view(result.0@), diagnostics_view(result.1@)) == analysis(
            program_view(ast@),
        ),
{
    let registry = FunctionChecker::new(ast);
    let mut diagnostics: Vec<Finding> = Vec::new();
    assert(diagnostics_view(diagnostics@) + self::basic_checks::entry_point_diagnostics(registry@)
        =~= self::basic_checks::entry_point_diagnostics(registry@));
    registry.check_into(&mut diagnostics);
    let mut typed: Vec<TypedTopLvl> = Vec::new();
    let mut rets: Vec<Type> = Vec::new();
    let mut i: usize = 0;
    assert(typed_program_view(typed@) =~= Seq::empty());
    assert(rets@ =~= Seq::empty());
    while i < ast.len()
        invariant
            i <= ast.len(),
            registry@ == self::basic_checks::registry_of(program_view(ast@)),
            check_items(registry@, program_view(ast@), i as nat, basic_diagnostics(registry@))
                == (Progress {
                typed: typed_program_view(typed@),
                rets: rets@,
                diags: diagnostics_view(diagnostics@),
            }),
        decreases ast.len() - i,
    {
        let ghost before = typed_program_view(typed@);
        let ghost before_rets = rets@;
        match &ast[i] {
            TopLvl::Import(path, at) => {
                let item = TypedTopLvl::Import(path.clone(), at.clone());
                typed.push(item);
                assert(typed_program_view(typed@) =~= before.push(item@));
            },
            TopLvl::FuncDef(name, params, body, at) => {
                let mut state = enter_function(params, diagnostics);
                let body_typed = check_stmts(&registry, &rets, 0, &mut state, body);
                let ret = match &state.returned {
                    Some(returned) => returned.ty.clone(),
                    None => Type::Unknown,
                };
                assert(ret == inferred_return(state@));
                diagnostics = state.diagnostics;
                rets.push(ret);
                let item = TypedTopLvl::FuncDef(
                    name.clone(),
                    unknown_params(params),
                    body_typed,
                    at.clone(),
                );
                typed.push(item);
                assert(typed_program_view(typed@) =~= before.push(item@));
                assert(rets@ =~= before_rets.push(ret));
            },
            TopLvl::Error => {
                let item = TypedTopLvl::Error;
                typed.push(item);
                assert(typed_program_view(typed@) =~= before.push(item@));
            },
        }
        i += 1;
    }
    (typed, diagnostics)
}

/// Runs every check on a program and returns what they report, ready to be
/// rendered: the entry-point check first, then call resolution, then type checking.
pub fn run_all_checks(ast: &Vec<TopLvl>) -> (reports: Vec<
    codespan_reporting::diagnostic::Diagnostic<usize>,
>)
    ensures
        crate::report::report_contents(reports@) == crate::report::reports_of(analysis(program_view(ast@)).1),
{
    let (_, diagnostics) = analyze(ast);
    crate::report::to_reports(&diagnostics)
}

} // verus!
