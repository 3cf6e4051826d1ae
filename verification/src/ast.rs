//! The untyped syntax tree handed over by the parser, and its mathematical model.

use std::ops::Range;
use vstd::prelude::*;

verus! {

/// Location of a syntactic construct: a half-open range of byte offsets.
#[derive(Debug, PartialEq)]
pub struct SourceInfo {
    pub span: Range<usize>,
}

impl SourceInfo {
    pub fn new(range: Range<usize>) -> (info: SourceInfo)
        ensures
            info.span == range,
    {
        SourceInfo { span: range }
    }

}

impl Clone for SourceInfo {
    fn clone(&self) -> (info: SourceInfo)
        ensures
            info == *self,
    {
        SourceInfo { span: Range { start: self.span.start, end: self.span.end } }
    }
}

#[derive(Debug, Clone, Copy, PartialEq)]
pub enum BinOp {
    Add,
    Sub,
    Mul,
    Div,
    Mod,
    Pow,
    Eq,
    Ne,
    Lt,
    Le,
    Gt,
    Ge,
    And,
    Or,
}

#[derive(Debug, PartialEq)]
pub enum Expr {
    /// A float literal, held as the IEEE 754 bit pattern of its value.
    Float(u64, SourceInfo),
    Int(i64, SourceInfo),
    StringLit(String, SourceInfo),
    Ident(String, SourceInfo),
    ArrayLit(Vec<Expr>, SourceInfo),
    ArrayIndex(String, Box<Expr>, SourceInfo),
    BinOp(Box<Expr>, BinOp, Box<Expr>, SourceInfo),
    Call(String, Vec<Expr>, SourceInfo),
    Return(Box<Expr>, SourceInfo),
    Break(SourceInfo),
    Continue(SourceInfo),
    BoolLit(bool, SourceInfo),
    Error,
}

/// Mathematical model of an [`Expr`].
pub ghost enum ExprView {
    Float(u64, SourceInfo),
    Int(i64, SourceInfo),
    StringLit(Seq<char>, SourceInfo),
    Ident(Seq<char>, SourceInfo),
    ArrayLit(Seq<ExprView>, SourceInfo),
    ArrayIndex(Seq<char>, Box<ExprView>, SourceInfo),
    BinOp(Box<ExprView>, BinOp, Box<ExprView>, SourceInfo),
    Call(Seq<char>, Seq<ExprView>, SourceInfo),
    Return(Box<ExprView>, SourceInfo),
    Break(SourceInfo),
    Continue(SourceInfo),
    BoolLit(bool, SourceInfo),
    Error,
}

/// The model of an expression.
pub open spec fn expr_view(e: Expr) -> ExprView
    decreases e,
{
    match e {
        Expr::Float(bits, info) => ExprView::Float(bits, info),
        Expr::Int(value, info) => ExprView::Int(value, info),
        Expr::StringLit(text, info) => ExprView::StringLit(text@, info),
        Expr::Ident(name, info) => ExprView::Ident(name@, info),
        Expr::ArrayLit(items, info) => ExprView::ArrayLit(
            exprs_view(items@),
            info,
        ),
        Expr::ArrayIndex(name, index, info) => ExprView::ArrayIndex(
            name@,
            Box::new(expr_view(*index)),
            info,
        ),
        Expr::BinOp(lhs, op, rhs, info) => ExprView::BinOp(
            Box::new(expr_view(*lhs)),
            op,
            Box::new(expr_view(*rhs)),
            info,
        ),
        Expr::Call(name, args, info) => ExprView::Call(
            name@,
            exprs_view(args@),
            info,
        ),
        Expr::Return(value, info) => ExprView::Return(Box::new(expr_view(*value)), info),
        Expr::Break(info) => ExprView::Break(info),
        Expr::Continue(info) => ExprView::Continue(info),
        Expr::BoolLit(value, info) => ExprView::BoolLit(value, info),
        Expr::Error => ExprView::Error,
    }
}

impl View for Expr {
    type V = ExprView;

    open spec fn view(&self) -> ExprView {
        expr_view(*self)
    }
}

/// The models of a sequence of expressions, in order.
pub open spec fn exprs_view(items: Seq<Expr>) -> Seq<ExprView>
    decreases items,
{
    Seq::new(
        items.len(),
        |i: int|
            if 0 <= i < items.len() {
                expr_view(items[i])
            } else {
                ExprView::Error
            },
    )
}

/// An independent copy of an expression sequence.
pub fn clone_exprs(items: &Vec<Expr>) -> (copy: Vec<Expr>)
    ensures
        exprs_view(copy@) == exprs_view(items@),
    decreases items,
{
    let mut copy: Vec<Expr> = Vec::new();
    let mut i: usize = 0;
    while i < items.len()
        invariant
            i <= items.len(),
            copy.len() == i,
            forall|j: int| 0 <= j < i ==> expr_view(copy[j]) == expr_view(items[j]),
        decreases items.len() - i,
    {
        let item = clone_expr(&items[i]);
        copy.push(item);
        i += 1;
    }
    assert(exprs_view(copy@) =~= exprs_view(items@));
    copy
}

fn clone_expr(e: &Expr) -> (copy: Expr)
    ensures
        copy@ == e@,
    decreases e,
{
    match e {
        Expr::Float(bits, info) => Expr::Float(*bits, info.clone()),
        Expr::Int(value, info) => Expr::Int(*value, info.clone()),
        Expr::StringLit(text, info) => Expr::StringLit(text.clone(), info.clone()),
        Expr::Ident(name, info) => Expr::Ident(name.clone(), info.clone()),
        Expr::ArrayLit(items, info) => Expr::ArrayLit(clone_exprs(items), info.clone()),
        Expr::ArrayIndex(name, index, info) => Expr::ArrayIndex(
            name.clone(),
            Box::new(clone_expr(index)),
            info.clone(),
        ),
        Expr::BinOp(lhs, op, rhs, info) => Expr::BinOp(
            Box::new(clone_expr(lhs)),
            *op,
            Box::new(clone_expr(rhs)),
            info.clone(),
        ),
        Expr::Call(name, args, info) => Expr::Call(name.clone(), clone_exprs(args), info.clone()),
        Expr::Return(value, info) => Expr::Return(Box::new(clone_expr(value)), info.clone()),
        Expr::Break(info) => Expr::Break(info.clone()),
        Expr::Continue(info) => Expr::Continue(info.clone()),
        Expr::BoolLit(value, info) => Expr::BoolLit(*value, info.clone()),
        Expr::Error => Expr::Error,
    }
}

impl Clone for Expr {
    fn clone(&self) -> (copy: Expr)
        ensures
            copy@ == self@,
    {
        clone_expr(self)
    }
}

#[derive(Debug, PartialEq)]
pub enum Stmt {
    Expr(Expr, SourceInfo),
    If(Expr, Vec<Stmt>, Option<Vec<Stmt>>, SourceInfo),
    While(Expr, Vec<Stmt>, SourceInfo),
    Block(Vec<Stmt>, SourceInfo),
    Return(Expr, SourceInfo),
    Let(String, Expr, SourceInfo),
    Assign(String, Expr, SourceInfo),
    Error,
}

/// Mathematical model of a [`Stmt`].
pub ghost enum StmtView {
    Expr(ExprView, SourceInfo),
    If(ExprView, Seq<StmtView>, Option<Seq<StmtView>>, SourceInfo),
    While(ExprView, Seq<StmtView>, SourceInfo),
    Block(Seq<StmtView>, SourceInfo),
    Return(ExprView, SourceInfo),
    Let(Seq<char>, ExprView, SourceInfo),
    Assign(Seq<char>, ExprView, SourceInfo),
    Error,
}

/// The model of a statement.
pub open spec fn stmt_view(s: Stmt) -> StmtView
    decreases s,
{
    match s {
        Stmt::Expr(e, info) => StmtView::Expr(e@, info),
        Stmt::If(cond, then_body, else_body, info) => StmtView::If(
            cond@,
            stmts_view(then_body@),
            match else_body {
                Some(body) => Some(stmts_view(body@)),
                None => None,
            },
            info,
        ),
        Stmt::While(cond, body, info) => StmtView::While(cond@, stmts_view(body@), info),
        Stmt::Block(body, info) => StmtView::Block(stmts_view(body@), info),
        Stmt::Return(e, info) => StmtView::Return(e@, info),
        Stmt::Let(name, e, info) => StmtView::Let(name@, e@, info),
        Stmt::Assign(name, e, info) => StmtView::Assign(name@, e@, info),
        Stmt::Error => StmtView::Error,
    }
}

/// The models of a sequence of statements, in order.
pub open spec fn stmts_view(body: Seq<Stmt>) -> Seq<StmtView>
    decreases body,
{
    Seq::new(
        body.len(),
        |i: int|
            if 0 <= i < body.len() {
                stmt_view(body[i])
            } else {
                StmtView::Error
            },
    )
}

impl View for Stmt {
    type V = StmtView;

    open spec fn view(&self) -> StmtView {
        stmt_view(*self)
    }
}

/// An independent copy of a statement sequence.
pub fn clone_stmts(body: &Vec<Stmt>) -> (copy: Vec<Stmt>)
    ensures
        stmts_view(copy@) == stmts_view(body@),
    decreases body,
{
    let mut copy: Vec<Stmt> = Vec::new();
    let mut i: usize = 0;
    while i < body.len()
        invariant
            i <= body.len(),
            copy.len() == i,
            forall|j: int| 0 <= j < i ==> stmt_view(copy[j]) == stmt_view(body[j]),
        decreases body.len() - i,
    {
        let item = clone_stmt(&body[i]);
        copy.push(item);
        i += 1;
    }
    assert(stmts_view(copy@) =~= stmts_view(body@));
    copy
}

fn clone_stmt(s: &Stmt) -> (copy: Stmt)
    ensures
        copy@ == s@,
    decreases s,
{
    match s {
        Stmt::Expr(e, info) => Stmt::Expr(e.clone(), info.clone()),
        Stmt::If(cond, then_body, else_body, info) => {
            let else_copy = match else_body {
                Some(body) => Some(clone_stmts(body)),
                None => None,
            };
            Stmt::If(cond.clone(), clone_stmts(then_body), else_copy, info.clone())
        },
        Stmt::While(cond, body, info) => Stmt::While(cond.clone(), clone_stmts(body), info.clone()),
        Stmt::Block(body, info) => Stmt::Block(clone_stmts(body), info.clone()),
        Stmt::Return(e, info) => Stmt::Return(e.clone(), info.clone()),
        Stmt::Let(name, e, info) => Stmt::Let(name.clone(), e.clone(), info.clone()),
        Stmt::Assign(name, e, info) => Stmt::Assign(name.clone(), e.clone(), info.clone()),
        Stmt::Error => Stmt::Error,
    }
}

impl Clone for Stmt {
    fn clone(&self) -> (copy: Stmt)
        ensures
            copy@ == self@,
    {
        clone_stmt(self)
    }
}

/// The models of a sequence of names, in order.
pub open spec fn names_view(names: Seq<String>) -> Seq<Seq<char>> {
    Seq::new(names.len(), |i: int| names[i]@)
}

/// An independent copy of a list of names.
pub fn clone_names(names: &Vec<String>) -> (copy: Vec<String>)
    ensures
        names_view(copy@) == names_view(names@),
{
    let mut copy: Vec<String> = Vec::new();
    let mut i: usize = 0;
    while i < names.len()
        invariant
            i <= names.len(),
            copy.len() == i,
            forall|j: int| 0 <= j < i ==> copy[j]@ == names[j]@,
        decreases names.len() - i,
    {
        copy.push(names[i].clone());
        i += 1;
    }
    assert(names_view(copy@) =~= names_view(names@));
    copy
}

#[derive(Debug, PartialEq)]
pub enum TopLvl {
    Import(String, SourceInfo),
    /// A function definition: name, parameter names, body, location.
    FuncDef(String, Vec<String>, Vec<Stmt>, SourceInfo),
    Error,
}

/// Mathematical model of a [`TopLvl`].
pub ghost enum TopLvlView {
    Import(Seq<char>, SourceInfo),
    FuncDef(Seq<char>, Seq<Seq<char>>, Seq<StmtView>, SourceInfo),
    Error,
}

impl View for TopLvl {
    type V = TopLvlView;

    open spec fn view(&self) -> TopLvlView {
        match self {
            TopLvl::Import(path, info) => TopLvlView::Import(path@, *info),
            TopLvl::FuncDef(name, params, body, info) => TopLvlView::FuncDef(
                name@,
                names_view(params@),
                stmts_view(body@),
                *info,
            ),
            TopLvl::Error => TopLvlView::Error,
        }
    }
}

impl Clone for TopLvl {
    fn clone(&self) -> (copy: TopLvl)
        ensures
            copy@ == self@,
    {
        match self {
            TopLvl::Import(path, info) => TopLvl::Import(path.clone(), info.clone()),
            TopLvl::FuncDef(name, params, body, info) => TopLvl::FuncDef(
                name.clone(),
                clone_names(params),
                clone_stmts(body),
                info.clone(),
            ),
            TopLvl::Error => TopLvl::Error,
        }
    }
}

/// The model of a whole program: the models of its top-level items, in order.
pub open spec fn program_view(items: Seq<TopLvl>) -> Seq<TopLvlView> {
    Seq::new(items.len(), |i: int| items[i]@)
}

} // verus!
