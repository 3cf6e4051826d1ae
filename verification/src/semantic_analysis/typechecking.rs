//! Types, and the typed syntax tree that the type checker produces.

use crate::ast::{BinOp, SourceInfo};
use vstd::prelude::*;

verus! {

/// The type of an expression.
///
/// `Unknown` stands for a type that could not be resolved. It goes with every
/// other type, so that one error is reported once and not again further up.
#[derive(Debug, PartialEq)]
pub enum Type {
    Int,
    Float,
    Bool,
    String,
    Array(Box<Type>),
    Unknown,
}

/// Whether two types go together: they are equal wherever neither is `Unknown`.
pub open spec fn compatible(a: Type, b: Type) -> bool
    decreases a,
{
    match (a, b) {
        (Type::Unknown, _) => true,
        (_, Type::Unknown) => true,
        (Type::Array(x), Type::Array(y)) => compatible(*x, *y),
        _ => a == b,
    }
}

/// The more specific of two compatible types: `Unknown` gives way to the other side.
pub open spec fn join(a: Type, b: Type) -> Type
    decreases a,
{
    match (a, b) {
        (Type::Unknown, _) => b,
        (_, Type::Unknown) => a,
        (Type::Array(x), Type::Array(y)) => Type::Array(Box::new(join(*x, *y))),
        _ => a,
    }
}

impl Clone for Type {
    fn clone(&self) -> (copy: Type)
        ensures
            copy == *self,
        decreases self,
    {
        match self {
            Type::Int => Type::Int,
            Type::Float => Type::Float,
            Type::Bool => Type::Bool,
            Type::String => Type::String,
            Type::Array(element) => {
                let inner = (**element).clone();
                Type::Array(Box::new(inner))
            },
            Type::Unknown => Type::Unknown,
        }
    }
}

impl Type {
    pub fn is_unknown(&self) -> (r: bool)
        ensures
            r == (*self == Type::Unknown),
    {
        match self {
            Type::Unknown => true,
            _ => false,
        }
    }

    pub fn is_int(&self) -> (r: bool)
        ensures
            r == (*self == Type::Int),
    {
        match self {
            Type::Int => true,
            _ => false,
        }
    }

    pub fn is_float(&self) -> (r: bool)
        ensures
            r == (*self == Type::Float),
    {
        match self {
            Type::Float => true,
            _ => false,
        }
    }

    pub fn is_bool(&self) -> (r: bool)
        ensures
            r == (*self == Type::Bool),
    {
        match self {
            Type::Bool => true,
            _ => false,
        }
    }

    /// Whether this type goes together with `other`.
    pub fn is_compatible_with(&self, other: &Type) -> (r: bool)
        ensures
            r == compatible(*self, *other),
        decreases self,
    {
        match (self, other) {
            (Type::Unknown, _) => true,
            (_, Type::Unknown) => true,
            (Type::Array(x), Type::Array(y)) => (**x).is_compatible_with(&**y),
            (Type::Int, Type::Int) => true,
            (Type::Float, Type::Float) => true,
            (Type::Bool, Type::Bool) => true,
            (Type::String, Type::String) => true,
            _ => false,
        }
    }

    /// The more specific of this type and `other`.
    pub fn merged_with(&self, other: &Type) -> (r: Type)
        ensures
            r == join(*self, *other),
        decreases self,
    {
        match (self, other) {
            (Type::Unknown, _) => other.clone(),
            (_, Type::Unknown) => self.clone(),
            (Type::Array(x), Type::Array(y)) => {
                let inner = (**x).merged_with(&**y);
                Type::Array(Box::new(inner))
            },
            _ => self.clone(),
        }
    }
}

#[derive(Debug, PartialEq)]
pub enum TypedExpr {
    /// A float literal, held as the IEEE 754 bit pattern of its value.
    Float(u64, SourceInfo),
    Int(i64, SourceInfo),
    StringLit(String, SourceInfo),
    Ident(String, SourceInfo, Type),
    ArrayLit(Vec<TypedExpr>, SourceInfo, Type),
    ArrayIndex(String, Box<TypedExpr>, SourceInfo, Type),
    BinOp(Box<TypedExpr>, BinOp, Box<TypedExpr>, SourceInfo, Type),
    /// A call, with the return type resolved for the callee.
    Call(String, Vec<TypedExpr>, SourceInfo, Type),
    Return(Box<TypedExpr>, SourceInfo),
    Break(SourceInfo),
    Continue(SourceInfo),
    BoolLit(bool, SourceInfo),
    Error,
}

/// Mathematical model of a [`TypedExpr`].
pub ghost enum TypedExprView {
    Float(u64, SourceInfo),
    Int(i64, SourceInfo),
    StringLit(Seq<char>, SourceInfo),
    Ident(Seq<char>, SourceInfo, Type),
    ArrayLit(Seq<TypedExprView>, SourceInfo, Type),
    ArrayIndex(Seq<char>, Box<TypedExprView>, SourceInfo, Type),
    BinOp(Box<TypedExprView>, BinOp, Box<TypedExprView>, SourceInfo, Type),
    Call(Seq<char>, Seq<TypedExprView>, SourceInfo, Type),
    Return(Box<TypedExprView>, SourceInfo),
    Break(SourceInfo),
    Continue(SourceInfo),
    BoolLit(bool, SourceInfo),
    Error,
}

impl TypedExprView {
    /// The type of the expression. A node that yields no value has type `Unknown`.
    pub open spec fn ty(self) -> Type {
        match self {
            TypedExprView::Float(_, _) => Type::Float,
            TypedExprView::Int(_, _) => Type::Int,
            TypedExprView::StringLit(_, _) => Type::String,
            TypedExprView::BoolLit(_, _) => Type::Bool,
            TypedExprView::Ident(_, _, t) => t,
            TypedExprView::ArrayLit(_, _, t) => t,
            TypedExprView::ArrayIndex(_, _, _, t) => t,
            TypedExprView::BinOp(_, _, _, _, t) => t,
            TypedExprView::Call(_, _, _, t) => t,
            TypedExprView::Return(_, _) => Type::Unknown,
            TypedExprView::Break(_) => Type::Unknown,
            TypedExprView::Continue(_) => Type::Unknown,
            TypedExprView::Error => Type::Unknown,
        }
    }

    /// Where the expression stands in the source, if it has a place there.
    pub open spec fn span(self) -> Option<SourceInfo> {
        match self {
            TypedExprView::Float(_, info) => Some(info),
            TypedExprView::Int(_, info) => Some(info),
            TypedExprView::StringLit(_, info) => Some(info),
            TypedExprView::BoolLit(_, info) => Some(info),
            TypedExprView::Ident(_, info, _) => Some(info),
            TypedExprView::ArrayLit(_, info, _) => Some(info),
            TypedExprView::ArrayIndex(_, _, info, _) => Some(info),
            TypedExprView::BinOp(_, _, _, info, _) => Some(info),
            TypedExprView::Call(_, _, info, _) => Some(info),
            TypedExprView::Return(_, info) => Some(info),
            TypedExprView::Break(info) => Some(info),
            TypedExprView::Continue(info) => Some(info),
            TypedExprView::Error => None,
        }
    }
}

/// The model of a typed expression.
pub open spec fn typed_expr_view(e: TypedExpr) -> TypedExprView
    decreases e,
{
    match e {
        TypedExpr::Float(bits, info) => TypedExprView::Float(bits, info),
        TypedExpr::Int(value, info) => TypedExprView::Int(value, info),
        TypedExpr::StringLit(text, info) => TypedExprView::StringLit(text@, info),
        TypedExpr::Ident(name, info, t) => TypedExprView::Ident(name@, info, t),
        TypedExpr::ArrayLit(items, info, t) => TypedExprView::ArrayLit(
            typed_exprs_view(items@),
            info,
            t,
        ),
        TypedExpr::ArrayIndex(name, index, info, t) => TypedExprView::ArrayIndex(
            name@,
            Box::new(typed_expr_view(*index)),
            info,
            t,
        ),
        TypedExpr::BinOp(lhs, op, rhs, info, t) => TypedExprView::BinOp(
            Box::new(typed_expr_view(*lhs)),
            op,
            Box::new(typed_expr_view(*rhs)),
            info,
            t,
        ),
        TypedExpr::Call(name, args, info, t) => TypedExprView::Call(
            name@,
            typed_exprs_view(args@),
            info,
            t,
        ),
        TypedExpr::Return(value, info) => TypedExprView::Return(
            Box::new(typed_expr_view(*value)),
            info,
        ),
        TypedExpr::Break(info) => TypedExprView::Break(info),
        TypedExpr::Continue(info) => TypedExprView::Continue(info),
        TypedExpr::BoolLit(value, info) => TypedExprView::BoolLit(value, info),
        TypedExpr::Error => TypedExprView::Error,
    }
}

/// The models of a sequence of typed expressions, in order.
pub open spec fn typed_exprs_view(items: Seq<TypedExpr>) -> Seq<TypedExprView>
    decreases items,
{
    Seq::new(
        items.len(),
        |i: int|
            if 0 <= i < items.len() {
                typed_expr_view(items[i])
            } else {
                TypedExprView::Error
            },
    )
}

impl View for TypedExpr {
    type V = TypedExprView;

    open spec fn view(&self) -> TypedExprView {
        typed_expr_view(*self)
    }
}

impl TypedExpr {
    /// The type of the expression. A node that yields no value has type `Unknown`.
    pub fn ty(&self) -> (t: Type)
        ensures
            t == self@.ty(),
    {
        match self {
            TypedExpr::Float(_, _) => Type::Float,
            TypedExpr::Int(_, _) => Type::Int,
            TypedExpr::StringLit(_, _) => Type::String,
            TypedExpr::BoolLit(_, _) => Type::Bool,
            TypedExpr::Ident(_, _, t) => t.clone(),
            TypedExpr::ArrayLit(_, _, t) => t.clone(),
            TypedExpr::ArrayIndex(_, _, _, t) => t.clone(),
            TypedExpr::BinOp(_, _, _, _, t) => t.clone(),
            TypedExpr::Call(_, _, _, t) => t.clone(),
            TypedExpr::Return(_, _) => Type::Unknown,
            TypedExpr::Break(_) => Type::Unknown,
            TypedExpr::Continue(_) => Type::Unknown,
            TypedExpr::Error => Type::Unknown,
        }
    }

    /// Where the expression stands in the source, if it has a place there.
    pub fn span(&self) -> (at: Option<SourceInfo>)
        ensures
            at == self@.span(),
    {
        match self {
            TypedExpr::Float(_, info) => Some(info.clone()),
            TypedExpr::Int(_, info) => Some(info.clone()),
            TypedExpr::StringLit(_, info) => Some(info.clone()),
            TypedExpr::BoolLit(_, info) => Some(info.clone()),
            TypedExpr::Ident(_, info, _) => Some(info.clone()),
            TypedExpr::ArrayLit(_, info, _) => Some(info.clone()),
            TypedExpr::ArrayIndex(_, _, info, _) => Some(info.clone()),
            TypedExpr::BinOp(_, _, _, info, _) => Some(info.clone()),
            TypedExpr::Call(_, _, info, _) => Some(info.clone()),
            TypedExpr::Return(_, info) => Some(info.clone()),
            TypedExpr::Break(info) => Some(info.clone()),
            TypedExpr::Continue(info) => Some(info.clone()),
            TypedExpr::Error => None,
        }
    }
}

#[derive(Debug, PartialEq)]
pub enum TypedStmt {
    Expr(TypedExpr, SourceInfo),
    If(TypedExpr, Vec<TypedStmt>, Option<Vec<TypedStmt>>, SourceInfo),
    While(TypedExpr, Vec<TypedStmt>, SourceInfo),
    Block(Vec<TypedStmt>, SourceInfo),
    Return(TypedExpr, SourceInfo),
    Let(String, TypedExpr, SourceInfo),
    Assign(String, TypedExpr, SourceInfo),
    Error,
}

/// Mathematical model of a [`TypedStmt`].
pub ghost enum TypedStmtView {
    Expr(TypedExprView, SourceInfo),
    If(TypedExprView, Seq<TypedStmtView>, Option<Seq<TypedStmtView>>, SourceInfo),
    While(TypedExprView, Seq<TypedStmtView>, SourceInfo),
    Block(Seq<TypedStmtView>, SourceInfo),
    Return(TypedExprView, SourceInfo),
    Let(Seq<char>, TypedExprView, SourceInfo),
    Assign(Seq<char>, TypedExprView, SourceInfo),
    Error,
}

/// The model of a typed statement.
pub open spec fn typed_stmt_view(s: TypedStmt) -> TypedStmtView
    decreases s,
{
    match s {
        TypedStmt::Expr(e, info) => TypedStmtView::Expr(e@, info),
        TypedStmt::If(cond, then_body, else_body, info) => TypedStmtView::If(
            cond@,
            typed_stmts_view(then_body@),
            match else_body {
                Some(body) => Some(typed_stmts_view(body@)),
                None => None,
            },
            info,
        ),
        TypedStmt::While(cond, body, info) => TypedStmtView::While(
            cond@,
            typed_stmts_view(body@),
            info,
        ),
        TypedStmt::Block(body, info) => TypedStmtView::Block(typed_stmts_view(body@), info),
        TypedStmt::Return(e, info) => TypedStmtView::Return(e@, info),
        TypedStmt::Let(name, e, info) => TypedStmtView::Let(name@, e@, info),
        TypedStmt::Assign(name, e, info) => TypedStmtView::Assign(name@, e@, info),
        TypedStmt::Error => TypedStmtView::Error,
    }
}

/// The models of a sequence of typed statements, in order.
pub open spec fn typed_stmts_view(body: Seq<TypedStmt>) -> Seq<TypedStmtView>
    decreases body,
{
    Seq::new(
        body.len(),
        |i: int|
            if 0 <= i < body.len() {
                typed_stmt_view(body[i])
            } else {
                TypedStmtView::Error
            },
    )
}

impl View for TypedStmt {
    type V = TypedStmtView;

    open spec fn view(&self) -> TypedStmtView {
        typed_stmt_view(*self)
    }
}

#[derive(Debug, PartialEq)]
pub enum TypedTopLvl {
    Import(String, SourceInfo),
    /// A function definition: name, parameters with their types, body, location.
    FuncDef(String, Vec<(String, Type)>, Vec<TypedStmt>, SourceInfo),
    Error,
}

/// Mathematical model of a [`TypedTopLvl`].
pub ghost enum TypedTopLvlView {
    Import(Seq<char>, SourceInfo),
    FuncDef(Seq<char>, Seq<(Seq<char>, Type)>, Seq<TypedStmtView>, SourceInfo),
    Error,
}

/// The models of a sequence of typed parameters, in order.
pub open spec fn typed_params_view(params: Seq<(String, Type)>) -> Seq<(Seq<char>, Type)> {
    Seq::new(params.len(), |i: int| (params[i].0@, params[i].1))
}

impl View for TypedTopLvl {
    type V = TypedTopLvlView;

    open spec fn view(&self) -> TypedTopLvlView {
        match self {
            TypedTopLvl::Import(path, info) => TypedTopLvlView::Import(path@, *info),
            TypedTopLvl::FuncDef(name, params, body, info) => TypedTopLvlView::FuncDef(
                name@,
                typed_params_view(params@),
                typed_stmts_view(body@),
                *info,
            ),
            TypedTopLvl::Error => TypedTopLvlView::Error,
        }
    }
}

/// The model of a typed program: the models of its top-level items, in order.
pub open spec fn typed_program_view(items: Seq<TypedTopLvl>) -> Seq<TypedTopLvlView> {
    Seq::new(items.len(), |i: int| items[i]@)
}

/// An independent copy of a sequence of typed expressions.
pub fn clone_typed_exprs(items: &Vec<TypedExpr>) -> (copy: Vec<TypedExpr>)
    ensures
        typed_exprs_view(copy@) == typed_exprs_view(items@),
    decreases items,
{
    let mut copy: Vec<TypedExpr> = Vec::new();
    let mut i: usize = 0;
    while i < items.len()
        invariant
            i <= items.len(),
            copy.len() == i,
            forall|j: int| 0 <= j < i ==> typed_expr_view(copy[j]) == typed_expr_view(items[j]),
        decreases items.len() - i,
    {
        let item = clone_typed_expr(&items[i]);
        copy.push(item);
        i += 1;
    }
    assert(typed_exprs_view(copy@) =~= typed_exprs_view(items@));
    copy
}

fn clone_typed_expr(e: &TypedExpr) -> (copy: TypedExpr)
    ensures
        copy@ == e@,
    decreases e,
{
    match e {
        TypedExpr::Float(bits, info) => TypedExpr::Float(*bits, info.clone()),
        TypedExpr::Int(value, info) => TypedExpr::Int(*value, info.clone()),
        TypedExpr::StringLit(text, info) => TypedExpr::StringLit(text.clone(), info.clone()),
        TypedExpr::Ident(name, info, t) => TypedExpr::Ident(name.clone(), info.clone(), t.clone()),
        TypedExpr::ArrayLit(items, info, t) => TypedExpr::ArrayLit(
            clone_typed_exprs(items),
            info.clone(),
            t.clone(),
        ),
        TypedExpr::ArrayIndex(name, index, info, t) => TypedExpr::ArrayIndex(
            name.clone(),
            Box::new(clone_typed_expr(index)),
            info.clone(),
            t.clone(),
        ),
        TypedExpr::BinOp(lhs, op, rhs, info, t) => TypedExpr::BinOp(
            Box::new(clone_typed_expr(lhs)),
            *op,
            Box::new(clone_typed_expr(rhs)),
            info.clone(),
            t.clone(),
        ),
        TypedExpr::Call(name, args, info, t) => TypedExpr::Call(
            name.clone(),
            clone_typed_exprs(args),
            info.clone(),
            t.clone(),
        ),
        TypedExpr::Return(value, info) => TypedExpr::Return(
            Box::new(clone_typed_expr(value)),
            info.clone(),
        ),
        TypedExpr::Break(info) => TypedExpr::Break(info.clone()),
        TypedExpr::Continue(info) => TypedExpr::Continue(info.clone()),
        TypedExpr::BoolLit(value, info) => TypedExpr::BoolLit(*value, info.clone()),
        TypedExpr::Error => TypedExpr::Error,
    }
}

impl Clone for TypedExpr {
    fn clone(&self) -> (copy: TypedExpr)
        ensures
            copy@ == self@,
    {
        clone_typed_expr(self)
    }
}

/// An independent copy of a sequence of typed statements.
pub fn clone_typed_stmts(body: &Vec<TypedStmt>) -> (copy: Vec<TypedStmt>)
    ensures
        typed_stmts_view(copy@) == typed_stmts_view(body@),
    decreases body,
{
    let mut copy: Vec<TypedStmt> = Vec::new();
    let mut i: usize = 0;
    while i < body.len()
        invariant
            i <= body.len(),
            copy.len() == i,
            forall|j: int| 0 <= j < i ==> typed_stmt_view(copy[j]) == typed_stmt_view(body[j]),
        decreases body.len() - i,
    {
        let item = clone_typed_stmt(&body[i]);
        copy.push(item);
        i += 1;
    }
    assert(typed_stmts_view(copy@) =~= typed_stmts_view(body@));
    copy
}

fn clone_typed_stmt(s: &TypedStmt) -> (copy: TypedStmt)
    ensures
        copy@ == s@,
    decreases s,
{
    match s {
        TypedStmt::Expr(e, info) => TypedStmt::Expr(e.clone(), info.clone()),
        TypedStmt::If(cond, then_body, else_body, info) => {
            let else_copy = match else_body {
                Some(body) => Some(clone_typed_stmts(body)),
                None => None,
            };
            TypedStmt::If(cond.clone(), clone_typed_stmts(then_body), else_copy, info.clone())
        },
        TypedStmt::While(cond, body, info) => TypedStmt::While(
            cond.clone(),
            clone_typed_stmts(body),
            info.clone(),
        ),
        TypedStmt::Block(body, info) => TypedStmt::Block(clone_typed_stmts(body), info.clone()),
        TypedStmt::Return(e, info) => TypedStmt::Return(e.clone(), info.clone()),
        TypedStmt::Let(name, e, info) => TypedStmt::Let(name.clone(), e.clone(), info.clone()),
        TypedStmt::Assign(name, e, info) => TypedStmt::Assign(
            name.clone(),
            e.clone(),
            info.clone(),
        ),
        TypedStmt::Error => TypedStmt::Error,
    }
}

impl Clone for TypedStmt {
    fn clone(&self) -> (copy: TypedStmt)
        ensures
            copy@ == self@,
    {
        clone_typed_stmt(self)
    }
}

/// An independent copy of a list of typed parameters.
pub fn clone_typed_params(params: &Vec<(String, Type)>) -> (copy: Vec<(String, Type)>)
    ensures
        typed_params_view(copy@) == typed_params_view(params@),
{
    let mut copy: Vec<(String, Type)> = Vec::new();
    let mut i: usize = 0;
    while i < params.len()
        invariant
            i <= params.len(),
            copy.len() == i,
            forall|j: int|
                0 <= j < i ==> copy[j].0@ == params[j].0@ && copy[j].1 == params[j].1,
        decreases params.len() - i,
    {
        copy.push((params[i].0.clone(), params[i].1.clone()));
        i += 1;
    }
    assert(typed_params_view(copy@) =~= typed_params_view(params@));
    copy
}

impl Clone for TypedTopLvl {
    fn clone(&self) -> (copy: TypedTopLvl)
        ensures
            copy@ == self@,
    {
        match self {
            TypedTopLvl::Import(path, info) => TypedTopLvl::Import(path.clone(), info.clone()),
            TypedTopLvl::FuncDef(name, params, body, info) => TypedTopLvl::FuncDef(
                name.clone(),
                clone_typed_params(params),
                clone_typed_stmts(body),
                info.clone(),
            ),
            TypedTopLvl::Error => TypedTopLvl::Error,
        }
    }
}

} // verus!
