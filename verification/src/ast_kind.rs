//! Span lookup and the kind of a node: what a diagnostic needs to say where
//! a construct stands and what it is.
use vstd::prelude::*;
use crate::ast::{Expression, Node, Statement};
use crate::ast_view::{ExpressionView, StatementView};

verus! {

/// The form of a statement, without its contents.
#[derive(Debug, Clone, Copy, PartialEq, Eq, Structural)]
pub enum StatementKind {
    Assign,
    AnnAssign,
    AugAssign,
    Expression,
    Assert,
    Pass,
    Delete,
    Return,
    Raise,
    Break,
    Continue,
    Import,
    ImportFrom,
    Global,
    Nonlocal,
    If,
    While,
    For,
    With,
    Try,
    TryStar,
    FunctionDef,
    ClassDef,
    Match,
}

/// The form of an expression, without its contents.
#[derive(Debug, Clone, Copy, PartialEq, Eq, Structural)]
pub enum ExpressionKind {
    Constant,
    List,
    Tuple,
    Dict,
    SetExpr,
    Name,
    BoolOp,
    UnaryOp,
    BinOp,
    NamedExpr,
    Yield,
    YieldFrom,
    Starred,
    Generator,
    ListComp,
    SetComp,
    DictComp,
    Attribute,
    Subscript,
    Slice,
    Call,
    Await,
    Compare,
    Lambda,
    IfExp,
    JoinedStr,
    FormattedValue,
}

/// The span of a statement.
pub open spec fn statement_node(s: StatementView) -> Node {
    match s {
        StatementView::AssignStatement(x) => x.node,
        StatementView::AnnAssignStatement(x) => x.node,
        StatementView::AugAssignStatement(x) => x.node,
        StatementView::ExpressionStatement(e) => expression_node(e),
        StatementView::Assert(x) => x.node,
        StatementView::Pass(x) => x.node,
        StatementView::Delete(x) => x.node,
        StatementView::Return(x) => x.node,
        StatementView::Raise(x) => x.node,
        StatementView::Break(x) => x.node,
        StatementView::Continue(x) => x.node,
        StatementView::Import(x) => x.node,
        StatementView::ImportFrom(x) => x.node,
        StatementView::Global(x) => x.node,
        StatementView::Nonlocal(x) => x.node,
        StatementView::IfStatement(x) => x.node,
        StatementView::WhileStatement(x) => x.node,
        StatementView::ForStatement(x) => x.node,
        StatementView::WithStatement(x) => x.node,
        StatementView::TryStatement(x) => x.node,
        StatementView::TryStarStatement(x) => x.node,
        StatementView::FunctionDef(x) => x.node,
        StatementView::ClassDef(x) => x.node,
        StatementView::Match(x) => x.node,
    }
}

/// The form of a statement.
pub open spec fn statement_kind(s: StatementView) -> StatementKind {
    match s {
        StatementView::AssignStatement(_) => StatementKind::Assign,
        StatementView::AnnAssignStatement(_) => StatementKind::AnnAssign,
        StatementView::AugAssignStatement(_) => StatementKind::AugAssign,
        StatementView::ExpressionStatement(_) => StatementKind::Expression,
        StatementView::Assert(_) => StatementKind::Assert,
        StatementView::Pass(_) => StatementKind::Pass,
        StatementView::Delete(_) => StatementKind::Delete,
        StatementView::Return(_) => StatementKind::Return,
        StatementView::Raise(_) => StatementKind::Raise,
        StatementView::Break(_) => StatementKind::Break,
        StatementView::Continue(_) => StatementKind::Continue,
        StatementView::Import(_) => StatementKind::Import,
        StatementView::ImportFrom(_) => StatementKind::ImportFrom,
        StatementView::Global(_) => StatementKind::Global,
        StatementView::Nonlocal(_) => StatementKind::Nonlocal,
        StatementView::IfStatement(_) => StatementKind::If,
        StatementView::WhileStatement(_) => StatementKind::While,
        StatementView::ForStatement(_) => StatementKind::For,
        StatementView::WithStatement(_) => StatementKind::With,
        StatementView::TryStatement(_) => StatementKind::Try,
        StatementView::TryStarStatement(_) => StatementKind::TryStar,
        StatementView::FunctionDef(_) => StatementKind::FunctionDef,
        StatementView::ClassDef(_) => StatementKind::ClassDef,
        StatementView::Match(_) => StatementKind::Match,
    }
}

/// The span of an expression.
pub open spec fn expression_node(e: ExpressionView) -> Node {
    match e {
        ExpressionView::Constant(x) => x.node,
        ExpressionView::List(x) => x.node,
        ExpressionView::Tuple(x) => x.node,
        ExpressionView::Dict(x) => x.node,
        ExpressionView::SetExpr(x) => x.node,
        ExpressionView::Name(x) => x.node,
        ExpressionView::BoolOp(x) => x.node,
        ExpressionView::UnaryOp(x) => x.node,
        ExpressionView::BinOp(x) => x.node,
        ExpressionView::NamedExpr(x) => x.node,
        ExpressionView::Yield(x) => x.node,
        ExpressionView::YieldFrom(x) => x.node,
        ExpressionView::Starred(x) => x.node,
        ExpressionView::Generator(x) => x.node,
        ExpressionView::ListComp(x) => x.node,
        ExpressionView::SetComp(x) => x.node,
        ExpressionView::DictComp(x) => x.node,
        ExpressionView::Attribute(x) => x.node,
        ExpressionView::Subscript(x) => x.node,
        ExpressionView::Slice(x) => x.node,
        ExpressionView::Call(x) => x.node,
        ExpressionView::Await(x) => x.node,
        ExpressionView::Compare(x) => x.node,
        ExpressionView::Lambda(x) => x.node,
        ExpressionView::IfExp(x) => x.node,
        ExpressionView::JoinedStr(x) => x.node,
        ExpressionView::FormattedValue(x) => x.node,
    }
}

/// The form of an expression.
pub open spec fn expression_kind(e: ExpressionView) -> ExpressionKind {
    match e {
        ExpressionView::Constant(_) => ExpressionKind::Constant,
        ExpressionView::List(_) => ExpressionKind::List,
        ExpressionView::Tuple(_) => ExpressionKind::Tuple,
        ExpressionView::Dict(_) => ExpressionKind::Dict,
        ExpressionView::SetExpr(_) => ExpressionKind::SetExpr,
        ExpressionView::Name(_) => ExpressionKind::Name,
        ExpressionView::BoolOp(_) => ExpressionKind::BoolOp,
        ExpressionView::UnaryOp(_) => ExpressionKind::UnaryOp,
        ExpressionView::BinOp(_) => ExpressionKind::BinOp,
        ExpressionView::NamedExpr(_) => ExpressionKind::NamedExpr,
        ExpressionView::Yield(_) => ExpressionKind::Yield,
        ExpressionView::YieldFrom(_) => ExpressionKind::YieldFrom,
        ExpressionView::Starred(_) => ExpressionKind::Starred,
        ExpressionView::Generator(_) => ExpressionKind::Generator,
        ExpressionView::ListComp(_) => ExpressionKind::ListComp,
        ExpressionView::SetComp(_) => ExpressionKind::SetComp,
        ExpressionView::DictComp(_) => ExpressionKind::DictComp,
        ExpressionView::Attribute(_) => ExpressionKind::Attribute,
        ExpressionView::Subscript(_) => ExpressionKind::Subscript,
        ExpressionView::Slice(_) => ExpressionKind::Slice,
        ExpressionView::Call(_) => ExpressionKind::Call,
        ExpressionView::Await(_) => ExpressionKind::Await,
        ExpressionView::Compare(_) => ExpressionKind::Compare,
        ExpressionView::Lambda(_) => ExpressionKind::Lambda,
        ExpressionView::IfExp(_) => ExpressionKind::IfExp,
        ExpressionView::JoinedStr(_) => ExpressionKind::JoinedStr,
        ExpressionView::FormattedValue(_) => ExpressionKind::FormattedValue,
    }
}

impl Statement {
    /// The span this statement was parsed from. A bare expression has the
    /// span of the expression.
    pub fn node(&self) -> (node: Node)
        ensures
            node == statement_node(self@),
    {
        match self {
            Statement::AssignStatement(x) => x.node,
            Statement::AnnAssignStatement(x) => x.node,
            Statement::AugAssignStatement(x) => x.node,
            Statement::ExpressionStatement(e) => e.node(),
            Statement::Assert(x) => x.node,
            Statement::Pass(x) => x.node,
            Statement::Delete(x) => x.node,
            Statement::Return(x) => x.node,
            Statement::Raise(x) => x.node,
            Statement::Break(x) => x.node,
            Statement::Continue(x) => x.node,
            Statement::Import(x) => x.node,
            Statement::ImportFrom(x) => x.node,
            Statement::Global(x) => x.node,
            Statement::Nonlocal(x) => x.node,
            Statement::IfStatement(x) => x.node,
            Statement::WhileStatement(x) => x.node,
            Statement::ForStatement(x) => x.node,
            Statement::WithStatement(x) => x.node,
            Statement::TryStatement(x) => x.node,
            Statement::TryStarStatement(x) => x.node,
            Statement::FunctionDef(x) => x.node,
            Statement::ClassDef(x) => x.node,
            Statement::Match(x) => x.node,
        }
    }

    /// The form of this statement.
    pub fn kind(&self) -> (kind: StatementKind)
        ensures
            kind == statement_kind(self@),
    {
        match self {
            Statement::AssignStatement(_) => StatementKind::Assign,
            Statement::AnnAssignStatement(_) => StatementKind::AnnAssign,
            Statement::AugAssignStatement(_) => StatementKind::AugAssign,
            Statement::ExpressionStatement(_) => StatementKind::Expression,
            Statement::Assert(_) => StatementKind::Assert,
            Statement::Pass(_) => StatementKind::Pass,
            Statement::Delete(_) => StatementKind::Delete,
            Statement::Return(_) => StatementKind::Return,
            Statement::Raise(_) => StatementKind::Raise,
            Statement::Break(_) => StatementKind::Break,
            Statement::Continue(_) => StatementKind::Continue,
            Statement::Import(_) => StatementKind::Import,
            Statement::ImportFrom(_) => StatementKind::ImportFrom,
            Statement::Global(_) => StatementKind::Global,
            Statement::Nonlocal(_) => StatementKind::Nonlocal,
            Statement::IfStatement(_) => StatementKind::If,
            Statement::WhileStatement(_) => StatementKind::While,
            Statement::ForStatement(_) => StatementKind::For,
            Statement::WithStatement(_) => StatementKind::With,
            Statement::TryStatement(_) => StatementKind::Try,
            Statement::TryStarStatement(_) => StatementKind::TryStar,
            Statement::FunctionDef(_) => StatementKind::FunctionDef,
            Statement::ClassDef(_) => StatementKind::ClassDef,
            Statement::Match(_) => StatementKind::Match,
        }
    }
}

impl Expression {
    /// The span this expression was parsed from.
    pub fn node(&self) -> (node: Node)
        ensures
            node == expression_node(self@),
    {
        match self {
            Expression::Constant(x) => x.node,
            Expression::List(x) => x.node,
            Expression::Tuple(x) => x.node,
            Expression::Dict(x) => x.node,
            Expression::SetExpr(x) => x.node,
            Expression::Name(x) => x.node,
            Expression::BoolOp(x) => x.node,
            Expression::UnaryOp(x) => x.node,
            Expression::BinOp(x) => x.node,
            Expression::NamedExpr(x) => x.node,
            Expression::Yield(x) => x.node,
            Expression::YieldFrom(x) => x.node,
            Expression::Starred(x) => x.node,
            Expression::Generator(x) => x.node,
            Expression::ListComp(x) => x.node,
            Expression::SetComp(x) => x.node,
            Expression::DictComp(x) => x.node,
            Expression::Attribute(x) => x.node,
            Expression::Subscript(x) => x.node,
            Expression::Slice(x) => x.node,
            Expression::Call(x) => x.node,
            Expression::Await(x) => x.node,
            Expression::Compare(x) => x.node,
            Expression::Lambda(x) => x.node,
            Expression::IfExp(x) => x.node,
            Expression::JoinedStr(x) => x.node,
            Expression::FormattedValue(x) => x.node,
        }
    }

    /// The form of this expression.
    pub fn kind(&self) -> (kind: ExpressionKind)
        ensures
            kind == expression_kind(self@),
    {
        match self {
            Expression::Constant(_) => ExpressionKind::Constant,
            Expression::List(_) => ExpressionKind::List,
            Expression::Tuple(_) => ExpressionKind::Tuple,
            Expression::Dict(_) => ExpressionKind::Dict,
            Expression::SetExpr(_) => ExpressionKind::SetExpr,
            Expression::Name(_) => ExpressionKind::Name,
            Expression::BoolOp(_) => ExpressionKind::BoolOp,
            Expression::UnaryOp(_) => ExpressionKind::UnaryOp,
            Expression::BinOp(_) => ExpressionKind::BinOp,
            Expression::NamedExpr(_) => ExpressionKind::NamedExpr,
            Expression::Yield(_) => ExpressionKind::Yield,
            Expression::YieldFrom(_) => ExpressionKind::YieldFrom,
            Expression::Starred(_) => ExpressionKind::Starred,
            Expression::Generator(_) => ExpressionKind::Generator,
            Expression::ListComp(_) => ExpressionKind::ListComp,
            Expression::SetComp(_) => ExpressionKind::SetComp,
            Expression::DictComp(_) => ExpressionKind::DictComp,
            Expression::Attribute(_) => ExpressionKind::Attribute,
            Expression::Subscript(_) => ExpressionKind::Subscript,
            Expression::Slice(_) => ExpressionKind::Slice,
            Expression::Call(_) => ExpressionKind::Call,
            Expression::Await(_) => ExpressionKind::Await,
            Expression::Compare(_) => ExpressionKind::Compare,
            Expression::Lambda(_) => ExpressionKind::Lambda,
            Expression::IfExp(_) => ExpressionKind::IfExp,
            Expression::JoinedStr(_) => ExpressionKind::JoinedStr,
            Expression::FormattedValue(_) => ExpressionKind::FormattedValue,
        }
    }
}

} // verus!
