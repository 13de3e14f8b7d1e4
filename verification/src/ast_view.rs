//! The mathematical model of the syntax tree: for each node type a view in
//! which vectors are sequences and strings are sequences of characters.
//! Two trees with the same view describe the same program text.
use vstd::prelude::*;
use crate::ast::{
    Alias, AnnAssign, Arg, Arguments, Assert, Assign, Attribute, AugAssign, AugAssignOp, Await,
    BinOp, BinaryOperator, BoolOperation, BooleanOperator, Break, Call, ClassDef, Compare,
    ComparisonOperator, Comprehension, Constant, ConstantValue, Continue, Delete, Dict, DictComp,
    ExceptHandler, Expression, For, FormattedValue, FunctionDef, Generator, Global, If, IfExp,
    Import, ImportFrom, JoinedStr, Keyword, Lambda, List, ListComp, Match, MatchAs, MatchCase,
    MatchClass, MatchMapping, MatchPattern, MatchValue, Module, Name, NamedExpression, Node,
    Nonlocal, Pass, Raise, Return, SetComp, SetExpr, Slice, Starred, Statement, Subscript, Try,
    TryStar, Tuple, UnaryOperation, UnaryOperator, While, With, WithItem, Yield, YieldFrom,
};

verus! {

/// What a [`Module`] holds, as mathematical values.
pub struct ModuleView {
    pub node: Node,
    pub body: Seq<StatementView>,
}

/// What a [`Statement`] holds, as mathematical values.
pub enum StatementView {
    AssignStatement(AssignView),
    AnnAssignStatement(AnnAssignView),
    AugAssignStatement(AugAssignView),
    ExpressionStatement(ExpressionView),
    Assert(AssertView),
    Pass(PassView),
    Delete(DeleteView),
    Return(ReturnView),
    Raise(RaiseView),
    Break(BreakView),
    Continue(ContinueView),
    Import(ImportView),
    ImportFrom(ImportFromView),
    Global(GlobalView),
    Nonlocal(NonlocalView),
    IfStatement(IfView),
    WhileStatement(WhileView),
    ForStatement(ForView),
    WithStatement(WithView),
    TryStatement(TryView),
    TryStarStatement(TryStarView),
    FunctionDef(FunctionDefView),
    ClassDef(ClassDefView),
    Match(MatchView),
}

/// What a [`Assign`] holds, as mathematical values.
pub struct AssignView {
    pub node: Node,
    pub targets: Seq<ExpressionView>,
    pub value: ExpressionView,
}

/// What a [`AnnAssign`] holds, as mathematical values.
pub struct AnnAssignView {
    pub node: Node,
    pub target: ExpressionView,
    pub annotation: ExpressionView,
    pub value: Option<ExpressionView>,
    pub simple: bool,
}

/// What a [`AugAssign`] holds, as mathematical values.
pub struct AugAssignView {
    pub node: Node,
    pub target: ExpressionView,
    pub op: AugAssignOp,
    pub value: ExpressionView,
}

/// What a [`Assert`] holds, as mathematical values.
pub struct AssertView {
    pub node: Node,
    pub test: ExpressionView,
    pub msg: Option<ExpressionView>,
}

/// What a [`Pass`] holds, as mathematical values.
pub struct PassView {
    pub node: Node,
}

/// What a [`Delete`] holds, as mathematical values.
pub struct DeleteView {
    pub node: Node,
    pub targets: Seq<ExpressionView>,
}

/// What a [`Return`] holds, as mathematical values.
pub struct ReturnView {
    pub node: Node,
    pub value: Option<ExpressionView>,
}

/// What a [`Raise`] holds, as mathematical values.
pub struct RaiseView {
    pub node: Node,
    pub exc: Option<ExpressionView>,
    pub cause: Option<ExpressionView>,
}

/// What a [`Break`] holds, as mathematical values.
pub struct BreakView {
    pub node: Node,
}

/// What a [`Continue`] holds, as mathematical values.
pub struct ContinueView {
    pub node: Node,
}

/// What a [`Import`] holds, as mathematical values.
pub struct ImportView {
    pub node: Node,
    pub names: Seq<AliasView>,
}

/// What a [`Alias`] holds, as mathematical values.
pub struct AliasView {
    pub node: Node,
    pub name: Seq<char>,
    pub asname: Option<Seq<char>>,
}

/// What a [`ImportFrom`] holds, as mathematical values.
pub struct ImportFromView {
    pub node: Node,
    pub module: Seq<char>,
    pub names: Seq<AliasView>,
    pub level: usize,
}

/// What a [`Global`] holds, as mathematical values.
pub struct GlobalView {
    pub node: Node,
    pub names: Seq<Seq<char>>,
}

/// What a [`Nonlocal`] holds, as mathematical values.
pub struct NonlocalView {
    pub node: Node,
    pub names: Seq<Seq<char>>,
}

/// What a [`Expression`] holds, as mathematical values.
pub enum ExpressionView {
    Constant(Box<ConstantView>),
    List(Box<ListView>),
    Tuple(Box<TupleView>),
    Dict(Box<DictView>),
    SetExpr(Box<SetExprView>),
    Name(Box<NameView>),
    BoolOp(Box<BoolOperationView>),
    UnaryOp(Box<UnaryOperationView>),
    BinOp(Box<BinOpView>),
    NamedExpr(Box<NamedExpressionView>),
    Yield(Box<YieldView>),
    YieldFrom(Box<YieldFromView>),
    Starred(Box<StarredView>),
    Generator(Box<GeneratorView>),
    ListComp(Box<ListCompView>),
    SetComp(Box<SetCompView>),
    DictComp(Box<DictCompView>),
    Attribute(Box<AttributeView>),
    Subscript(Box<SubscriptView>),
    Slice(Box<SliceView>),
    Call(Box<CallView>),
    Await(Box<AwaitView>),
    Compare(Box<CompareView>),
    Lambda(Box<LambdaView>),
    IfExp(Box<IfExpView>),
    JoinedStr(Box<JoinedStrView>),
    FormattedValue(Box<FormattedValueView>),
}

/// What a [`Name`] holds, as mathematical values.
pub struct NameView {
    pub node: Node,
    pub id: Seq<char>,
}

/// What a [`Constant`] holds, as mathematical values.
pub struct ConstantView {
    pub node: Node,
    pub value: ConstantValueView,
}

/// What a [`ConstantValue`] holds, as mathematical values.
pub enum ConstantValueView {
    NoneValue,
    Bool(bool),
    Str(Seq<char>),
    Bytes(Seq<u8>),
    Tuple(Seq<ConstantView>),
    Int(Seq<char>),
    Float(Seq<char>),
    Complex { real: Seq<char>, imaginary: Seq<char> },
}

/// What a [`List`] holds, as mathematical values.
pub struct ListView {
    pub node: Node,
    pub elements: Seq<ExpressionView>,
}

/// What a [`Tuple`] holds, as mathematical values.
pub struct TupleView {
    pub node: Node,
    pub elements: Seq<ExpressionView>,
}

/// What a [`Dict`] holds, as mathematical values.
pub struct DictView {
    pub node: Node,
    pub keys: Seq<ExpressionView>,
    pub values: Seq<ExpressionView>,
}

/// What a [`SetExpr`] holds, as mathematical values.
pub struct SetExprView {
    pub node: Node,
    pub elements: Seq<ExpressionView>,
}

/// What a [`BoolOperation`] holds, as mathematical values.
pub struct BoolOperationView {
    pub node: Node,
    pub op: BooleanOperator,
    pub values: Seq<ExpressionView>,
}

/// What a [`UnaryOperation`] holds, as mathematical values.
pub struct UnaryOperationView {
    pub node: Node,
    pub op: UnaryOperator,
    pub operand: Box<ExpressionView>,
}

/// What a [`BinOp`] holds, as mathematical values.
pub struct BinOpView {
    pub node: Node,
    pub op: BinaryOperator,
    pub left: Box<ExpressionView>,
    pub right: Box<ExpressionView>,
}

/// What a [`NamedExpression`] holds, as mathematical values.
pub struct NamedExpressionView {
    pub node: Node,
    pub target: Box<ExpressionView>,
    pub value: Box<ExpressionView>,
}

/// What a [`Yield`] holds, as mathematical values.
pub struct YieldView {
    pub node: Node,
    pub value: Option<Box<ExpressionView>>,
}

/// What a [`YieldFrom`] holds, as mathematical values.
pub struct YieldFromView {
    pub node: Node,
    pub value: Box<ExpressionView>,
}

/// What a [`Starred`] holds, as mathematical values.
pub struct StarredView {
    pub node: Node,
    pub value: Box<ExpressionView>,
}

/// What a [`Generator`] holds, as mathematical values.
pub struct GeneratorView {
    pub node: Node,
    pub element: Box<ExpressionView>,
    pub generators: Seq<ComprehensionView>,
}

/// What a [`ListComp`] holds, as mathematical values.
pub struct ListCompView {
    pub node: Node,
    pub element: Box<ExpressionView>,
    pub generators: Seq<ComprehensionView>,
}

/// What a [`SetComp`] holds, as mathematical values.
pub struct SetCompView {
    pub node: Node,
    pub element: Box<ExpressionView>,
    pub generators: Seq<ComprehensionView>,
}

/// What a [`DictComp`] holds, as mathematical values.
pub struct DictCompView {
    pub node: Node,
    pub key: Box<ExpressionView>,
    pub value: Box<ExpressionView>,
    pub generators: Seq<ComprehensionView>,
}

/// What a [`Comprehension`] holds, as mathematical values.
pub struct ComprehensionView {
    pub node: Node,
    pub target: Box<ExpressionView>,
    pub iter: Box<ExpressionView>,
    pub ifs: Seq<ExpressionView>,
    pub is_async: bool,
}

/// What a [`Attribute`] holds, as mathematical values.
pub struct AttributeView {
    pub node: Node,
    pub value: Box<ExpressionView>,
    pub attr: Seq<char>,
}

/// What a [`Subscript`] holds, as mathematical values.
pub struct SubscriptView {
    pub node: Node,
    pub value: Box<ExpressionView>,
    pub slice: Box<ExpressionView>,
}

/// What a [`Slice`] holds, as mathematical values.
pub struct SliceView {
    pub node: Node,
    pub lower: Option<Box<ExpressionView>>,
    pub upper: Option<Box<ExpressionView>>,
    pub step: Option<Box<ExpressionView>>,
}

/// What a [`Call`] holds, as mathematical values.
pub struct CallView {
    pub node: Node,
    pub func: Box<ExpressionView>,
    pub args: Seq<ExpressionView>,
    pub keywords: Seq<KeywordView>,
    pub starargs: Option<Box<ExpressionView>>,
    pub kwargs: Option<Box<ExpressionView>>,
}

/// What a [`Keyword`] holds, as mathematical values.
pub struct KeywordView {
    pub node: Node,
    pub arg: Option<Seq<char>>,
    pub value: Box<ExpressionView>,
}

/// What a [`Await`] holds, as mathematical values.
pub struct AwaitView {
    pub node: Node,
    pub value: Box<ExpressionView>,
}

/// What a [`Compare`] holds, as mathematical values.
pub struct CompareView {
    pub node: Node,
    pub left: Box<ExpressionView>,
    pub ops: Seq<ComparisonOperator>,
    pub comparators: Seq<ExpressionView>,
}

/// What a [`Lambda`] holds, as mathematical values.
pub struct LambdaView {
    pub node: Node,
    pub args: ArgumentsView,
    pub body: Box<ExpressionView>,
}

/// What a [`Arguments`] holds, as mathematical values.
pub struct ArgumentsView {
    pub node: Node,
    pub posonlyargs: Seq<ArgView>,
    pub args: Seq<ArgView>,
    pub vararg: Option<ArgView>,
    pub kwonlyargs: Seq<ArgView>,
    pub kw_defaults: Seq<Option<ExpressionView>>,
    pub kwarg: Option<ArgView>,
    pub defaults: Seq<ExpressionView>,
}

/// What a [`Arg`] holds, as mathematical values.
pub struct ArgView {
    pub node: Node,
    pub arg: Seq<char>,
    pub annotation: Option<ExpressionView>,
}

/// What a [`IfExp`] holds, as mathematical values.
pub struct IfExpView {
    pub node: Node,
    pub test: Box<ExpressionView>,
    pub body: Box<ExpressionView>,
    pub orelse: Box<ExpressionView>,
}

/// What a [`FormattedValue`] holds, as mathematical values.
pub struct FormattedValueView {
    pub node: Node,
    pub value: Box<ExpressionView>,
    pub conversion: Option<i32>,
    pub format_spec: Option<Box<ExpressionView>>,
}

/// What a [`JoinedStr`] holds, as mathematical values.
pub struct JoinedStrView {
    pub node: Node,
    pub values: Seq<ExpressionView>,
}

/// What a [`If`] holds, as mathematical values.
pub struct IfView {
    pub node: Node,
    pub test: Box<ExpressionView>,
    pub body: Seq<StatementView>,
    pub orelse: Seq<StatementView>,
}

/// What a [`While`] holds, as mathematical values.
pub struct WhileView {
    pub node: Node,
    pub test: Box<ExpressionView>,
    pub body: Seq<StatementView>,
    pub orelse: Seq<StatementView>,
}

/// What a [`For`] holds, as mathematical values.
pub struct ForView {
    pub node: Node,
    pub target: Box<ExpressionView>,
    pub iter: Box<ExpressionView>,
    pub body: Seq<StatementView>,
    pub orelse: Seq<StatementView>,
}

/// What a [`With`] holds, as mathematical values.
pub struct WithView {
    pub node: Node,
    pub items: Seq<WithItemView>,
    pub body: Seq<StatementView>,
}

/// What a [`WithItem`] holds, as mathematical values.
pub struct WithItemView {
    pub node: Node,
    pub context_expr: Box<ExpressionView>,
    pub optional_vars: Option<Box<ExpressionView>>,
}

/// What a [`Try`] holds, as mathematical values.
pub struct TryView {
    pub node: Node,
    pub body: Seq<StatementView>,
    pub handlers: Seq<ExceptHandlerView>,
    pub orelse: Seq<StatementView>,
    pub finalbody: Seq<StatementView>,
}

/// What a [`TryStar`] holds, as mathematical values.
pub struct TryStarView {
    pub node: Node,
    pub body: Seq<StatementView>,
    pub handlers: Seq<ExceptHandlerView>,
    pub orelse: Seq<StatementView>,
    pub finalbody: Seq<StatementView>,
}

/// What a [`ExceptHandler`] holds, as mathematical values.
pub struct ExceptHandlerView {
    pub node: Node,
    pub typ: Option<Box<ExpressionView>>,
    pub name: Option<Seq<char>>,
    pub body: Seq<StatementView>,
}

/// What a [`FunctionDef`] holds, as mathematical values.
pub struct FunctionDefView {
    pub node: Node,
    pub name: Seq<char>,
    pub args: ArgumentsView,
    pub body: Seq<StatementView>,
    pub decorator_list: Seq<ExpressionView>,
    pub returns: Option<Box<ExpressionView>>,
    pub type_comment: Option<Seq<char>>,
}

/// What a [`ClassDef`] holds, as mathematical values.
pub struct ClassDefView {
    pub node: Node,
    pub name: Seq<char>,
    pub bases: Seq<ExpressionView>,
    pub keywords: Seq<KeywordView>,
    pub body: Seq<StatementView>,
    pub decorator_list: Seq<ExpressionView>,
}

/// What a [`Match`] holds, as mathematical values.
pub struct MatchView {
    pub node: Node,
    pub subject: Box<ExpressionView>,
    pub cases: Seq<MatchCaseView>,
}

/// What a [`MatchCase`] holds, as mathematical values.
pub struct MatchCaseView {
    pub node: Node,
    pub pattern: Box<MatchPatternView>,
    pub guard: Option<Box<ExpressionView>>,
    pub body: Seq<StatementView>,
}

/// What a [`MatchPattern`] holds, as mathematical values.
pub enum MatchPatternView {
    MatchValue(MatchValueView),
    MatchSingleton(Box<ExpressionView>),
    MatchSequence(Seq<MatchPatternView>),
    MatchStar(Box<ExpressionView>),
    MatchMapping(MatchMappingView),
    MatchAs(MatchAsView),
    MatchClass(MatchClassView),
    MatchOr(Seq<MatchPatternView>),
}

/// What a [`MatchValue`] holds, as mathematical values.
pub struct MatchValueView {
    pub node: Node,
    pub value: Box<ExpressionView>,
}

/// What a [`MatchAs`] holds, as mathematical values.
pub struct MatchAsView {
    pub node: Node,
    pub name: Option<Seq<char>>,
    pub pattern: Option<Box<MatchPatternView>>,
}

/// What a [`MatchMapping`] holds, as mathematical values.
pub struct MatchMappingView {
    pub node: Node,
    pub keys: Seq<ExpressionView>,
    pub patterns: Seq<MatchPatternView>,
    pub rest: Option<Seq<char>>,
}

/// What a [`MatchClass`] holds, as mathematical values.
pub struct MatchClassView {
    pub node: Node,
    pub cls: Box<ExpressionView>,
    pub patterns: Seq<MatchPatternView>,
    pub kwd_attrs: Seq<Seq<char>>,
    pub kwd_patterns: Seq<MatchPatternView>,
}

/// The view of a [`Module`].
pub open spec fn module_view(x: Module) -> ModuleView
    decreases x,
{
    ModuleView {
        node: x.node,
        body: statements_view(x.body@),
    }
}

/// The view of a [`Statement`].
pub open spec fn statement_view(x: Statement) -> StatementView
    decreases x,
{
    match x {
        Statement::AssignStatement(a) => StatementView::AssignStatement(assign_view(a)),
        Statement::AnnAssignStatement(a) => StatementView::AnnAssignStatement(ann_assign_view(a)),
        Statement::AugAssignStatement(a) => StatementView::AugAssignStatement(aug_assign_view(a)),
        Statement::ExpressionStatement(a) => StatementView::ExpressionStatement(expression_view(a)),
        Statement::Assert(a) => StatementView::Assert(assert_view(a)),
        Statement::Pass(a) => StatementView::Pass(pass_view(a)),
        Statement::Delete(a) => StatementView::Delete(delete_view(a)),
        Statement::Return(a) => StatementView::Return(return_view(a)),
        Statement::Raise(a) => StatementView::Raise(raise_view(a)),
        Statement::Break(a) => StatementView::Break(break_view(a)),
        Statement::Continue(a) => StatementView::Continue(continue_view(a)),
        Statement::Import(a) => StatementView::Import(import_view(a)),
        Statement::ImportFrom(a) => StatementView::ImportFrom(import_from_view(a)),
        Statement::Global(a) => StatementView::Global(global_view(a)),
        Statement::Nonlocal(a) => StatementView::Nonlocal(nonlocal_view(a)),
        Statement::IfStatement(a) => StatementView::IfStatement(if_view(a)),
        Statement::WhileStatement(a) => StatementView::WhileStatement(while_view(a)),
        Statement::ForStatement(a) => StatementView::ForStatement(for_view(a)),
        Statement::WithStatement(a) => StatementView::WithStatement(with_view(a)),
        Statement::TryStatement(a) => StatementView::TryStatement(try_view(a)),
        Statement::TryStarStatement(a) => StatementView::TryStarStatement(try_star_view(a)),
        Statement::FunctionDef(a) => StatementView::FunctionDef(function_def_view(a)),
        Statement::ClassDef(a) => StatementView::ClassDef(class_def_view(a)),
        Statement::Match(a) => StatementView::Match(match_view(a)),
    }
}

/// The view of a [`Assign`].
pub open spec fn assign_view(x: Assign) -> AssignView
    decreases x,
{
    AssignView {
        node: x.node,
        targets: expressions_view(x.targets@),
        value: expression_view(x.value),
    }
}

/// The view of a [`AnnAssign`].
pub open spec fn ann_assign_view(x: AnnAssign) -> AnnAssignView
    decreases x,
{
    AnnAssignView {
        node: x.node,
        target: expression_view(x.target),
        annotation: expression_view(x.annotation),
        value: match x.value {
            Some(inner) => Some(expression_view(inner)),
            None => None,
        },
        simple: x.simple,
    }
}

/// The view of a [`AugAssign`].
pub open spec fn aug_assign_view(x: AugAssign) -> AugAssignView
    decreases x,
{
    AugAssignView {
        node: x.node,
        target: expression_view(x.target),
        op: x.op,
        value: expression_view(x.value),
    }
}

/// The view of a [`Assert`].
pub open spec fn assert_view(x: Assert) -> AssertView
    decreases x,
{
    AssertView {
        node: x.node,
        test: expression_view(x.test),
        msg: match x.msg {
            Some(inner) => Some(expression_view(inner)),
            None => None,
        },
    }
}

/// The view of a [`Pass`].
pub open spec fn pass_view(x: Pass) -> PassView
    decreases x,
{
    PassView {
        node: x.node,
    }
}

/// The view of a [`Delete`].
pub open spec fn delete_view(x: Delete) -> DeleteView
    decreases x,
{
    DeleteView {
        node: x.node,
        targets: expressions_view(x.targets@),
    }
}

/// The view of a [`Return`].
pub open spec fn return_view(x: Return) -> ReturnView
    decreases x,
{
    ReturnView {
        node: x.node,
        value: match x.value {
            Some(inner) => Some(expression_view(inner)),
            None => None,
        },
    }
}

/// The view of a [`Raise`].
pub open spec fn raise_view(x: Raise) -> RaiseView
    decreases x,
{
    RaiseView {
        node: x.node,
        exc: match x.exc {
            Some(inner) => Some(expression_view(inner)),
            None => None,
        },
        cause: match x.cause {
            Some(inner) => Some(expression_view(inner)),
            None => None,
        },
    }
}

/// The view of a [`Break`].
pub open spec fn break_view(x: Break) -> BreakView
    decreases x,
{
    BreakView {
        node: x.node,
    }
}

/// The view of a [`Continue`].
pub open spec fn continue_view(x: Continue) -> ContinueView
    decreases x,
{
    ContinueView {
        node: x.node,
    }
}

/// The view of a [`Import`].
pub open spec fn import_view(x: Import) -> ImportView
    decreases x,
{
    ImportView {
        node: x.node,
        names: aliases_view(x.names@),
    }
}

/// The view of a [`Alias`].
pub open spec fn alias_view(x: Alias) -> AliasView
    decreases x,
{
    AliasView {
        node: x.node,
        name: x.name@,
        asname: match x.asname {
            Some(inner) => Some(inner@),
            None => None,
        },
    }
}

/// The view of a [`ImportFrom`].
pub open spec fn import_from_view(x: ImportFrom) -> ImportFromView
    decreases x,
{
    ImportFromView {
        node: x.node,
        module: x.module@,
        names: aliases_view(x.names@),
        level: x.level,
    }
}

/// The view of a [`Global`].
pub open spec fn global_view(x: Global) -> GlobalView
    decreases x,
{
    GlobalView {
        node: x.node,
        names: strings_view(x.names@),
    }
}

/// The view of a [`Nonlocal`].
pub open spec fn nonlocal_view(x: Nonlocal) -> NonlocalView
    decreases x,
{
    NonlocalView {
        node: x.node,
        names: strings_view(x.names@),
    }
}

/// The view of a [`Expression`].
pub open spec fn expression_view(x: Expression) -> ExpressionView
    decreases x,
{
    match x {
        Expression::Constant(a) => ExpressionView::Constant(Box::new(constant_view(*a))),
        Expression::List(a) => ExpressionView::List(Box::new(list_view(*a))),
        Expression::Tuple(a) => ExpressionView::Tuple(Box::new(tuple_view(*a))),
        Expression::Dict(a) => ExpressionView::Dict(Box::new(dict_view(*a))),
        Expression::SetExpr(a) => ExpressionView::SetExpr(Box::new(set_expr_view(*a))),
        Expression::Name(a) => ExpressionView::Name(Box::new(name_view(*a))),
        Expression::BoolOp(a) => ExpressionView::BoolOp(Box::new(bool_operation_view(*a))),
        Expression::UnaryOp(a) => ExpressionView::UnaryOp(Box::new(unary_operation_view(*a))),
        Expression::BinOp(a) => ExpressionView::BinOp(Box::new(bin_op_view(*a))),
        Expression::NamedExpr(a) => ExpressionView::NamedExpr(Box::new(named_expression_view(*a))),
        Expression::Yield(a) => ExpressionView::Yield(Box::new(yield_view(*a))),
        Expression::YieldFrom(a) => ExpressionView::YieldFrom(Box::new(yield_from_view(*a))),
        Expression::Starred(a) => ExpressionView::Starred(Box::new(starred_view(*a))),
        Expression::Generator(a) => ExpressionView::Generator(Box::new(generator_view(*a))),
        Expression::ListComp(a) => ExpressionView::ListComp(Box::new(list_comp_view(*a))),
        Expression::SetComp(a) => ExpressionView::SetComp(Box::new(set_comp_view(*a))),
        Expression::DictComp(a) => ExpressionView::DictComp(Box::new(dict_comp_view(*a))),
        Expression::Attribute(a) => ExpressionView::Attribute(Box::new(attribute_view(*a))),
        Expression::Subscript(a) => ExpressionView::Subscript(Box::new(subscript_view(*a))),
        Expression::Slice(a) => ExpressionView::Slice(Box::new(slice_view(*a))),
        Expression::Call(a) => ExpressionView::Call(Box::new(call_view(*a))),
        Expression::Await(a) => ExpressionView::Await(Box::new(await_view(*a))),
        Expression::Compare(a) => ExpressionView::Compare(Box::new(compare_view(*a))),
        Expression::Lambda(a) => ExpressionView::Lambda(Box::new(lambda_view(*a))),
        Expression::IfExp(a) => ExpressionView::IfExp(Box::new(if_exp_view(*a))),
        Expression::JoinedStr(a) => ExpressionView::JoinedStr(Box::new(joined_str_view(*a))),
        Expression::FormattedValue(a) => ExpressionView::FormattedValue(Box::new(formatted_value_view(*a))),
    }
}

/// The view of a [`Name`].
pub open spec fn name_view(x: Name) -> NameView
    decreases x,
{
    NameView {
        node: x.node,
        id: x.id@,
    }
}

/// The view of a [`Constant`].
pub open spec fn constant_view(x: Constant) -> ConstantView
    decreases x,
{
    ConstantView {
        node: x.node,
        value: constant_value_view(x.value),
    }
}

/// The view of a [`ConstantValue`].
pub open spec fn constant_value_view(x: ConstantValue) -> ConstantValueView
    decreases x,
{
    match x {
        ConstantValue::NoneValue => ConstantValueView::NoneValue,
        ConstantValue::Bool(a) => ConstantValueView::Bool(a),
        ConstantValue::Str(a) => ConstantValueView::Str(a@),
        ConstantValue::Bytes(a) => ConstantValueView::Bytes(a@),
        ConstantValue::Tuple(a) => ConstantValueView::Tuple(constants_view(a@)),
        ConstantValue::Int(a) => ConstantValueView::Int(a@),
        ConstantValue::Float(a) => ConstantValueView::Float(a@),
        ConstantValue::Complex { real: part0, imaginary: part1 } => ConstantValueView::Complex {
            real: part0@,
            imaginary: part1@,
        },
    }
}

/// The view of a [`List`].
pub open spec fn list_view(x: List) -> ListView
    decreases x,
{
    ListView {
        node: x.node,
        elements: expressions_view(x.elements@),
    }
}

/// The view of a [`Tuple`].
pub open spec fn tuple_view(x: Tuple) -> TupleView
    decreases x,
{
    TupleView {
        node: x.node,
        elements: expressions_view(x.elements@),
    }
}

/// The view of a [`Dict`].
pub open spec fn dict_view(x: Dict) -> DictView
    decreases x,
{
    DictView {
        node: x.node,
        keys: expressions_view(x.keys@),
        values: expressions_view(x.values@),
    }
}

/// The view of a [`SetExpr`].
pub open spec fn set_expr_view(x: SetExpr) -> SetExprView
    decreases x,
{
    SetExprView {
        node: x.node,
        elements: expressions_view(x.elements@),
    }
}

/// The view of a [`BoolOperation`].
pub open spec fn bool_operation_view(x: BoolOperation) -> BoolOperationView
    decreases x,
{
    BoolOperationView {
        node: x.node,
        op: x.op,
        values: expressions_view(x.values@),
    }
}

/// The view of a [`UnaryOperation`].
pub open spec fn unary_operation_view(x: UnaryOperation) -> UnaryOperationView
    decreases x,
{
    UnaryOperationView {
        node: x.node,
        op: x.op,
        operand: Box::new(expression_view(*x.operand)),
    }
}

/// The view of a [`BinOp`].
pub open spec fn bin_op_view(x: BinOp) -> BinOpView
    decreases x,
{
    BinOpView {
        node: x.node,
        op: x.op,
        left: Box::new(expression_view(*x.left)),
        right: Box::new(expression_view(*x.right)),
    }
}

/// The view of a [`NamedExpression`].
pub open spec fn named_expression_view(x: NamedExpression) -> NamedExpressionView
    decreases x,
{
    NamedExpressionView {
        node: x.node,
        target: Box::new(expression_view(*x.target)),
        value: Box::new(expression_view(*x.value)),
    }
}

/// The view of a [`Yield`].
pub open spec fn yield_view(x: Yield) -> YieldView
    decreases x,
{
    YieldView {
        node: x.node,
        value: match x.value {
            Some(inner) => Some(Box::new(expression_view(*inner))),
            None => None,
        },
    }
}

/// The view of a [`YieldFrom`].
pub open spec fn yield_from_view(x: YieldFrom) -> YieldFromView
    decreases x,
{
    YieldFromView {
        node: x.node,
        value: Box::new(expression_view(*x.value)),
    }
}

/// The view of a [`Starred`].
pub open spec fn starred_view(x: Starred) -> StarredView
    decreases x,
{
    StarredView {
        node: x.node,
        value: Box::new(expression_view(*x.value)),
    }
}

/// The view of a [`Generator`].
pub open spec fn generator_view(x: Generator) -> GeneratorView
    decreases x,
{
    GeneratorView {
        node: x.node,
        element: Box::new(expression_view(*x.element)),
        generators: comprehensions_view(x.generators@),
    }
}

/// The view of a [`ListComp`].
pub open spec fn list_comp_view(x: ListComp) -> ListCompView
    decreases x,
{
    ListCompView {
        node: x.node,
        element: Box::new(expression_view(*x.element)),
        generators: comprehensions_view(x.generators@),
    }
}

/// The view of a [`SetComp`].
pub open spec fn set_comp_view(x: SetComp) -> SetCompView
    decreases x,
{
    SetCompView {
        node: x.node,
        element: Box::new(expression_view(*x.element)),
        generators: comprehensions_view(x.generators@),
    }
}

/// The view of a [`DictComp`].
pub open spec fn dict_comp_view(x: DictComp) -> DictCompView
    decreases x,
{
    DictCompView {
        node: x.node,
        key: Box::new(expression_view(*x.key)),
        value: Box::new(expression_view(*x.value)),
        generators: comprehensions_view(x.generators@),
    }
}

/// The view of a [`Comprehension`].
pub open spec fn comprehension_view(x: Comprehension) -> ComprehensionView
    decreases x,
{
    ComprehensionView {
        node: x.node,
        target: Box::new(expression_view(*x.target)),
        iter: Box::new(expression_view(*x.iter)),
        ifs: expressions_view(x.ifs@),
        is_async: x.is_async,
    }
}

/// The view of a [`Attribute`].
pub open spec fn attribute_view(x: Attribute) -> AttributeView
    decreases x,
{
    AttributeView {
        node: x.node,
        value: Box::new(expression_view(*x.value)),
        attr: x.attr@,
    }
}

/// The view of a [`Subscript`].
pub open spec fn subscript_view(x: Subscript) -> SubscriptView
    decreases x,
{
    SubscriptView {
        node: x.node,
        value: Box::new(expression_view(*x.value)),
        slice: Box::new(expression_view(*x.slice)),
    }
}

/// The view of a [`Slice`].
pub open spec fn slice_view(x: Slice) -> SliceView
    decreases x,
{
    SliceView {
        node: x.node,
        lower: match x.lower {
            Some(inner) => Some(Box::new(expression_view(*inner))),
            None => None,
        },
        upper: match x.upper {
            Some(inner) => Some(Box::new(expression_view(*inner))),
            None => None,
        },
        step: match x.step {
            Some(inner) => Some(Box::new(expression_view(*inner))),
            None => None,
        },
    }
}

/// The view of a [`Call`].
pub open spec fn call_view(x: Call) -> CallView
    decreases x,
{
    CallView {
        node: x.node,
        func: Box::new(expression_view(*x.func)),
        args: expressions_view(x.args@),
        keywords: keywords_view(x.keywords@),
        starargs: match x.starargs {
            Some(inner) => Some(Box::new(expression_view(*inner))),
            None => None,
        },
        kwargs: match x.kwargs {
            Some(inner) => Some(Box::new(expression_view(*inner))),
            None => None,
        },
    }
}

/// The view of a [`Keyword`].
pub open spec fn keyword_view(x: Keyword) -> KeywordView
    decreases x,
{
    KeywordView {
        node: x.node,
        arg: match x.arg {
            Some(inner) => Some(inner@),
            None => None,
        },
        value: Box::new(expression_view(*x.value)),
    }
}

/// The view of a [`Await`].
pub open spec fn await_view(x: Await) -> AwaitView
    decreases x,
{
    AwaitView {
        node: x.node,
        value: Box::new(expression_view(*x.value)),
    }
}

/// The view of a [`Compare`].
pub open spec fn compare_view(x: Compare) -> CompareView
    decreases x,
{
    CompareView {
        node: x.node,
        left: Box::new(expression_view(*x.left)),
        ops: x.ops@,
        comparators: expressions_view(x.comparators@),
    }
}

/// The view of a [`Lambda`].
pub open spec fn lambda_view(x: Lambda) -> LambdaView
    decreases x,
{
    LambdaView {
        node: x.node,
        args: arguments_view(x.args),
        body: Box::new(expression_view(*x.body)),
    }
}

/// The view of a [`Arguments`].
pub open spec fn arguments_view(x: Arguments) -> ArgumentsView
    decreases x,
{
    ArgumentsView {
        node: x.node,
        posonlyargs: args_view(x.posonlyargs@),
        args: args_view(x.args@),
        vararg: match x.vararg {
            Some(inner) => Some(arg_view(inner)),
            None => None,
        },
        kwonlyargs: args_view(x.kwonlyargs@),
        kw_defaults: optional_expressions_view(x.kw_defaults@),
        kwarg: match x.kwarg {
            Some(inner) => Some(arg_view(inner)),
            None => None,
        },
        defaults: expressions_view(x.defaults@),
    }
}

/// The view of a [`Arg`].
pub open spec fn arg_view(x: Arg) -> ArgView
    decreases x,
{
    ArgView {
        node: x.node,
        arg: x.arg@,
        annotation: match x.annotation {
            Some(inner) => Some(expression_view(inner)),
            None => None,
        },
    }
}

/// The view of a [`IfExp`].
pub open spec fn if_exp_view(x: IfExp) -> IfExpView
    decreases x,
{
    IfExpView {
        node: x.node,
        test: Box::new(expression_view(*x.test)),
        body: Box::new(expression_view(*x.body)),
        orelse: Box::new(expression_view(*x.orelse)),
    }
}

/// The view of a [`FormattedValue`].
pub open spec fn formatted_value_view(x: FormattedValue) -> FormattedValueView
    decreases x,
{
    FormattedValueView {
        node: x.node,
        value: Box::new(expression_view(*x.value)),
        conversion: x.conversion,
        format_spec: match x.format_spec {
            Some(inner) => Some(Box::new(expression_view(*inner))),
            None => None,
        },
    }
}

/// The view of a [`JoinedStr`].
pub open spec fn joined_str_view(x: JoinedStr) -> JoinedStrView
    decreases x,
{
    JoinedStrView {
        node: x.node,
        values: expressions_view(x.values@),
    }
}

/// The view of a [`If`].
pub open spec fn if_view(x: If) -> IfView
    decreases x,
{
    IfView {
        node: x.node,
        test: Box::new(expression_view(*x.test)),
        body: statements_view(x.body@),
        orelse: statements_view(x.orelse@),
    }
}

/// The view of a [`While`].
pub open spec fn while_view(x: While) -> WhileView
    decreases x,
{
    WhileView {
        node: x.node,
        test: Box::new(expression_view(*x.test)),
        body: statements_view(x.body@),
        orelse: statements_view(x.orelse@),
    }
}

/// The view of a [`For`].
pub open spec fn for_view(x: For) -> ForView
    decreases x,
{
    ForView {
        node: x.node,
        target: Box::new(expression_view(*x.target)),
        iter: Box::new(expression_view(*x.iter)),
        body: statements_view(x.body@),
        orelse: statements_view(x.orelse@),
    }
}

/// The view of a [`With`].
pub open spec fn with_view(x: With) -> WithView
    decreases x,
{
    WithView {
        node: x.node,
        items: with_items_view(x.items@),
        body: statements_view(x.body@),
    }
}

/// The view of a [`WithItem`].
pub open spec fn with_item_view(x: WithItem) -> WithItemView
    decreases x,
{
    WithItemView {
        node: x.node,
        context_expr: Box::new(expression_view(*x.context_expr)),
        optional_vars: match x.optional_vars {
            Some(inner) => Some(Box::new(expression_view(*inner))),
            None => None,
        },
    }
}

/// The view of a [`Try`].
pub open spec fn try_view(x: Try) -> TryView
    decreases x,
{
    TryView {
        node: x.node,
        body: statements_view(x.body@),
        handlers: except_handlers_view(x.handlers@),
        orelse: statements_view(x.orelse@),
        finalbody: statements_view(x.finalbody@),
    }
}

/// The view of a [`TryStar`].
pub open spec fn try_star_view(x: TryStar) -> TryStarView
    decreases x,
{
    TryStarView {
        node: x.node,
        body: statements_view(x.body@),
        handlers: except_handlers_view(x.handlers@),
        orelse: statements_view(x.orelse@),
        finalbody: statements_view(x.finalbody@),
    }
}

/// The view of a [`ExceptHandler`].
pub open spec fn except_handler_view(x: ExceptHandler) -> ExceptHandlerView
    decreases x,
{
    ExceptHandlerView {
        node: x.node,
        typ: match x.typ {
            Some(inner) => Some(Box::new(expression_view(*inner))),
            None => None,
        },
        name: match x.name {
            Some(inner) => Some(inner@),
            None => None,
        },
        body: statements_view(x.body@),
    }
}

/// The view of a [`FunctionDef`].
pub open spec fn function_def_view(x: FunctionDef) -> FunctionDefView
    decreases x,
{
    FunctionDefView {
        node: x.node,
        name: x.name@,
        args: arguments_view(x.args),
        body: statements_view(x.body@),
        decorator_list: expressions_view(x.decorator_list@),
        returns: match x.returns {
            Some(inner) => Some(Box::new(expression_view(*inner))),
            None => None,
        },
        type_comment: match x.type_comment {
            Some(inner) => Some(inner@),
            None => None,
        },
    }
}

/// The view of a [`ClassDef`].
pub open spec fn class_def_view(x: ClassDef) -> ClassDefView
    decreases x,
{
    ClassDefView {
        node: x.node,
        name: x.name@,
        bases: expressions_view(x.bases@),
        keywords: keywords_view(x.keywords@),
        body: statements_view(x.body@),
        decorator_list: expressions_view(x.decorator_list@),
    }
}

/// The view of a [`Match`].
pub open spec fn match_view(x: Match) -> MatchView
    decreases x,
{
    MatchView {
        node: x.node,
        subject: Box::new(expression_view(*x.subject)),
        cases: match_cases_view(x.cases@),
    }
}

/// The view of a [`MatchCase`].
pub open spec fn match_case_view(x: MatchCase) -> MatchCaseView
    decreases x,
{
    MatchCaseView {
        node: x.node,
        pattern: Box::new(match_pattern_view(*x.pattern)),
        guard: match x.guard {
            Some(inner) => Some(Box::new(expression_view(*inner))),
            None => None,
        },
        body: statements_view(x.body@),
    }
}

/// The view of a [`MatchPattern`].
pub open spec fn match_pattern_view(x: MatchPattern) -> MatchPatternView
    decreases x,
{
    match x {
        MatchPattern::MatchValue(a) => MatchPatternView::MatchValue(match_value_view(a)),
        MatchPattern::MatchSingleton(a) => MatchPatternView::MatchSingleton(Box::new(expression_view(*a))),
        MatchPattern::MatchSequence(a) => MatchPatternView::MatchSequence(match_patterns_view(a@)),
        MatchPattern::MatchStar(a) => MatchPatternView::MatchStar(Box::new(expression_view(*a))),
        MatchPattern::MatchMapping(a) => MatchPatternView::MatchMapping(match_mapping_view(a)),
        MatchPattern::MatchAs(a) => MatchPatternView::MatchAs(match_as_view(a)),
        MatchPattern::MatchClass(a) => MatchPatternView::MatchClass(match_class_view(a)),
        MatchPattern::MatchOr(a) => MatchPatternView::MatchOr(match_patterns_view(a@)),
    }
}

/// The view of a [`MatchValue`].
pub open spec fn match_value_view(x: MatchValue) -> MatchValueView
    decreases x,
{
    MatchValueView {
        node: x.node,
        value: Box::new(expression_view(*x.value)),
    }
}

/// The view of a [`MatchAs`].
pub open spec fn match_as_view(x: MatchAs) -> MatchAsView
    decreases x,
{
    MatchAsView {
        node: x.node,
        name: match x.name {
            Some(inner) => Some(inner@),
            None => None,
        },
        pattern: match x.pattern {
            Some(inner) => Some(Box::new(match_pattern_view(*inner))),
            None => None,
        },
    }
}

/// The view of a [`MatchMapping`].
pub open spec fn match_mapping_view(x: MatchMapping) -> MatchMappingView
    decreases x,
{
    MatchMappingView {
        node: x.node,
        keys: expressions_view(x.keys@),
        patterns: match_patterns_view(x.patterns@),
        rest: match x.rest {
            Some(inner) => Some(inner@),
            None => None,
        },
    }
}

/// The view of a [`MatchClass`].
pub open spec fn match_class_view(x: MatchClass) -> MatchClassView
    decreases x,
{
    MatchClassView {
        node: x.node,
        cls: Box::new(expression_view(*x.cls)),
        patterns: match_patterns_view(x.patterns@),
        kwd_attrs: strings_view(x.kwd_attrs@),
        kwd_patterns: match_patterns_view(x.kwd_patterns@),
    }
}

/// The views of the items of `v`, in order.
pub open spec fn aliases_view(v: Seq<Alias>) -> Seq<AliasView>
    decreases v,
{
    Seq::new(
        v.len(),
        |k: int|
            if 0 <= k < v.len() {
                alias_view(v[k])
            } else {
                arbitrary()
            },
    )
}

/// The views of the items of `v`, in order.
pub open spec fn args_view(v: Seq<Arg>) -> Seq<ArgView>
    decreases v,
{
    Seq::new(
        v.len(),
        |k: int|
            if 0 <= k < v.len() {
                arg_view(v[k])
            } else {
                arbitrary()
            },
    )
}

/// The views of the items of `v`, in order.
pub open spec fn comprehensions_view(v: Seq<Comprehension>) -> Seq<ComprehensionView>
    decreases v,
{
    Seq::new(
        v.len(),
        |k: int|
            if 0 <= k < v.len() {
                comprehension_view(v[k])
            } else {
                arbitrary()
            },
    )
}

/// The views of the items of `v`, in order.
pub open spec fn constants_view(v: Seq<Constant>) -> Seq<ConstantView>
    decreases v,
{
    Seq::new(
        v.len(),
        |k: int|
            if 0 <= k < v.len() {
                constant_view(v[k])
            } else {
                arbitrary()
            },
    )
}

/// The views of the items of `v`, in order.
pub open spec fn except_handlers_view(v: Seq<ExceptHandler>) -> Seq<ExceptHandlerView>
    decreases v,
{
    Seq::new(
        v.len(),
        |k: int|
            if 0 <= k < v.len() {
                except_handler_view(v[k])
            } else {
                arbitrary()
            },
    )
}

/// The views of the items of `v`, in order.
pub open spec fn expressions_view(v: Seq<Expression>) -> Seq<ExpressionView>
    decreases v,
{
    Seq::new(
        v.len(),
        |k: int|
            if 0 <= k < v.len() {
                expression_view(v[k])
            } else {
                arbitrary()
            },
    )
}

/// The views of the items of `v`, in order.
pub open spec fn keywords_view(v: Seq<Keyword>) -> Seq<KeywordView>
    decreases v,
{
    Seq::new(
        v.len(),
        |k: int|
            if 0 <= k < v.len() {
                keyword_view(v[k])
            } else {
                arbitrary()
            },
    )
}

/// The views of the items of `v`, in order.
pub open spec fn match_cases_view(v: Seq<MatchCase>) -> Seq<MatchCaseView>
    decreases v,
{
    Seq::new(
        v.len(),
        |k: int|
            if 0 <= k < v.len() {
                match_case_view(v[k])
            } else {
                arbitrary()
            },
    )
}

/// The views of the items of `v`, in order.
pub open spec fn match_patterns_view(v: Seq<MatchPattern>) -> Seq<MatchPatternView>
    decreases v,
{
    Seq::new(
        v.len(),
        |k: int|
            if 0 <= k < v.len() {
                match_pattern_view(v[k])
            } else {
                arbitrary()
            },
    )
}

/// The views of the items of `v`, in order.
pub open spec fn optional_expressions_view(v: Seq<Option<Expression>>) -> Seq<Option<ExpressionView>>
    decreases v,
{
    Seq::new(
        v.len(),
        |k: int|
            if 0 <= k < v.len() {
                match v[k] {
                    Some(inner) => Some(expression_view(inner)),
                    None => None,
                }
            } else {
                arbitrary()
            },
    )
}

/// The views of the items of `v`, in order.
pub open spec fn statements_view(v: Seq<Statement>) -> Seq<StatementView>
    decreases v,
{
    Seq::new(
        v.len(),
        |k: int|
            if 0 <= k < v.len() {
                statement_view(v[k])
            } else {
                arbitrary()
            },
    )
}

/// The views of the items of `v`, in order.
pub open spec fn strings_view(v: Seq<String>) -> Seq<Seq<char>>
    decreases v,
{
    Seq::new(
        v.len(),
        |k: int|
            if 0 <= k < v.len() {
                v[k]@
            } else {
                arbitrary()
            },
    )
}

/// The views of the items of `v`, in order.
pub open spec fn with_items_view(v: Seq<WithItem>) -> Seq<WithItemView>
    decreases v,
{
    Seq::new(
        v.len(),
        |k: int|
            if 0 <= k < v.len() {
                with_item_view(v[k])
            } else {
                arbitrary()
            },
    )
}

impl View for Module {
    type V = ModuleView;

    open spec fn view(&self) -> ModuleView {
        module_view(*self)
    }
}

impl View for Statement {
    type V = StatementView;

    open spec fn view(&self) -> StatementView {
        statement_view(*self)
    }
}

impl View for Assign {
    type V = AssignView;

    open spec fn view(&self) -> AssignView {
        assign_view(*self)
    }
}

impl View for AnnAssign {
    type V = AnnAssignView;

    open spec fn view(&self) -> AnnAssignView {
        ann_assign_view(*self)
    }
}

impl View for AugAssign {
    type V = AugAssignView;

    open spec fn view(&self) -> AugAssignView {
        aug_assign_view(*self)
    }
}

impl View for Assert {
    type V = AssertView;

    open spec fn view(&self) -> AssertView {
        assert_view(*self)
    }
}

impl View for Pass {
    type V = PassView;

    open spec fn view(&self) -> PassView {
        pass_view(*self)
    }
}

impl View for Delete {
    type V = DeleteView;

    open spec fn view(&self) -> DeleteView {
        delete_view(*self)
    }
}

impl View for Return {
    type V = ReturnView;

    open spec fn view(&self) -> ReturnView {
        return_view(*self)
    }
}

impl View for Raise {
    type V = RaiseView;

    open spec fn view(&self) -> RaiseView {
        raise_view(*self)
    }
}

impl View for Break {
    type V = BreakView;

    open spec fn view(&self) -> BreakView {
        break_view(*self)
    }
}

impl View for Continue {
    type V = ContinueView;

    open spec fn view(&self) -> ContinueView {
        continue_view(*self)
    }
}

impl View for Import {
    type V = ImportView;

    open spec fn view(&self) -> ImportView {
        import_view(*self)
    }
}

impl View for Alias {
    type V = AliasView;

    open spec fn view(&self) -> AliasView {
        alias_view(*self)
    }
}

impl View for ImportFrom {
    type V = ImportFromView;

    open spec fn view(&self) -> ImportFromView {
        import_from_view(*self)
    }
}

impl View for Global {
    type V = GlobalView;

    open spec fn view(&self) -> GlobalView {
        global_view(*self)
    }
}

impl View for Nonlocal {
    type V = NonlocalView;

    open spec fn view(&self) -> NonlocalView {
        nonlocal_view(*self)
    }
}

impl View for Expression {
    type V = ExpressionView;

    open spec fn view(&self) -> ExpressionView {
        expression_view(*self)
    }
}

impl View for Name {
    type V = NameView;

    open spec fn view(&self) -> NameView {
        name_view(*self)
    }
}

impl View for Constant {
    type V = ConstantView;

    open spec fn view(&self) -> ConstantView {
        constant_view(*self)
    }
}

impl View for ConstantValue {
    type V = ConstantValueView;

    open spec fn view(&self) -> ConstantValueView {
        constant_value_view(*self)
    }
}

impl View for List {
    type V = ListView;

    open spec fn view(&self) -> ListView {
        list_view(*self)
    }
}

impl View for Tuple {
    type V = TupleView;

    open spec fn view(&self) -> TupleView {
        tuple_view(*self)
    }
}

impl View for Dict {
    type V = DictView;

    open spec fn view(&self) -> DictView {
        dict_view(*self)
    }
}

impl View for SetExpr {
    type V = SetExprView;

    open spec fn view(&self) -> SetExprView {
        set_expr_view(*self)
    }
}

impl View for BoolOperation {
    type V = BoolOperationView;

    open spec fn view(&self) -> BoolOperationView {
        bool_operation_view(*self)
    }
}

impl View for UnaryOperation {
    type V = UnaryOperationView;

    open spec fn view(&self) -> UnaryOperationView {
        unary_operation_view(*self)
    }
}

impl View for BinOp {
    type V = BinOpView;

    open spec fn view(&self) -> BinOpView {
        bin_op_view(*self)
    }
}

impl View for NamedExpression {
    type V = NamedExpressionView;

    open spec fn view(&self) -> NamedExpressionView {
        named_expression_view(*self)
    }
}

impl View for Yield {
    type V = YieldView;

    open spec fn view(&self) -> YieldView {
        yield_view(*self)
    }
}

impl View for YieldFrom {
    type V = YieldFromView;

    open spec fn view(&self) -> YieldFromView {
        yield_from_view(*self)
    }
}

impl View for Starred {
    type V = StarredView;

    open spec fn view(&self) -> StarredView {
        starred_view(*self)
    }
}

impl View for Generator {
    type V = GeneratorView;

    open spec fn view(&self) -> GeneratorView {
        generator_view(*self)
    }
}

impl View for ListComp {
    type V = ListCompView;

    open spec fn view(&self) -> ListCompView {
        list_comp_view(*self)
    }
}

impl View for SetComp {
    type V = SetCompView;

    open spec fn view(&self) -> SetCompView {
        set_comp_view(*self)
    }
}

impl View for DictComp {
    type V = DictCompView;

    open spec fn view(&self) -> DictCompView {
        dict_comp_view(*self)
    }
}

impl View for Comprehension {
    type V = ComprehensionView;

    open spec fn view(&self) -> ComprehensionView {
        comprehension_view(*self)
    }
}

impl View for Attribute {
    type V = AttributeView;

    open spec fn view(&self) -> AttributeView {
        attribute_view(*self)
    }
}

impl View for Subscript {
    type V = SubscriptView;

    open spec fn view(&self) -> SubscriptView {
        subscript_view(*self)
    }
}

impl View for Slice {
    type V = SliceView;

    open spec fn view(&self) -> SliceView {
        slice_view(*self)
    }
}

impl View for Call {
    type V = CallView;

    open spec fn view(&self) -> CallView {
        call_view(*self)
    }
}

impl View for Keyword {
    type V = KeywordView;

    open spec fn view(&self) -> KeywordView {
        keyword_view(*self)
    }
}

impl View for Await {
    type V = AwaitView;

    open spec fn view(&self) -> AwaitView {
        await_view(*self)
    }
}

impl View for Compare {
    type V = CompareView;

    open spec fn view(&self) -> CompareView {
        compare_view(*self)
    }
}

impl View for Lambda {
    type V = LambdaView;

    open spec fn view(&self) -> LambdaView {
        lambda_view(*self)
    }
}

impl View for Arguments {
    type V = ArgumentsView;

    open spec fn view(&self) -> ArgumentsView {
        arguments_view(*self)
    }
}

impl View for Arg {
    type V = ArgView;

    open spec fn view(&self) -> ArgView {
        arg_view(*self)
    }
}

impl View for IfExp {
    type V = IfExpView;

    open spec fn view(&self) -> IfExpView {
        if_exp_view(*self)
    }
}

impl View for FormattedValue {
    type V = FormattedValueView;

    open spec fn view(&self) -> FormattedValueView {
        formatted_value_view(*self)
    }
}

impl View for JoinedStr {
    type V = JoinedStrView;

    open spec fn view(&self) -> JoinedStrView {
        joined_str_view(*self)
    }
}

impl View for If {
    type V = IfView;

    open spec fn view(&self) -> IfView {
        if_view(*self)
    }
}

impl View for While {
    type V = WhileView;

    open spec fn view(&self) -> WhileView {
        while_view(*self)
    }
}

impl View for For {
    type V = ForView;

    open spec fn view(&self) -> ForView {
        for_view(*self)
    }
}

impl View for With {
    type V = WithView;

    open spec fn view(&self) -> WithView {
        with_view(*self)
    }
}

impl View for WithItem {
    type V = WithItemView;

    open spec fn view(&self) -> WithItemView {
        with_item_view(*self)
    }
}

impl View for Try {
    type V = TryView;

    open spec fn view(&self) -> TryView {
        try_view(*self)
    }
}

impl View for TryStar {
    type V = TryStarView;

    open spec fn view(&self) -> TryStarView {
        try_star_view(*self)
    }
}

impl View for ExceptHandler {
    type V = ExceptHandlerView;

    open spec fn view(&self) -> ExceptHandlerView {
        except_handler_view(*self)
    }
}

impl View for FunctionDef {
    type V = FunctionDefView;

    open spec fn view(&self) -> FunctionDefView {
        function_def_view(*self)
    }
}

impl View for ClassDef {
    type V = ClassDefView;

    open spec fn view(&self) -> ClassDefView {
        class_def_view(*self)
    }
}

impl View for Match {
    type V = MatchView;

    open spec fn view(&self) -> MatchView {
        match_view(*self)
    }
}

impl View for MatchCase {
    type V = MatchCaseView;

    open spec fn view(&self) -> MatchCaseView {
        match_case_view(*self)
    }
}

impl View for MatchPattern {
    type V = MatchPatternView;

    open spec fn view(&self) -> MatchPatternView {
        match_pattern_view(*self)
    }
}

impl View for MatchValue {
    type V = MatchValueView;

    open spec fn view(&self) -> MatchValueView {
        match_value_view(*self)
    }
}

impl View for MatchAs {
    type V = MatchAsView;

    open spec fn view(&self) -> MatchAsView {
        match_as_view(*self)
    }
}

impl View for MatchMapping {
    type V = MatchMappingView;

    open spec fn view(&self) -> MatchMappingView {
        match_mapping_view(*self)
    }
}

impl View for MatchClass {
    type V = MatchClassView;

    open spec fn view(&self) -> MatchClassView {
        match_class_view(*self)
    }
}

} // verus!
