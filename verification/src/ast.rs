//! The syntax tree of one source file: every statement, expression and
//! pattern form, each node with the byte span it was parsed from.
use vstd::prelude::*;

verus! {

/// A byte range `[start, end)` of the source buffer.
#[derive(Debug, Clone, Copy, PartialEq, Eq, Structural)]
pub struct Node {
    /// Start offset in source
    pub start: usize,
    /// End offset in source
    pub end: usize,
}

impl Node {
    /// A span is well formed when it does not end before it starts.
    pub open spec fn wf(self) -> bool {
        self.start <= self.end
    }

    /// The span from `start` up to `end`.
    pub fn new(start: usize, end: usize) -> (node: Self)
        requires
            start <= end,
        ensures
            node.start == start,
            node.end == end,
            node.wf(),
    {
        Self { start, end }
    }

    /// The number of bytes the span covers.
    pub fn len(&self) -> (n: usize)
        requires
            self.wf(),
        ensures
            n == self.end - self.start,
    {
        self.end - self.start
    }
}

impl Default for Node {
    fn default() -> (node: Self)
        ensures
            node.start == 0,
            node.end == 0,
            node.wf(),
    {
        Self { start: 0, end: 0 }
    }
}

/// The root of a parsed file: its statements in source order.
#[derive(Debug)]
pub struct Module {
    pub node: Node,
    pub body: Vec<Statement>,
}

/// One statement of the source language.
#[derive(Debug)]
pub enum Statement {
    AssignStatement(Assign),
    AnnAssignStatement(AnnAssign),
    AugAssignStatement(AugAssign),
    ExpressionStatement(Expression),
    Assert(Assert),
    Pass(Pass),
    Delete(Delete),
    Return(Return),
    Raise(Raise),
    Break(Break),
    Continue(Continue),
    Import(Import),
    ImportFrom(ImportFrom),
    Global(Global),
    Nonlocal(Nonlocal),
    IfStatement(If),
    WhileStatement(While),
    ForStatement(For),
    WithStatement(With),
    TryStatement(Try),
    TryStarStatement(TryStar),
    FunctionDef(FunctionDef),
    ClassDef(ClassDef),
    Match(Match),
}

/// `targets = value`; one target per `=` of a chained assignment.
#[derive(Debug)]
pub struct Assign {
    pub node: Node,
    pub targets: Vec<Expression>,
    pub value: Expression,
}

/// `target: annotation = value`.
#[derive(Debug)]
pub struct AnnAssign {
    pub node: Node,
    pub target: Expression,
    pub annotation: Expression,
    pub value: Option<Expression>,
    pub simple: bool,
}

/// `target op= value`.
#[derive(Debug)]
pub struct AugAssign {
    pub node: Node,
    pub target: Expression,
    pub op: AugAssignOp,
    pub value: Expression,
}

/// The operator of an augmented assignment.
#[derive(Debug, Clone, Copy, PartialEq, Eq, Structural)]
pub enum AugAssignOp {
    Add,
    Sub,
    Mult,
    MatMult,
    Div,
    Mod,
    Pow,
    LShift,
    RShift,
    BitOr,
    BitXor,
    BitAnd,
    FloorDiv,
}

/// `assert test, msg`.
#[derive(Debug)]
pub struct Assert {
    pub node: Node,
    pub test: Expression,
    pub msg: Option<Expression>,
}

/// `pass`.
#[derive(Debug)]
pub struct Pass {
    pub node: Node,
}

/// `del targets`.
#[derive(Debug)]
pub struct Delete {
    pub node: Node,
    pub targets: Vec<Expression>,
}

/// `return value`.
#[derive(Debug)]
pub struct Return {
    pub node: Node,
    pub value: Option<Expression>,
}

/// `raise exc from cause`.
#[derive(Debug)]
pub struct Raise {
    pub node: Node,
    pub exc: Option<Expression>,
    pub cause: Option<Expression>,
}

/// `break`.
#[derive(Debug)]
pub struct Break {
    pub node: Node,
}

/// `continue`.
#[derive(Debug)]
pub struct Continue {
    pub node: Node,
}

/// `import names`.
#[derive(Debug)]
pub struct Import {
    pub node: Node,
    pub names: Vec<Alias>,
}

/// One imported name with its optional `as` name.
#[derive(Debug)]
pub struct Alias {
    pub node: Node,
    pub name: String,
    pub asname: Option<String>,
}

/// `from module import names`, with the number of leading dots in `level`.
#[derive(Debug)]
pub struct ImportFrom {
    pub node: Node,
    pub module: String,
    pub names: Vec<Alias>,
    pub level: usize,
}

/// `global names`.
#[derive(Debug)]
pub struct Global {
    pub node: Node,
    pub names: Vec<String>,
}

/// `nonlocal names`.
#[derive(Debug)]
pub struct Nonlocal {
    pub node: Node,
    pub names: Vec<String>,
}

/// One expression of the source language.
#[derive(Debug)]
pub enum Expression {
    Constant(Box<Constant>),
    List(Box<List>),
    Tuple(Box<Tuple>),
    Dict(Box<Dict>),
    SetExpr(Box<SetExpr>),
    Name(Box<Name>),
    BoolOp(Box<BoolOperation>),
    UnaryOp(Box<UnaryOperation>),
    BinOp(Box<BinOp>),
    NamedExpr(Box<NamedExpression>),
    Yield(Box<Yield>),
    YieldFrom(Box<YieldFrom>),
    Starred(Box<Starred>),
    Generator(Box<Generator>),
    ListComp(Box<ListComp>),
    SetComp(Box<SetComp>),
    DictComp(Box<DictComp>),
    Attribute(Box<Attribute>),
    Subscript(Box<Subscript>),
    Slice(Box<Slice>),
    Call(Box<Call>),
    Await(Box<Await>),
    Compare(Box<Compare>),
    Lambda(Box<Lambda>),
    IfExp(Box<IfExp>),
    JoinedStr(Box<JoinedStr>),
    FormattedValue(Box<FormattedValue>),
}

/// An identifier.
#[derive(Debug)]
pub struct Name {
    pub node: Node,
    pub id: String,
}

/// A literal.
#[derive(Debug, PartialEq)]
pub struct Constant {
    pub node: Node,
    pub value: ConstantValue,
}

/// The value of a literal. Numbers keep their source text.
#[derive(Debug, PartialEq)]
pub enum ConstantValue {
    NoneValue,
    Bool(bool),
    Str(String),
    Bytes(Vec<u8>),
    Tuple(Vec<Constant>),
    Int(String),
    Float(String),
    Complex { real: String, imaginary: String },
}

/// `[elements]`.
#[derive(Debug)]
pub struct List {
    pub node: Node,
    pub elements: Vec<Expression>,
}

/// `(elements)`.
#[derive(Debug)]
pub struct Tuple {
    pub node: Node,
    pub elements: Vec<Expression>,
}

/// `{keys: values}`.
#[derive(Debug)]
pub struct Dict {
    pub node: Node,
    pub keys: Vec<Expression>,
    pub values: Vec<Expression>,
}

/// `{elements}`.
#[derive(Debug)]
pub struct SetExpr {
    pub node: Node,
    pub elements: Vec<Expression>,
}

/// `values` joined by `and` or by `or`.
#[derive(Debug)]
pub struct BoolOperation {
    pub node: Node,
    pub op: BooleanOperator,
    pub values: Vec<Expression>,
}

/// `and` or `or`.
#[derive(Debug, Clone, Copy, PartialEq, Eq, Structural)]
pub enum BooleanOperator {
    And,
    Or,
}

/// `op operand`.
#[derive(Debug)]
pub struct UnaryOperation {
    pub node: Node,
    pub op: UnaryOperator,
    pub operand: Box<Expression>,
}

/// A prefix operator.
#[derive(Debug, Clone, Copy, PartialEq, Eq, Structural)]
pub enum UnaryOperator {
    Not,
    Invert,
    UAdd,
    USub,
}

/// `left op right`.
#[derive(Debug)]
pub struct BinOp {
    pub node: Node,
    pub op: BinaryOperator,
    pub left: Box<Expression>,
    pub right: Box<Expression>,
}

/// An infix arithmetic or bitwise operator.
#[derive(Debug, Clone, Copy, PartialEq, Eq, Structural)]
pub enum BinaryOperator {
    Add,
    Sub,
    Mult,
    MatMult,
    Div,
    Mod,
    Pow,
    LShift,
    RShift,
    BitOr,
    BitXor,
    BitAnd,
    FloorDiv,
}

/// `target := value`.
#[derive(Debug)]
pub struct NamedExpression {
    pub node: Node,
    pub target: Box<Expression>,
    pub value: Box<Expression>,
}

/// `yield value`.
#[derive(Debug)]
pub struct Yield {
    pub node: Node,
    pub value: Option<Box<Expression>>,
}

/// `yield from value`.
#[derive(Debug)]
pub struct YieldFrom {
    pub node: Node,
    pub value: Box<Expression>,
}

/// `*value`.
#[derive(Debug)]
pub struct Starred {
    pub node: Node,
    pub value: Box<Expression>,
}

/// `(element for ...)`.
#[derive(Debug)]
pub struct Generator {
    pub node: Node,
    pub element: Box<Expression>,
    pub generators: Vec<Comprehension>,
}

/// `[element for ...]`.
#[derive(Debug)]
pub struct ListComp {
    pub node: Node,
    pub element: Box<Expression>,
    pub generators: Vec<Comprehension>,
}

/// `{element for ...}`.
#[derive(Debug)]
pub struct SetComp {
    pub node: Node,
    pub element: Box<Expression>,
    pub generators: Vec<Comprehension>,
}

/// `{key: value for ...}`.
#[derive(Debug)]
pub struct DictComp {
    pub node: Node,
    pub key: Box<Expression>,
    pub value: Box<Expression>,
    pub generators: Vec<Comprehension>,
}

/// One `for target in iter if ...` clause.
#[derive(Debug)]
pub struct Comprehension {
    pub node: Node,
    pub target: Box<Expression>,
    pub iter: Box<Expression>,
    pub ifs: Vec<Expression>,
    pub is_async: bool,
}

/// `value.attr`.
#[derive(Debug)]
pub struct Attribute {
    pub node: Node,
    pub value: Box<Expression>,
    pub attr: String,
}

/// `value[slice]`.
#[derive(Debug)]
pub struct Subscript {
    pub node: Node,
    pub value: Box<Expression>,
    pub slice: Box<Expression>,
}

/// `lower:upper:step`.
#[derive(Debug)]
pub struct Slice {
    pub node: Node,
    pub lower: Option<Box<Expression>>,
    pub upper: Option<Box<Expression>>,
    pub step: Option<Box<Expression>>,
}

/// `func(args, keywords, *starargs, **kwargs)`.
#[derive(Debug)]
pub struct Call {
    pub node: Node,
    pub func: Box<Expression>,
    pub args: Vec<Expression>,
    pub keywords: Vec<Keyword>,
    pub starargs: Option<Box<Expression>>,
    pub kwargs: Option<Box<Expression>>,
}

/// `arg=value` in a call or a class header.
#[derive(Debug)]
pub struct Keyword {
    pub node: Node,
    pub arg: Option<String>,
    pub value: Box<Expression>,
}

/// `await value`.
#[derive(Debug)]
pub struct Await {
    pub node: Node,
    pub value: Box<Expression>,
}

/// `left op comparator op comparator ...`.
#[derive(Debug)]
pub struct Compare {
    pub node: Node,
    pub left: Box<Expression>,
    pub ops: Vec<ComparisonOperator>,
    pub comparators: Vec<Expression>,
}

/// A comparison operator.
#[derive(Debug, Clone, Copy, PartialEq, Eq, Structural)]
pub enum ComparisonOperator {
    Eq,
    NotEq,
    Lt,
    LtE,
    Gt,
    GtE,
    Is,
    IsNot,
    In,
    NotIn,
}

/// `lambda args: body`.
#[derive(Debug)]
pub struct Lambda {
    pub node: Node,
    pub args: Arguments,
    pub body: Box<Expression>,
}

/// The parameters of a function or lambda.
#[derive(Debug)]
pub struct Arguments {
    pub node: Node,
    pub posonlyargs: Vec<Arg>,
    pub args: Vec<Arg>,
    pub vararg: Option<Arg>,
    pub kwonlyargs: Vec<Arg>,
    pub kw_defaults: Vec<Option<Expression>>,
    pub kwarg: Option<Arg>,
    pub defaults: Vec<Expression>,
}

/// One parameter with its optional annotation.
#[derive(Debug)]
pub struct Arg {
    pub node: Node,
    pub arg: String,
    pub annotation: Option<Expression>,
}

/// `body if test else orelse`.
#[derive(Debug)]
pub struct IfExp {
    pub node: Node,
    pub test: Box<Expression>,
    pub body: Box<Expression>,
    pub orelse: Box<Expression>,
}

/// A `{value!conversion:format_spec}` part of an f-string.
#[derive(Debug)]
pub struct FormattedValue {
    pub node: Node,
    pub value: Box<Expression>,
    pub conversion: Option<i32>,
    pub format_spec: Option<Box<Expression>>,
}

/// An f-string: its parts in order.
#[derive(Debug)]
pub struct JoinedStr {
    pub node: Node,
    pub values: Vec<Expression>,
}

/// `if test: body else: orelse`.
#[derive(Debug)]
pub struct If {
    pub node: Node,
    pub test: Box<Expression>,
    pub body: Vec<Statement>,
    pub orelse: Vec<Statement>,
}

/// `while test: body else: orelse`.
#[derive(Debug)]
pub struct While {
    pub node: Node,
    pub test: Box<Expression>,
    pub body: Vec<Statement>,
    pub orelse: Vec<Statement>,
}

/// `for target in iter: body else: orelse`.
#[derive(Debug)]
pub struct For {
    pub node: Node,
    pub target: Box<Expression>,
    pub iter: Box<Expression>,
    pub body: Vec<Statement>,
    pub orelse: Vec<Statement>,
}

/// `with items: body`.
#[derive(Debug)]
pub struct With {
    pub node: Node,
    pub items: Vec<WithItem>,
    pub body: Vec<Statement>,
}

/// `context_expr as optional_vars`.
#[derive(Debug)]
pub struct WithItem {
    pub node: Node,
    pub context_expr: Box<Expression>,
    pub optional_vars: Option<Box<Expression>>,
}

/// `try: body except handlers else: orelse finally: finalbody`.
#[derive(Debug)]
pub struct Try {
    pub node: Node,
    pub body: Vec<Statement>,
    pub handlers: Vec<ExceptHandler>,
    pub orelse: Vec<Statement>,
    pub finalbody: Vec<Statement>,
}

/// `try` with `except*` handlers.
#[derive(Debug)]
pub struct TryStar {
    pub node: Node,
    pub body: Vec<Statement>,
    pub handlers: Vec<ExceptHandler>,
    pub orelse: Vec<Statement>,
    pub finalbody: Vec<Statement>,
}

/// `except typ as name: body`.
#[derive(Debug)]
pub struct ExceptHandler {
    pub node: Node,
    pub typ: Option<Box<Expression>>,
    pub name: Option<String>,
    pub body: Vec<Statement>,
}

/// `def name(args) -> returns: body`.
#[derive(Debug)]
pub struct FunctionDef {
    pub node: Node,
    pub name: String,
    pub args: Arguments,
    pub body: Vec<Statement>,
    pub decorator_list: Vec<Expression>,
    pub returns: Option<Box<Expression>>,
    pub type_comment: Option<String>,
}

/// `class name(bases, keywords): body`.
#[derive(Debug)]
pub struct ClassDef {
    pub node: Node,
    pub name: String,
    pub bases: Vec<Expression>,
    pub keywords: Vec<Keyword>,
    pub body: Vec<Statement>,
    pub decorator_list: Vec<Expression>,
}

/// `match subject: cases`.
#[derive(Debug)]
pub struct Match {
    pub node: Node,
    pub subject: Box<Expression>,
    pub cases: Vec<MatchCase>,
}

/// `case pattern if guard: body`.
#[derive(Debug)]
pub struct MatchCase {
    pub node: Node,
    pub pattern: Box<MatchPattern>,
    pub guard: Option<Box<Expression>>,
    pub body: Vec<Statement>,
}

/// One structural pattern.
#[derive(Debug)]
pub enum MatchPattern {
    MatchValue(MatchValue),
    MatchSingleton(Box<Expression>),
    MatchSequence(Vec<MatchPattern>),
    MatchStar(Box<Expression>),
    MatchMapping(MatchMapping),
    MatchAs(MatchAs),
    MatchClass(MatchClass),
    MatchOr(Vec<MatchPattern>),
}

/// A pattern that compares with a value.
#[derive(Debug)]
pub struct MatchValue {
    pub node: Node,
    pub value: Box<Expression>,
}

/// `pattern as name`; both absent is the wildcard.
#[derive(Debug)]
pub struct MatchAs {
    pub node: Node,
    pub name: Option<String>,
    pub pattern: Option<Box<MatchPattern>>,
}

/// `{keys: patterns, **rest}`.
#[derive(Debug)]
pub struct MatchMapping {
    pub node: Node,
    pub keys: Vec<Expression>,
    pub patterns: Vec<MatchPattern>,
    pub rest: Option<String>,
}

/// `cls(patterns, kwd_attrs=kwd_patterns)`.
#[derive(Debug)]
pub struct MatchClass {
    pub node: Node,
    pub cls: Box<Expression>,
    pub patterns: Vec<MatchPattern>,
    pub kwd_attrs: Vec<String>,
    pub kwd_patterns: Vec<MatchPattern>,
}

impl Arguments {
    /// Whether the defaults fit the parameters: there is one default slot,
    /// filled or not, for each keyword-only parameter, and there are no more
    /// positional defaults than regular parameters, since the defaults belong
    /// to the last of them.
    pub open spec fn wf(self) -> bool {
        &&& self.kwonlyargs@.len() == self.kw_defaults@.len()
        &&& self.args@.len() >= self.defaults@.len()
    }

    /// Whether the defaults fit the parameters.
    pub fn is_well_formed(&self) -> (ok: bool)
        ensures
            ok == self.wf(),
    {
        self.kwonlyargs.len() == self.kw_defaults.len() && self.args.len() >= self.defaults.len()
    }
}

impl If {
    /// Replaces the `else` branch.
    pub fn update_orelse(&mut self, other_or_else: Vec<Statement>)
        ensures
            final(self).orelse == other_or_else,
            final(self).node == old(self).node,
            final(self).test == old(self).test,
            final(self).body == old(self).body,
    {
        self.orelse = other_or_else;
    }
}

} // verus!
