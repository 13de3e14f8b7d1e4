//! Deep copies of syntax trees. A copy has the view of the tree it was made
//! from, so whatever is stated of one tree's view holds of its copy.
use vstd::prelude::*;
use crate::ast::{
    Alias, AnnAssign, Arg, Arguments, Assert, Assign, Attribute, AugAssign, Await, BinOp,
    BoolOperation, Break, Call, ClassDef, Compare, ComparisonOperator, Comprehension, Constant,
    ConstantValue, Continue, Delete, Dict, DictComp, ExceptHandler, Expression, For, FormattedValue,
    FunctionDef, Generator, Global, If, IfExp, Import, ImportFrom, JoinedStr, Keyword, Lambda, List,
    ListComp, Match, MatchAs, MatchCase, MatchClass, MatchMapping, MatchPattern, MatchValue, Module,
    Name, NamedExpression, Nonlocal, Pass, Raise, Return, SetComp, SetExpr, Slice, Starred,
    Statement, Subscript, Try, TryStar, Tuple, UnaryOperation, While, With, WithItem, Yield,
    YieldFrom,
};
use crate::ast_view::{
    alias_view, aliases_view, arg_view, args_view, comprehension_view, comprehensions_view,
    constant_view, constants_view, except_handler_view, except_handlers_view, expression_view,
    expressions_view, keyword_view, keywords_view, match_case_view, match_cases_view,
    match_pattern_view, match_patterns_view, optional_expressions_view, statement_view,
    statements_view, strings_view, with_item_view, with_items_view,
};

verus! {

fn clone_bytes(v: &Vec<u8>) -> (res: Vec<u8>)
    ensures
        res@ == v@,
{
    let mut out: Vec<u8> = Vec::new();
    let mut k: usize = 0;
    while k < v.len()
        invariant
            k <= v.len(),
            out@ == v@.take(k as int),
        decreases v.len() - k,
    {
        out.push(v[k]);
        k = k + 1;
    }
    out
}

fn clone_aliases(v: &Vec<Alias>) -> (res: Vec<Alias>)
    ensures
        aliases_view(res@) == aliases_view(v@),
    decreases v,
{
    let mut out: Vec<Alias> = Vec::new();
    let mut k: usize = 0;
    while k < v.len()
        invariant
            k <= v.len(),
            out@.len() == k,
            forall|j: int|
                0 <= j < k ==> alias_view(#[trigger] out@[j]) == alias_view(v@[j]),
        decreases v.len() - k,
    {
        let item = v[k].clone();
        out.push(item);
        k = k + 1;
    }
    assert(aliases_view(out@) =~= aliases_view(v@));
    out
}

fn clone_args(v: &Vec<Arg>) -> (res: Vec<Arg>)
    ensures
        args_view(res@) == args_view(v@),
    decreases v,
{
    let mut out: Vec<Arg> = Vec::new();
    let mut k: usize = 0;
    while k < v.len()
        invariant
            k <= v.len(),
            out@.len() == k,
            forall|j: int|
                0 <= j < k ==> arg_view(#[trigger] out@[j]) == arg_view(v@[j]),
        decreases v.len() - k,
    {
        let item = v[k].clone();
        out.push(item);
        k = k + 1;
    }
    assert(args_view(out@) =~= args_view(v@));
    out
}

fn clone_comparison_operators(v: &Vec<ComparisonOperator>) -> (res: Vec<ComparisonOperator>)
    ensures
        res@ == v@,
{
    let mut out: Vec<ComparisonOperator> = Vec::new();
    let mut k: usize = 0;
    while k < v.len()
        invariant
            k <= v.len(),
            out@ == v@.take(k as int),
        decreases v.len() - k,
    {
        out.push(v[k]);
        k = k + 1;
    }
    out
}

fn clone_comprehensions(v: &Vec<Comprehension>) -> (res: Vec<Comprehension>)
    ensures
        comprehensions_view(res@) == comprehensions_view(v@),
    decreases v,
{
    let mut out: Vec<Comprehension> = Vec::new();
    let mut k: usize = 0;
    while k < v.len()
        invariant
            k <= v.len(),
            out@.len() == k,
            forall|j: int|
                0 <= j < k ==> comprehension_view(#[trigger] out@[j]) == comprehension_view(v@[j]),
        decreases v.len() - k,
    {
        let item = v[k].clone();
        out.push(item);
        k = k + 1;
    }
    assert(comprehensions_view(out@) =~= comprehensions_view(v@));
    out
}

fn clone_constants(v: &Vec<Constant>) -> (res: Vec<Constant>)
    ensures
        constants_view(res@) == constants_view(v@),
    decreases v,
{
    let mut out: Vec<Constant> = Vec::new();
    let mut k: usize = 0;
    while k < v.len()
        invariant
            k <= v.len(),
            out@.len() == k,
            forall|j: int|
                0 <= j < k ==> constant_view(#[trigger] out@[j]) == constant_view(v@[j]),
        decreases v.len() - k,
    {
        let item = v[k].clone();
        out.push(item);
        k = k + 1;
    }
    assert(constants_view(out@) =~= constants_view(v@));
    out
}

fn clone_except_handlers(v: &Vec<ExceptHandler>) -> (res: Vec<ExceptHandler>)
    ensures
        except_handlers_view(res@) == except_handlers_view(v@),
    decreases v,
{
    let mut out: Vec<ExceptHandler> = Vec::new();
    let mut k: usize = 0;
    while k < v.len()
        invariant
            k <= v.len(),
            out@.len() == k,
            forall|j: int|
                0 <= j < k ==> except_handler_view(#[trigger] out@[j]) == except_handler_view(v@[j]),
        decreases v.len() - k,
    {
        let item = v[k].clone();
        out.push(item);
        k = k + 1;
    }
    assert(except_handlers_view(out@) =~= except_handlers_view(v@));
    out
}

fn clone_expressions(v: &Vec<Expression>) -> (res: Vec<Expression>)
    ensures
        expressions_view(res@) == expressions_view(v@),
    decreases v,
{
    let mut out: Vec<Expression> = Vec::new();
    let mut k: usize = 0;
    while k < v.len()
        invariant
            k <= v.len(),
            out@.len() == k,
            forall|j: int|
                0 <= j < k ==> expression_view(#[trigger] out@[j]) == expression_view(v@[j]),
        decreases v.len() - k,
    {
        let item = v[k].clone();
        out.push(item);
        k = k + 1;
    }
    assert(expressions_view(out@) =~= expressions_view(v@));
    out
}

fn clone_keywords(v: &Vec<Keyword>) -> (res: Vec<Keyword>)
    ensures
        keywords_view(res@) == keywords_view(v@),
    decreases v,
{
    let mut out: Vec<Keyword> = Vec::new();
    let mut k: usize = 0;
    while k < v.len()
        invariant
            k <= v.len(),
            out@.len() == k,
            forall|j: int|
                0 <= j < k ==> keyword_view(#[trigger] out@[j]) == keyword_view(v@[j]),
        decreases v.len() - k,
    {
        let item = v[k].clone();
        out.push(item);
        k = k + 1;
    }
    assert(keywords_view(out@) =~= keywords_view(v@));
    out
}

fn clone_match_cases(v: &Vec<MatchCase>) -> (res: Vec<MatchCase>)
    ensures
        match_cases_view(res@) == match_cases_view(v@),
    decreases v,
{
    let mut out: Vec<MatchCase> = Vec::new();
    let mut k: usize = 0;
    while k < v.len()
        invariant
            k <= v.len(),
            out@.len() == k,
            forall|j: int|
                0 <= j < k ==> match_case_view(#[trigger] out@[j]) == match_case_view(v@[j]),
        decreases v.len() - k,
    {
        let item = v[k].clone();
        out.push(item);
        k = k + 1;
    }
    assert(match_cases_view(out@) =~= match_cases_view(v@));
    out
}

fn clone_match_patterns(v: &Vec<MatchPattern>) -> (res: Vec<MatchPattern>)
    ensures
        match_patterns_view(res@) == match_patterns_view(v@),
    decreases v,
{
    let mut out: Vec<MatchPattern> = Vec::new();
    let mut k: usize = 0;
    while k < v.len()
        invariant
            k <= v.len(),
            out@.len() == k,
            forall|j: int|
                0 <= j < k ==> match_pattern_view(#[trigger] out@[j]) == match_pattern_view(v@[j]),
        decreases v.len() - k,
    {
        let item = v[k].clone();
        out.push(item);
        k = k + 1;
    }
    assert(match_patterns_view(out@) =~= match_patterns_view(v@));
    out
}

fn clone_optional_expressions(v: &Vec<Option<Expression>>) -> (res: Vec<Option<Expression>>)
    ensures
        optional_expressions_view(res@) == optional_expressions_view(v@),
    decreases v,
{
    let mut out: Vec<Option<Expression>> = Vec::new();
    let mut k: usize = 0;
    while k < v.len()
        invariant
            k <= v.len(),
            out@.len() == k,
            forall|j: int|
                0 <= j < k ==> (match #[trigger] out@[j] {
                    Some(inner) => Some(expression_view(inner)),
                    None => None,
                }) == (match v@[j] {
                    Some(inner) => Some(expression_view(inner)),
                    None => None,
                }),
        decreases v.len() - k,
    {
        let item = match &v[k] {
            Some(inner) => Some(inner.clone()),
            None => None,
        };
        out.push(item);
        k = k + 1;
    }
    assert(optional_expressions_view(out@) =~= optional_expressions_view(v@));
    out
}

fn clone_statements(v: &Vec<Statement>) -> (res: Vec<Statement>)
    ensures
        statements_view(res@) == statements_view(v@),
    decreases v,
{
    let mut out: Vec<Statement> = Vec::new();
    let mut k: usize = 0;
    while k < v.len()
        invariant
            k <= v.len(),
            out@.len() == k,
            forall|j: int|
                0 <= j < k ==> statement_view(#[trigger] out@[j]) == statement_view(v@[j]),
        decreases v.len() - k,
    {
        let item = v[k].clone();
        out.push(item);
        k = k + 1;
    }
    assert(statements_view(out@) =~= statements_view(v@));
    out
}

fn clone_strings(v: &Vec<String>) -> (res: Vec<String>)
    ensures
        strings_view(res@) == strings_view(v@),
    decreases v,
{
    let mut out: Vec<String> = Vec::new();
    let mut k: usize = 0;
    while k < v.len()
        invariant
            k <= v.len(),
            out@.len() == k,
            forall|j: int|
                0 <= j < k ==> (#[trigger] out@[j]@) == (v@[j]@),
        decreases v.len() - k,
    {
        let item = v[k].clone();
        out.push(item);
        k = k + 1;
    }
    assert(strings_view(out@) =~= strings_view(v@));
    out
}

fn clone_with_items(v: &Vec<WithItem>) -> (res: Vec<WithItem>)
    ensures
        with_items_view(res@) == with_items_view(v@),
    decreases v,
{
    let mut out: Vec<WithItem> = Vec::new();
    let mut k: usize = 0;
    while k < v.len()
        invariant
            k <= v.len(),
            out@.len() == k,
            forall|j: int|
                0 <= j < k ==> with_item_view(#[trigger] out@[j]) == with_item_view(v@[j]),
        decreases v.len() - k,
    {
        let item = v[k].clone();
        out.push(item);
        k = k + 1;
    }
    assert(with_items_view(out@) =~= with_items_view(v@));
    out
}

impl Clone for Module {
    fn clone(&self) -> (res: Self)
        ensures
            res@ == self@,
        decreases self,
    {
        Module {
            node: self.node,
            body: clone_statements(&self.body),
        }
    }
}

impl Clone for Statement {
    fn clone(&self) -> (res: Self)
        ensures
            res@ == self@,
        decreases self,
    {
        match self {
            Statement::AssignStatement(a) => Statement::AssignStatement(a.clone()),
            Statement::AnnAssignStatement(a) => Statement::AnnAssignStatement(a.clone()),
            Statement::AugAssignStatement(a) => Statement::AugAssignStatement(a.clone()),
            Statement::ExpressionStatement(a) => Statement::ExpressionStatement(a.clone()),
            Statement::Assert(a) => Statement::Assert(a.clone()),
            Statement::Pass(a) => Statement::Pass(a.clone()),
            Statement::Delete(a) => Statement::Delete(a.clone()),
            Statement::Return(a) => Statement::Return(a.clone()),
            Statement::Raise(a) => Statement::Raise(a.clone()),
            Statement::Break(a) => Statement::Break(a.clone()),
            Statement::Continue(a) => Statement::Continue(a.clone()),
            Statement::Import(a) => Statement::Import(a.clone()),
            Statement::ImportFrom(a) => Statement::ImportFrom(a.clone()),
            Statement::Global(a) => Statement::Global(a.clone()),
            Statement::Nonlocal(a) => Statement::Nonlocal(a.clone()),
            Statement::IfStatement(a) => Statement::IfStatement(a.clone()),
            Statement::WhileStatement(a) => Statement::WhileStatement(a.clone()),
            Statement::ForStatement(a) => Statement::ForStatement(a.clone()),
            Statement::WithStatement(a) => Statement::WithStatement(a.clone()),
            Statement::TryStatement(a) => Statement::TryStatement(a.clone()),
            Statement::TryStarStatement(a) => Statement::TryStarStatement(a.clone()),
            Statement::FunctionDef(a) => Statement::FunctionDef(a.clone()),
            Statement::ClassDef(a) => Statement::ClassDef(a.clone()),
            Statement::Match(a) => Statement::Match(a.clone()),
        }
    }
}

impl Clone for Assign {
    fn clone(&self) -> (res: Self)
        ensures
            res@ == self@,
        decreases self,
    {
        Assign {
            node: self.node,
            targets: clone_expressions(&self.targets),
            value: self.value.clone(),
        }
    }
}

impl Clone for AnnAssign {
    fn clone(&self) -> (res: Self)
        ensures
            res@ == self@,
        decreases self,
    {
        AnnAssign {
            node: self.node,
            target: self.target.clone(),
            annotation: self.annotation.clone(),
            value: match &self.value {
                Some(inner) => Some(inner.clone()),
                None => None,
            },
            simple: self.simple,
        }
    }
}

impl Clone for AugAssign {
    fn clone(&self) -> (res: Self)
        ensures
            res@ == self@,
        decreases self,
    {
        AugAssign {
            node: self.node,
            target: self.target.clone(),
            op: self.op,
            value: self.value.clone(),
        }
    }
}

impl Clone for Assert {
    fn clone(&self) -> (res: Self)
        ensures
            res@ == self@,
        decreases self,
    {
        Assert {
            node: self.node,
            test: self.test.clone(),
            msg: match &self.msg {
                Some(inner) => Some(inner.clone()),
                None => None,
            },
        }
    }
}

impl Clone for Pass {
    fn clone(&self) -> (res: Self)
        ensures
            res@ == self@,
        decreases self,
    {
        Pass {
            node: self.node,
        }
    }
}

impl Clone for Delete {
    fn clone(&self) -> (res: Self)
        ensures
            res@ == self@,
        decreases self,
    {
        Delete {
            node: self.node,
            targets: clone_expressions(&self.targets),
        }
    }
}

impl Clone for Return {
    fn clone(&self) -> (res: Self)
        ensures
            res@ == self@,
        decreases self,
    {
        Return {
            node: self.node,
            value: match &self.value {
                Some(inner) => Some(inner.clone()),
                None => None,
            },
        }
    }
}

impl Clone for Raise {
    fn clone(&self) -> (res: Self)
        ensures
            res@ == self@,
        decreases self,
    {
        Raise {
            node: self.node,
            exc: match &self.exc {
                Some(inner) => Some(inner.clone()),
                None => None,
            },
            cause: match &self.cause {
                Some(inner) => Some(inner.clone()),
                None => None,
            },
        }
    }
}

impl Clone for Break {
    fn clone(&self) -> (res: Self)
        ensures
            res@ == self@,
        decreases self,
    {
        Break {
            node: self.node,
        }
    }
}

impl Clone for Continue {
    fn clone(&self) -> (res: Self)
        ensures
            res@ == self@,
        decreases self,
    {
        Continue {
            node: self.node,
        }
    }
}

impl Clone for Import {
    fn clone(&self) -> (res: Self)
        ensures
            res@ == self@,
        decreases self,
    {
        Import {
            node: self.node,
            names: clone_aliases(&self.names),
        }
    }
}

impl Clone for Alias {
    fn clone(&self) -> (res: Self)
        ensures
            res@ == self@,
        decreases self,
    {
        Alias {
            node: self.node,
            name: self.name.clone(),
            asname: match &self.asname {
                Some(inner) => Some(inner.clone()),
                None => None,
            },
        }
    }
}

impl Clone for ImportFrom {
    fn clone(&self) -> (res: Self)
        ensures
            res@ == self@,
        decreases self,
    {
        ImportFrom {
            node: self.node,
            module: self.module.clone(),
            names: clone_aliases(&self.names),
            level: self.level,
        }
    }
}

impl Clone for Global {
    fn clone(&self) -> (res: Self)
        ensures
            res@ == self@,
        decreases self,
    {
        Global {
            node: self.node,
            names: clone_strings(&self.names),
        }
    }
}

impl Clone for Nonlocal {
    fn clone(&self) -> (res: Self)
        ensures
            res@ == self@,
        decreases self,
    {
        Nonlocal {
            node: self.node,
            names: clone_strings(&self.names),
        }
    }
}

impl Clone for Expression {
    fn clone(&self) -> (res: Self)
        ensures
            res@ == self@,
        decreases self,
    {
        match self {
            Expression::Constant(a) => Expression::Constant(Box::new((**a).clone())),
            Expression::List(a) => Expression::List(Box::new((**a).clone())),
            Expression::Tuple(a) => Expression::Tuple(Box::new((**a).clone())),
            Expression::Dict(a) => Expression::Dict(Box::new((**a).clone())),
            Expression::SetExpr(a) => Expression::SetExpr(Box::new((**a).clone())),
            Expression::Name(a) => Expression::Name(Box::new((**a).clone())),
            Expression::BoolOp(a) => Expression::BoolOp(Box::new((**a).clone())),
            Expression::UnaryOp(a) => Expression::UnaryOp(Box::new((**a).clone())),
            Expression::BinOp(a) => Expression::BinOp(Box::new((**a).clone())),
            Expression::NamedExpr(a) => Expression::NamedExpr(Box::new((**a).clone())),
            Expression::Yield(a) => Expression::Yield(Box::new((**a).clone())),
            Expression::YieldFrom(a) => Expression::YieldFrom(Box::new((**a).clone())),
            Expression::Starred(a) => Expression::Starred(Box::new((**a).clone())),
            Expression::Generator(a) => Expression::Generator(Box::new((**a).clone())),
            Expression::ListComp(a) => Expression::ListComp(Box::new((**a).clone())),
            Expression::SetComp(a) => Expression::SetComp(Box::new((**a).clone())),
            Expression::DictComp(a) => Expression::DictComp(Box::new((**a).clone())),
            Expression::Attribute(a) => Expression::Attribute(Box::new((**a).clone())),
            Expression::Subscript(a) => Expression::Subscript(Box::new((**a).clone())),
            Expression::Slice(a) => Expression::Slice(Box::new((**a).clone())),
            Expression::Call(a) => Expression::Call(Box::new((**a).clone())),
            Expression::Await(a) => Expression::Await(Box::new((**a).clone())),
            Expression::Compare(a) => Expression::Compare(Box::new((**a).clone())),
            Expression::Lambda(a) => Expression::Lambda(Box::new((**a).clone())),
            Expression::IfExp(a) => Expression::IfExp(Box::new((**a).clone())),
            Expression::JoinedStr(a) => Expression::JoinedStr(Box::new((**a).clone())),
            Expression::FormattedValue(a) => Expression::FormattedValue(Box::new((**a).clone())),
        }
    }
}

impl Clone for Name {
    fn clone(&self) -> (res: Self)
        ensures
            res@ == self@,
        decreases self,
    {
        Name {
            node: self.node,
            id: self.id.clone(),
        }
    }
}

impl Clone for Constant {
    fn clone(&self) -> (res: Self)
        ensures
            res@ == self@,
        decreases self,
    {
        Constant {
            node: self.node,
            value: self.value.clone(),
        }
    }
}

impl Clone for ConstantValue {
    fn clone(&self) -> (res: Self)
        ensures
            res@ == self@,
        decreases self,
    {
        match self {
            ConstantValue::NoneValue => ConstantValue::NoneValue,
            ConstantValue::Bool(a) => ConstantValue::Bool(*a),
            ConstantValue::Str(a) => ConstantValue::Str(a.clone()),
            ConstantValue::Bytes(a) => ConstantValue::Bytes(clone_bytes(a)),
            ConstantValue::Tuple(a) => ConstantValue::Tuple(clone_constants(a)),
            ConstantValue::Int(a) => ConstantValue::Int(a.clone()),
            ConstantValue::Float(a) => ConstantValue::Float(a.clone()),
            ConstantValue::Complex { real: part0, imaginary: part1 } => ConstantValue::Complex {
                real: part0.clone(),
                imaginary: part1.clone(),
            },
        }
    }
}

impl Clone for List {
    fn clone(&self) -> (res: Self)
        ensures
            res@ == self@,
        decreases self,
    {
        List {
            node: self.node,
            elements: clone_expressions(&self.elements),
        }
    }
}

impl Clone for Tuple {
    fn clone(&self) -> (res: Self)
        ensures
            res@ == self@,
        decreases self,
    {
        Tuple {
            node: self.node,
            elements: clone_expressions(&self.elements),
        }
    }
}

impl Clone for Dict {
    fn clone(&self) -> (res: Self)
        ensures
            res@ == self@,
        decreases self,
    {
        Dict {
            node: self.node,
            keys: clone_expressions(&self.keys),
            values: clone_expressions(&self.values),
        }
    }
}

impl Clone for SetExpr {
    fn clone(&self) -> (res: Self)
        ensures
            res@ == self@,
        decreases self,
    {
        SetExpr {
            node: self.node,
            elements: clone_expressions(&self.elements),
        }
    }
}

impl Clone for BoolOperation {
    fn clone(&self) -> (res: Self)
        ensures
            res@ == self@,
        decreases self,
    {
        BoolOperation {
            node: self.node,
            op: self.op,
            values: clone_expressions(&self.values),
        }
    }
}

impl Clone for UnaryOperation {
    fn clone(&self) -> (res: Self)
        ensures
            res@ == self@,
        decreases self,
    {
        UnaryOperation {
            node: self.node,
            op: self.op,
            operand: Box::new((*self.operand).clone()),
        }
    }
}

impl Clone for BinOp {
    fn clone(&self) -> (res: Self)
        ensures
            res@ == self@,
        decreases self,
    {
        BinOp {
            node: self.node,
            op: self.op,
            left: Box::new((*self.left).clone()),
            right: Box::new((*self.right).clone()),
        }
    }
}

impl Clone for NamedExpression {
    fn clone(&self) -> (res: Self)
        ensures
            res@ == self@,
        decreases self,
    {
        NamedExpression {
            node: self.node,
            target: Box::new((*self.target).clone()),
            value: Box::new((*self.value).clone()),
        }
    }
}

impl Clone for Yield {
    fn clone(&self) -> (res: Self)
        ensures
            res@ == self@,
        decreases self,
    {
        Yield {
            node: self.node,
            value: match &self.value {
                Some(inner) => Some(Box::new((**inner).clone())),
                None => None,
            },
        }
    }
}

impl Clone for YieldFrom {
    fn clone(&self) -> (res: Self)
        ensures
            res@ == self@,
        decreases self,
    {
        YieldFrom {
            node: self.node,
            value: Box::new((*self.value).clone()),
        }
    }
}

impl Clone for Starred {
    fn clone(&self) -> (res: Self)
        ensures
            res@ == self@,
        decreases self,
    {
        Starred {
            node: self.node,
            value: Box::new((*self.value).clone()),
        }
    }
}

impl Clone for Generator {
    fn clone(&self) -> (res: Self)
        ensures
            res@ == self@,
        decreases self,
    {
        Generator {
            node: self.node,
            element: Box::new((*self.element).clone()),
            generators: clone_comprehensions(&self.generators),
        }
    }
}

impl Clone for ListComp {
    fn clone(&self) -> (res: Self)
        ensures
            res@ == self@,
        decreases self,
    {
        ListComp {
            node: self.node,
            element: Box::new((*self.element).clone()),
            generators: clone_comprehensions(&self.generators),
        }
    }
}

impl Clone for SetComp {
    fn clone(&self) -> (res: Self)
        ensures
            res@ == self@,
        decreases self,
    {
        SetComp {
            node: self.node,
            element: Box::new((*self.element).clone()),
            generators: clone_comprehensions(&self.generators),
        }
    }
}

impl Clone for DictComp {
    fn clone(&self) -> (res: Self)
        ensures
            res@ == self@,
        decreases self,
    {
        DictComp {
            node: self.node,
            key: Box::new((*self.key).clone()),
            value: Box::new((*self.value).clone()),
            generators: clone_comprehensions(&self.generators),
        }
    }
}

impl Clone for Comprehension {
    fn clone(&self) -> (res: Self)
        ensures
            res@ == self@,
        decreases self,
    {
        Comprehension {
            node: self.node,
            target: Box::new((*self.target).clone()),
            iter: Box::new((*self.iter).clone()),
            ifs: clone_expressions(&self.ifs),
            is_async: self.is_async,
        }
    }
}

impl Clone for Attribute {
    fn clone(&self) -> (res: Self)
        ensures
            res@ == self@,
        decreases self,
    {
        Attribute {
            node: self.node,
            value: Box::new((*self.value).clone()),
            attr: self.attr.clone(),
        }
    }
}

impl Clone for Subscript {
    fn clone(&self) -> (res: Self)
        ensures
            res@ == self@,
        decreases self,
    {
        Subscript {
            node: self.node,
            value: Box::new((*self.value).clone()),
            slice: Box::new((*self.slice).clone()),
        }
    }
}

impl Clone for Slice {
    fn clone(&self) -> (res: Self)
        ensures
            res@ == self@,
        decreases self,
    {
        Slice {
            node: self.node,
            lower: match &self.lower {
                Some(inner) => Some(Box::new((**inner).clone())),
                None => None,
            },
            upper: match &self.upper {
                Some(inner) => Some(Box::new((**inner).clone())),
                None => None,
            },
            step: match &self.step {
                Some(inner) => Some(Box::new((**inner).clone())),
                None => None,
            },
        }
    }
}

impl Clone for Call {
    fn clone(&self) -> (res: Self)
        ensures
            res@ == self@,
        decreases self,
    {
        Call {
            node: self.node,
            func: Box::new((*self.func).clone()),
            args: clone_expressions(&self.args),
            keywords: clone_keywords(&self.keywords),
            starargs: match &self.starargs {
                Some(inner) => Some(Box::new((**inner).clone())),
                None => None,
            },
            kwargs: match &self.kwargs {
                Some(inner) => Some(Box::new((**inner).clone())),
                None => None,
            },
        }
    }
}

impl Clone for Keyword {
    fn clone(&self) -> (res: Self)
        ensures
            res@ == self@,
        decreases self,
    {
        Keyword {
            node: self.node,
            arg: match &self.arg {
                Some(inner) => Some(inner.clone()),
                None => None,
            },
            value: Box::new((*self.value).clone()),
        }
    }
}

impl Clone for Await {
    fn clone(&self) -> (res: Self)
        ensures
            res@ == self@,
        decreases self,
    {
        Await {
            node: self.node,
            value: Box::new((*self.value).clone()),
        }
    }
}

impl Clone for Compare {
    fn clone(&self) -> (res: Self)
        ensures
            res@ == self@,
        decreases self,
    {
        Compare {
            node: self.node,
            left: Box::new((*self.left).clone()),
            ops: clone_comparison_operators(&self.ops),
            comparators: clone_expressions(&self.comparators),
        }
    }
}

impl Clone for Lambda {
    fn clone(&self) -> (res: Self)
        ensures
            res@ == self@,
        decreases self,
    {
        Lambda {
            node: self.node,
            args: self.args.clone(),
            body: Box::new((*self.body).clone()),
        }
    }
}

impl Clone for Arguments {
    fn clone(&self) -> (res: Self)
        ensures
            res@ == self@,
        decreases self,
    {
        Arguments {
            node: self.node,
            posonlyargs: clone_args(&self.posonlyargs),
            args: clone_args(&self.args),
            vararg: match &self.vararg {
                Some(inner) => Some(inner.clone()),
                None => None,
            },
            kwonlyargs: clone_args(&self.kwonlyargs),
            kw_defaults: clone_optional_expressions(&self.kw_defaults),
            kwarg: match &self.kwarg {
                Some(inner) => Some(inner.clone()),
                None => None,
            },
            defaults: clone_expressions(&self.defaults),
        }
    }
}

impl Clone for Arg {
    fn clone(&self) -> (res: Self)
        ensures
            res@ == self@,
        decreases self,
    {
        Arg {
            node: self.node,
            arg: self.arg.clone(),
            annotation: match &self.annotation {
                Some(inner) => Some(inner.clone()),
                None => None,
            },
        }
    }
}

impl Clone for IfExp {
    fn clone(&self) -> (res: Self)
        ensures
            res@ == self@,
        decreases self,
    {
        IfExp {
            node: self.node,
            test: Box::new((*self.test).clone()),
            body: Box::new((*self.body).clone()),
            orelse: Box::new((*self.orelse).clone()),
        }
    }
}

impl Clone for FormattedValue {
    fn clone(&self) -> (res: Self)
        ensures
            res@ == self@,
        decreases self,
    {
        FormattedValue {
            node: self.node,
            value: Box::new((*self.value).clone()),
            conversion: match &self.conversion {
                Some(inner) => Some(*inner),
                None => None,
            },
            format_spec: match &self.format_spec {
                Some(inner) => Some(Box::new((**inner).clone())),
                None => None,
            },
        }
    }
}

impl Clone for JoinedStr {
    fn clone(&self) -> (res: Self)
        ensures
            res@ == self@,
        decreases self,
    {
        JoinedStr {
            node: self.node,
            values: clone_expressions(&self.values),
        }
    }
}

impl Clone for If {
    fn clone(&self) -> (res: Self)
        ensures
            res@ == self@,
        decreases self,
    {
        If {
            node: self.node,
            test: Box::new((*self.test).clone()),
            body: clone_statements(&self.body),
            orelse: clone_statements(&self.orelse),
        }
    }
}

impl Clone for While {
    fn clone(&self) -> (res: Self)
        ensures
            res@ == self@,
        decreases self,
    {
        While {
            node: self.node,
            test: Box::new((*self.test).clone()),
            body: clone_statements(&self.body),
            orelse: clone_statements(&self.orelse),
        }
    }
}

impl Clone for For {
    fn clone(&self) -> (res: Self)
        ensures
            res@ == self@,
        decreases self,
    {
        For {
            node: self.node,
            target: Box::new((*self.target).clone()),
            iter: Box::new((*self.iter).clone()),
            body: clone_statements(&self.body),
            orelse: clone_statements(&self.orelse),
        }
    }
}

impl Clone for With {
    fn clone(&self) -> (res: Self)
        ensures
            res@ == self@,
        decreases self,
    {
        With {
            node: self.node,
            items: clone_with_items(&self.items),
            body: clone_statements(&self.body),
        }
    }
}

impl Clone for WithItem {
    fn clone(&self) -> (res: Self)
        ensures
            res@ == self@,
        decreases self,
    {
        WithItem {
            node: self.node,
            context_expr: Box::new((*self.context_expr).clone()),
            optional_vars: match &self.optional_vars {
                Some(inner) => Some(Box::new((**inner).clone())),
                None => None,
            },
        }
    }
}

impl Clone for Try {
    fn clone(&self) -> (res: Self)
        ensures
            res@ == self@,
        decreases self,
    {
        Try {
            node: self.node,
            body: clone_statements(&self.body),
            handlers: clone_except_handlers(&self.handlers),
            orelse: clone_statements(&self.orelse),
            finalbody: clone_statements(&self.finalbody),
        }
    }
}

impl Clone for TryStar {
    fn clone(&self) -> (res: Self)
        ensures
            res@ == self@,
        decreases self,
    {
        TryStar {
            node: self.node,
            body: clone_statements(&self.body),
            handlers: clone_except_handlers(&self.handlers),
            orelse: clone_statements(&self.orelse),
            finalbody: clone_statements(&self.finalbody),
        }
    }
}

impl Clone for ExceptHandler {
    fn clone(&self) -> (res: Self)
        ensures
            res@ == self@,
        decreases self,
    {
        ExceptHandler {
            node: self.node,
            typ: match &self.typ {
                Some(inner) => Some(Box::new((**inner).clone())),
                None => None,
            },
            name: match &self.name {
                Some(inner) => Some(inner.clone()),
                None => None,
            },
            body: clone_statements(&self.body),
        }
    }
}

impl Clone for FunctionDef {
    fn clone(&self) -> (res: Self)
        ensures
            res@ == self@,
        decreases self,
    {
        FunctionDef {
            node: self.node,
            name: self.name.clone(),
            args: self.args.clone(),
            body: clone_statements(&self.body),
            decorator_list: clone_expressions(&self.decorator_list),
            returns: match &self.returns {
                Some(inner) => Some(Box::new((**inner).clone())),
                None => None,
            },
            type_comment: match &self.type_comment {
                Some(inner) => Some(inner.clone()),
                None => None,
            },
        }
    }
}

impl Clone for ClassDef {
    fn clone(&self) -> (res: Self)
        ensures
            res@ == self@,
        decreases self,
    {
        ClassDef {
            node: self.node,
            name: self.name.clone(),
            bases: clone_expressions(&self.bases),
            keywords: clone_keywords(&self.keywords),
            body: clone_statements(&self.body),
            decorator_list: clone_expressions(&self.decorator_list),
        }
    }
}

impl Clone for Match {
    fn clone(&self) -> (res: Self)
        ensures
            res@ == self@,
        decreases self,
    {
        Match {
            node: self.node,
            subject: Box::new((*self.subject).clone()),
            cases: clone_match_cases(&self.cases),
        }
    }
}

impl Clone for MatchCase {
    fn clone(&self) -> (res: Self)
        ensures
            res@ == self@,
        decreases self,
    {
        MatchCase {
            node: self.node,
            pattern: Box::new((*self.pattern).clone()),
            guard: match &self.guard {
                Some(inner) => Some(Box::new((**inner).clone())),
                None => None,
            },
            body: clone_statements(&self.body),
        }
    }
}

impl Clone for MatchPattern {
    fn clone(&self) -> (res: Self)
        ensures
            res@ == self@,
        decreases self,
    {
        match self {
            MatchPattern::MatchValue(a) => MatchPattern::MatchValue(a.clone()),
            MatchPattern::MatchSingleton(a) => MatchPattern::MatchSingleton(Box::new((**a).clone())),
            MatchPattern::MatchSequence(a) => MatchPattern::MatchSequence(clone_match_patterns(a)),
            MatchPattern::MatchStar(a) => MatchPattern::MatchStar(Box::new((**a).clone())),
            MatchPattern::MatchMapping(a) => MatchPattern::MatchMapping(a.clone()),
            MatchPattern::MatchAs(a) => MatchPattern::MatchAs(a.clone()),
            MatchPattern::MatchClass(a) => MatchPattern::MatchClass(a.clone()),
            MatchPattern::MatchOr(a) => MatchPattern::MatchOr(clone_match_patterns(a)),
        }
    }
}

impl Clone for MatchValue {
    fn clone(&self) -> (res: Self)
        ensures
            res@ == self@,
        decreases self,
    {
        MatchValue {
            node: self.node,
            value: Box::new((*self.value).clone()),
        }
    }
}

impl Clone for MatchAs {
    fn clone(&self) -> (res: Self)
        ensures
            res@ == self@,
        decreases self,
    {
        MatchAs {
            node: self.node,
            name: match &self.name {
                Some(inner) => Some(inner.clone()),
                None => None,
            },
            pattern: match &self.pattern {
                Some(inner) => Some(Box::new((**inner).clone())),
                None => None,
            },
        }
    }
}

impl Clone for MatchMapping {
    fn clone(&self) -> (res: Self)
        ensures
            res@ == self@,
        decreases self,
    {
        MatchMapping {
            node: self.node,
            keys: clone_expressions(&self.keys),
            patterns: clone_match_patterns(&self.patterns),
            rest: match &self.rest {
                Some(inner) => Some(inner.clone()),
                None => None,
            },
        }
    }
}

impl Clone for MatchClass {
    fn clone(&self) -> (res: Self)
        ensures
            res@ == self@,
        decreases self,
    {
        MatchClass {
            node: self.node,
            cls: Box::new((*self.cls).clone()),
            patterns: clone_match_patterns(&self.patterns),
            kwd_attrs: clone_strings(&self.kwd_attrs),
            kwd_patterns: clone_match_patterns(&self.kwd_patterns),
        }
    }
}

} // verus!
