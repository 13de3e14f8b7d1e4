use enderpy::ast::{
    Alias, AnnAssign, Arguments, Assert, Assign, Attribute, AugAssign, Await, BinOp, BoolOperation,
    Break, Call, ClassDef, Compare, Constant, Continue, Delete, Dict, DictComp, ExceptHandler,
    Expression, For, FormattedValue, FunctionDef, Generator, Global, If, IfExp, Import, ImportFrom,
    JoinedStr, Lambda, List, ListComp, Match, MatchAs, MatchCase, MatchPattern, Name,
    NamedExpression, Node, Nonlocal, Pass, Raise, Return, SetComp, SetExpr, Slice, Starred,
    Statement, Subscript, Try, TryStar, Tuple, UnaryOperation, While, With, WithItem, Yield,
    YieldFrom,
};
use enderpy::ast_view::{ExpressionView, StatementView};
use enderpy::ast_kind::StatementKind;
use enderpy::ast_visitor::{Construct, Step, TraversalVisitor, Unsupported};

/// Counts the statements and expressions it is handed, inherits the
/// structural defaults, and stops at a `pass` once it has counted `limit`
/// statements.
struct Counter {
    statements: usize,
    expressions: usize,
    limit: usize,
}

impl TraversalVisitor for Counter {
    type Model = ();

    // The three items of the model are used in contracts only and are never
    // called when the program runs.
    fn model(&self) {
    }

    fn stmt_step(_m: (), _s: StatementView) -> Step<()> {
        unreachable!()
    }

    fn expr_step(_m: (), _e: ExpressionView) -> Step<()> {
        unreachable!()
    }

    fn visit_stmt(&mut self, s: &Statement) -> Result<(), Unsupported> {
        self.statements += 1;
        match s {
            Statement::AssignStatement(x) => self.visit_assign(x),
            Statement::AnnAssignStatement(x) => self.visit_ann_assign(x),
            Statement::AugAssignStatement(x) => self.visit_aug_assign(x),
            Statement::ExpressionStatement(e) => self.visit_expr(e),
            Statement::Assert(x) => self.visit_assert(x),
            Statement::Pass(x) => self.visit_pass(x),
            Statement::Delete(x) => self.visit_delete(x),
            Statement::Return(x) => self.visit_return(x),
            Statement::Raise(x) => self.visit_raise(x),
            Statement::Break(x) => self.visit_break(x),
            Statement::Continue(x) => self.visit_continue(x),
            Statement::Import(x) => self.visit_import(x),
            Statement::ImportFrom(x) => self.visit_import_from(x),
            Statement::Global(x) => self.visit_global(x),
            Statement::Nonlocal(x) => self.visit_nonlocal(x),
            Statement::IfStatement(x) => self.visit_if(x),
            Statement::WhileStatement(x) => self.visit_while(x),
            Statement::ForStatement(x) => self.visit_for(x),
            Statement::WithStatement(x) => self.visit_with(x),
            Statement::TryStatement(x) => self.visit_try(x),
            Statement::TryStarStatement(x) => self.visit_try_star(x),
            Statement::FunctionDef(x) => self.visit_function_def(x),
            Statement::ClassDef(x) => self.visit_class_def(x),
            Statement::Match(x) => self.visit_match(x),
        }
    }

    fn visit_expr(&mut self, _e: &Expression) -> Result<(), Unsupported> {
        self.expressions += 1;
        Ok(())
    }

    fn visit_pass(&mut self, p: &Pass) -> Result<(), Unsupported> {
        if self.statements >= self.limit {
            return Err(Unsupported { construct: Construct::Statement(StatementKind::Pass), node: p.node });
        }
        Ok(())
    }

    fn visit_import(&mut self, _x: &Import) -> Result<(), Unsupported> {
        Ok(())
    }

    fn visit_import_from(&mut self, _x: &ImportFrom) -> Result<(), Unsupported> {
        Ok(())
    }

    fn visit_assign(&mut self, _x: &Assign) -> Result<(), Unsupported> {
        Ok(())
    }

    fn visit_ann_assign(&mut self, _x: &AnnAssign) -> Result<(), Unsupported> {
        Ok(())
    }

    fn visit_aug_assign(&mut self, _x: &AugAssign) -> Result<(), Unsupported> {
        Ok(())
    }

    fn visit_assert(&mut self, _x: &Assert) -> Result<(), Unsupported> {
        Ok(())
    }

    fn visit_delete(&mut self, _x: &Delete) -> Result<(), Unsupported> {
        Ok(())
    }

    fn visit_return(&mut self, _x: &Return) -> Result<(), Unsupported> {
        Ok(())
    }

    fn visit_raise(&mut self, _x: &Raise) -> Result<(), Unsupported> {
        Ok(())
    }

    fn visit_break(&mut self, _x: &Break) -> Result<(), Unsupported> {
        Ok(())
    }

    fn visit_continue(&mut self, _x: &Continue) -> Result<(), Unsupported> {
        Ok(())
    }

    fn visit_global(&mut self, _x: &Global) -> Result<(), Unsupported> {
        Ok(())
    }

    fn visit_nonlocal(&mut self, _x: &Nonlocal) -> Result<(), Unsupported> {
        Ok(())
    }

    fn visit_constant(&mut self, _x: &Constant) -> Result<(), Unsupported> {
        Ok(())
    }

    fn visit_list(&mut self, _x: &List) -> Result<(), Unsupported> {
        Ok(())
    }

    fn visit_tuple(&mut self, _x: &Tuple) -> Result<(), Unsupported> {
        Ok(())
    }

    fn visit_dict(&mut self, _x: &Dict) -> Result<(), Unsupported> {
        Ok(())
    }

    fn visit_set(&mut self, _x: &SetExpr) -> Result<(), Unsupported> {
        Ok(())
    }

    fn visit_name(&mut self, _x: &Name) -> Result<(), Unsupported> {
        Ok(())
    }

    fn visit_bool_op(&mut self, _x: &BoolOperation) -> Result<(), Unsupported> {
        Ok(())
    }

    fn visit_unary_op(&mut self, _x: &UnaryOperation) -> Result<(), Unsupported> {
        Ok(())
    }

    fn visit_bin_op(&mut self, _x: &BinOp) -> Result<(), Unsupported> {
        Ok(())
    }

    fn visit_named_expr(&mut self, _x: &NamedExpression) -> Result<(), Unsupported> {
        Ok(())
    }

    fn visit_yield(&mut self, _x: &Yield) -> Result<(), Unsupported> {
        Ok(())
    }

    fn visit_yield_from(&mut self, _x: &YieldFrom) -> Result<(), Unsupported> {
        Ok(())
    }

    fn visit_starred(&mut self, _x: &Starred) -> Result<(), Unsupported> {
        Ok(())
    }

    fn visit_generator(&mut self, _x: &Generator) -> Result<(), Unsupported> {
        Ok(())
    }

    fn visit_list_comp(&mut self, _x: &ListComp) -> Result<(), Unsupported> {
        Ok(())
    }

    fn visit_set_comp(&mut self, _x: &SetComp) -> Result<(), Unsupported> {
        Ok(())
    }

    fn visit_dict_comp(&mut self, _x: &DictComp) -> Result<(), Unsupported> {
        Ok(())
    }

    fn visit_attribute(&mut self, _x: &Attribute) -> Result<(), Unsupported> {
        Ok(())
    }

    fn visit_subscript(&mut self, _x: &Subscript) -> Result<(), Unsupported> {
        Ok(())
    }

    fn visit_slice(&mut self, _x: &Slice) -> Result<(), Unsupported> {
        Ok(())
    }

    fn visit_call(&mut self, _x: &Call) -> Result<(), Unsupported> {
        Ok(())
    }

    fn visit_await(&mut self, _x: &Await) -> Result<(), Unsupported> {
        Ok(())
    }

    fn visit_compare(&mut self, _x: &Compare) -> Result<(), Unsupported> {
        Ok(())
    }

    fn visit_lambda(&mut self, _x: &Lambda) -> Result<(), Unsupported> {
        Ok(())
    }

    fn visit_if_exp(&mut self, _x: &IfExp) -> Result<(), Unsupported> {
        Ok(())
    }

    fn visit_joined_str(&mut self, _x: &JoinedStr) -> Result<(), Unsupported> {
        Ok(())
    }

    fn visit_formatted_value(&mut self, _x: &FormattedValue) -> Result<(), Unsupported> {
        Ok(())
    }

    fn visit_alias(&mut self, _x: &Alias) -> Result<(), Unsupported> {
        Ok(())
    }

}

fn node() -> Node {
    Node::new(0, 0)
}

fn pass() -> Statement {
    Statement::Pass(Pass { node: node() })
}

fn name(id: &str) -> Expression {
    Expression::Name(Box::new(Name { node: node(), id: id.to_string() }))
}

fn if_else(body: Vec<Statement>, orelse: Vec<Statement>) -> Statement {
    Statement::IfStatement(If { node: node(), test: Box::new(name("t")), body, orelse })
}

fn while_else(body: Vec<Statement>, orelse: Vec<Statement>) -> Statement {
    Statement::WhileStatement(While { node: node(), test: Box::new(name("t")), body, orelse })
}

fn for_else(body: Vec<Statement>, orelse: Vec<Statement>) -> Statement {
    Statement::ForStatement(For {
        node: node(),
        target: Box::new(name("i")),
        iter: Box::new(name("it")),
        body,
        orelse,
    })
}

fn handler(body: Vec<Statement>) -> ExceptHandler {
    ExceptHandler { node: node(), typ: Some(Box::new(name("E"))), name: None, body }
}

fn try_all(
    body: Vec<Statement>,
    handlers: Vec<ExceptHandler>,
    orelse: Vec<Statement>,
    finalbody: Vec<Statement>,
) -> Statement {
    Statement::TryStatement(Try { node: node(), body, handlers, orelse, finalbody })
}

fn case(body: Vec<Statement>) -> MatchCase {
    MatchCase {
        node: node(),
        pattern: Box::new(MatchPattern::MatchAs(MatchAs { node: node(), name: None, pattern: None })),
        guard: None,
        body,
    }
}

fn match_of(cases: Vec<MatchCase>) -> Statement {
    Statement::Match(Match { node: node(), subject: Box::new(name("s")), cases })
}

fn def(body: Vec<Statement>) -> Statement {
    Statement::FunctionDef(FunctionDef {
        node: node(),
        name: "f".to_string(),
        args: Arguments {
            node: node(),
            posonlyargs: vec![],
            args: vec![],
            vararg: None,
            kwonlyargs: vec![],
            kw_defaults: vec![],
            kwarg: None,
            defaults: vec![],
        },
        body,
        decorator_list: vec![],
        returns: None,
        type_comment: None,
    })
}

fn count(statement: &Statement) -> (usize, usize) {
    let mut counter = Counter { statements: 0, expressions: 0, limit: usize::MAX };
    assert!(counter.visit_stmt(statement).is_ok());
    (counter.statements, counter.expressions)
}

#[test]
fn counting_visitor_counts_a_leaf_once() {
    assert_eq!(count(&pass()), (1, 0));
}

#[test]
fn counting_visitor_counts_nested_if() {
    let inner = if_else(vec![pass(), pass()], vec![pass()]);
    let outer = if_else(vec![inner, pass()], vec![]);
    assert_eq!(count(&outer), (6, 0));
}

#[test]
fn counting_visitor_counts_while_and_for_with_their_else_branches() {
    assert_eq!(count(&while_else(vec![pass(), pass()], vec![pass()])), (4, 0));
    assert_eq!(count(&for_else(vec![pass()], vec![pass(), pass(), pass()])), (5, 0));
    assert_eq!(count(&while_else(vec![for_else(vec![pass()], vec![])], vec![])), (3, 0));
}

#[test]
fn counting_visitor_counts_every_part_of_a_try() {
    let statement = try_all(
        vec![pass(), pass()],
        vec![handler(vec![pass()]), handler(vec![]), handler(vec![pass(), pass()])],
        vec![pass()],
        vec![pass(), if_else(vec![pass()], vec![])],
    );
    // the try, 2 in the body, 3 in the handlers, 1 in else, 3 in finally
    assert_eq!(count(&statement), (10, 0));
    let star = Statement::TryStarStatement(TryStar {
        node: node(),
        body: vec![pass()],
        handlers: vec![handler(vec![pass()])],
        orelse: vec![],
        finalbody: vec![pass()],
    });
    assert_eq!(count(&star), (4, 0));
}

#[test]
fn counting_visitor_counts_the_bodies_of_all_cases() {
    let statement = match_of(vec![case(vec![pass()]), case(vec![]), case(vec![pass(), match_of(vec![])])]);
    // the match, a pass, a pass and the inner match
    assert_eq!(count(&statement), (4, 0));
}

#[test]
fn counting_visitor_counts_function_and_class_bodies() {
    let class = Statement::ClassDef(ClassDef {
        node: node(),
        name: "C".to_string(),
        bases: vec![name("B")],
        keywords: vec![],
        body: vec![def(vec![pass(), pass()]), pass()],
        decorator_list: vec![name("d")],
    });
    assert_eq!(count(&class), (5, 0));
}

#[test]
fn with_hands_the_item_expressions_to_visit_expr() {
    let statement = Statement::WithStatement(With {
        node: node(),
        items: vec![
            WithItem {
                node: node(),
                context_expr: Box::new(name("a")),
                optional_vars: Some(Box::new(name("b"))),
            },
            WithItem { node: node(), context_expr: Box::new(name("c")), optional_vars: None },
        ],
        body: vec![pass(), pass()],
    });
    assert_eq!(count(&statement), (3, 3));
}

#[test]
fn only_with_hands_expressions_on() {
    // tests, targets, bases and subjects are not handed to visit_expr
    assert_eq!(count(&if_else(vec![], vec![])).1, 0);
    assert_eq!(count(&for_else(vec![], vec![])).1, 0);
    assert_eq!(count(&match_of(vec![])).1, 0);
    assert_eq!(count(&try_all(vec![], vec![handler(vec![])], vec![], vec![])).1, 0);
}

#[test]
fn bare_expression_is_dispatched_to_visit_expr() {
    assert_eq!(count(&Statement::ExpressionStatement(name("e"))), (1, 1));
}

#[test]
fn mixed_fixture_has_the_expected_count() {
    let statement = def(vec![
        if_else(
            vec![while_else(vec![pass()], vec![pass()])],
            vec![for_else(vec![try_all(vec![pass()], vec![handler(vec![pass()])], vec![], vec![])], vec![])],
        ),
        match_of(vec![case(vec![pass()])]),
        pass(),
    ]);
    // def, if, while, 2 passes, for, try, 2 passes, match, pass, pass
    assert_eq!(count(&statement), (12, 0));
}

#[test]
fn visit_body_visits_each_statement_in_order() {
    let mut counter = Counter { statements: 0, expressions: 0, limit: usize::MAX };
    assert!(counter.visit_body(&vec![pass(), if_else(vec![pass()], vec![]), pass()]).is_ok());
    assert_eq!(counter.statements, 4);
    assert!(counter.visit_body(&vec![]).is_ok());
    assert_eq!(counter.statements, 4);
}

#[test]
fn a_stop_ends_the_walk_at_once() {
    let statement = if_else(
        vec![pass(), pass(), pass()],
        vec![pass(), pass()],
    );
    // the if itself is the first statement; the limit is reached at the third
    let mut counter = Counter { statements: 0, expressions: 0, limit: 3 };
    let stopped = counter.visit_stmt(&statement);
    assert_eq!(
        stopped,
        Err(Unsupported { construct: Construct::Statement(StatementKind::Pass), node: node() })
    );
    assert_eq!(counter.statements, 3);
}

#[test]
fn a_stop_in_the_body_keeps_the_handlers_unvisited() {
    let statement = try_all(vec![pass(), pass()], vec![handler(vec![pass()])], vec![pass()], vec![pass()]);
    let mut counter = Counter { statements: 0, expressions: 0, limit: 2 };
    assert!(counter.visit_stmt(&statement).is_err());
    assert_eq!(counter.statements, 2);
}
