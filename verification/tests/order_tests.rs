use enderpy::ast::{
    Alias, AnnAssign, Assert, Assign, Attribute, AugAssign, Await, BinOp, BoolOperation, Break,
    Call, ClassDef, Compare, Constant, Continue, Delete, Dict, DictComp, ExceptHandler, Expression,
    For, FormattedValue, FunctionDef, Generator, Global, If, IfExp, Import, ImportFrom, JoinedStr,
    Lambda, List, ListComp, Match, MatchAs, MatchCase, MatchPattern, Name, NamedExpression, Node,
    Nonlocal, Pass, Raise, Return, SetComp, SetExpr, Slice, Starred, Statement, Subscript, Try,
    TryStar, Tuple, UnaryOperation, While, With, WithItem, Yield, YieldFrom,
};
use enderpy::ast_view::{ExpressionView, StatementView};
use enderpy::ast_visitor::{Step, TraversalVisitor, Unsupported};

/// Writes down where each `pass` starts and the identifier of each name it is
/// handed, in the order of the visits, and inherits the structural defaults.
struct Recorder {
    log: Vec<String>,
}

impl TraversalVisitor for Recorder {
    type Model = ();

    // The three items of the model are used in contracts only and are never
    // called when the program runs.
    fn model(&self) {
    }

    fn stmt_step(_m: (), _s: StatementView) -> Step<()> {
        unreachable!()
    }

    fn expr_step(_m: (), _e: ExpressionView) -> Step<()> {
        unreachable!()
    }

    fn visit_stmt(&mut self, s: &Statement) -> Result<(), Unsupported> {
        match s {
            Statement::AssignStatement(x) => self.visit_assign(x),
            Statement::AnnAssignStatement(x) => self.visit_ann_assign(x),
            Statement::AugAssignStatement(x) => self.visit_aug_assign(x),
            Statement::ExpressionStatement(e) => self.visit_expr(e),
            Statement::Assert(x) => self.visit_assert(x),
            Statement::Pass(x) => self.visit_pass(x),
            Statement::Delete(x) => self.visit_delete(x),
            Statement::Return(x) => self.visit_return(x),
            Statement::Raise(x) => self.visit_raise(x),
            Statement::Break(x) => self.visit_break(x),
            Statement::Continue(x) => self.visit_continue(x),
            Statement::Import(x) => self.visit_import(x),
            Statement::ImportFrom(x) => self.visit_import_from(x),
            Statement::Global(x) => self.visit_global(x),
            Statement::Nonlocal(x) => self.visit_nonlocal(x),
            Statement::IfStatement(x) => self.visit_if(x),
            Statement::WhileStatement(x) => self.visit_while(x),
            Statement::ForStatement(x) => self.visit_for(x),
            Statement::WithStatement(x) => self.visit_with(x),
            Statement::TryStatement(x) => self.visit_try(x),
            Statement::TryStarStatement(x) => self.visit_try_star(x),
            Statement::FunctionDef(x) => self.visit_function_def(x),
            Statement::ClassDef(x) => self.visit_class_def(x),
            Statement::Match(x) => self.visit_match(x),
        }
    }

    fn visit_expr(&mut self, e: &Expression) -> Result<(), Unsupported> {
        match e {
            Expression::Name(n) => self.visit_name(n),
            _ => Ok(()),
        }
    }

    fn visit_pass(&mut self, p: &Pass) -> Result<(), Unsupported> {
        self.log.push(format!("pass@{}", p.node.start));
        Ok(())
    }

    fn visit_name(&mut self, n: &Name) -> Result<(), Unsupported> {
        self.log.push(n.id.clone());
        Ok(())
    }

    fn visit_import(&mut self, _x: &Import) -> Result<(), Unsupported> {
        Ok(())
    }

    fn visit_import_from(&mut self, _x: &ImportFrom) -> Result<(), Unsupported> {
        Ok(())
    }

    fn visit_assign(&mut self, _x: &Assign) -> Result<(), Unsupported> {
        Ok(())
    }

    fn visit_ann_assign(&mut self, _x: &AnnAssign) -> Result<(), Unsupported> {
        Ok(())
    }

    fn visit_aug_assign(&mut self, _x: &AugAssign) -> Result<(), Unsupported> {
        Ok(())
    }

    fn visit_assert(&mut self, _x: &Assert) -> Result<(), Unsupported> {
        Ok(())
    }

    fn visit_delete(&mut self, _x: &Delete) -> Result<(), Unsupported> {
        Ok(())
    }

    fn visit_return(&mut self, _x: &Return) -> Result<(), Unsupported> {
        Ok(())
    }

    fn visit_raise(&mut self, _x: &Raise) -> Result<(), Unsupported> {
        Ok(())
    }

    fn visit_break(&mut self, _x: &Break) -> Result<(), Unsupported> {
        Ok(())
    }

    fn visit_continue(&mut self, _x: &Continue) -> Result<(), Unsupported> {
        Ok(())
    }

    fn visit_global(&mut self, _x: &Global) -> Result<(), Unsupported> {
        Ok(())
    }

    fn visit_nonlocal(&mut self, _x: &Nonlocal) -> Result<(), Unsupported> {
        Ok(())
    }

    fn visit_constant(&mut self, _x: &Constant) -> Result<(), Unsupported> {
        Ok(())
    }

    fn visit_list(&mut self, _x: &List) -> Result<(), Unsupported> {
        Ok(())
    }

    fn visit_tuple(&mut self, _x: &Tuple) -> Result<(), Unsupported> {
        Ok(())
    }

    fn visit_dict(&mut self, _x: &Dict) -> Result<(), Unsupported> {
        Ok(())
    }

    fn visit_set(&mut self, _x: &SetExpr) -> Result<(), Unsupported> {
        Ok(())
    }

    fn visit_bool_op(&mut self, _x: &BoolOperation) -> Result<(), Unsupported> {
        Ok(())
    }

    fn visit_unary_op(&mut self, _x: &UnaryOperation) -> Result<(), Unsupported> {
        Ok(())
    }

    fn visit_bin_op(&mut self, _x: &BinOp) -> Result<(), Unsupported> {
        Ok(())
    }

    fn visit_named_expr(&mut self, _x: &NamedExpression) -> Result<(), Unsupported> {
        Ok(())
    }

    fn visit_yield(&mut self, _x: &Yield) -> Result<(), Unsupported> {
        Ok(())
    }

    fn visit_yield_from(&mut self, _x: &YieldFrom) -> Result<(), Unsupported> {
        Ok(())
    }

    fn visit_starred(&mut self, _x: &Starred) -> Result<(), Unsupported> {
        Ok(())
    }

    fn visit_generator(&mut self, _x: &Generator) -> Result<(), Unsupported> {
        Ok(())
    }

    fn visit_list_comp(&mut self, _x: &ListComp) -> Result<(), Unsupported> {
        Ok(())
    }

    fn visit_set_comp(&mut self, _x: &SetComp) -> Result<(), Unsupported> {
        Ok(())
    }

    fn visit_dict_comp(&mut self, _x: &DictComp) -> Result<(), Unsupported> {
        Ok(())
    }

    fn visit_attribute(&mut self, _x: &Attribute) -> Result<(), Unsupported> {
        Ok(())
    }

    fn visit_subscript(&mut self, _x: &Subscript) -> Result<(), Unsupported> {
        Ok(())
    }

    fn visit_slice(&mut self, _x: &Slice) -> Result<(), Unsupported> {
        Ok(())
    }

    fn visit_call(&mut self, _x: &Call) -> Result<(), Unsupported> {
        Ok(())
    }

    fn visit_await(&mut self, _x: &Await) -> Result<(), Unsupported> {
        Ok(())
    }

    fn visit_compare(&mut self, _x: &Compare) -> Result<(), Unsupported> {
        Ok(())
    }

    fn visit_lambda(&mut self, _x: &Lambda) -> Result<(), Unsupported> {
        Ok(())
    }

    fn visit_if_exp(&mut self, _x: &IfExp) -> Result<(), Unsupported> {
        Ok(())
    }

    fn visit_joined_str(&mut self, _x: &JoinedStr) -> Result<(), Unsupported> {
        Ok(())
    }

    fn visit_formatted_value(&mut self, _x: &FormattedValue) -> Result<(), Unsupported> {
        Ok(())
    }

    fn visit_alias(&mut self, _x: &Alias) -> Result<(), Unsupported> {
        Ok(())
    }

}

fn node() -> Node {
    Node::new(0, 0)
}

fn pass(start: usize) -> Statement {
    Statement::Pass(Pass { node: Node::new(start, start + 4) })
}

fn name(id: &str) -> Expression {
    Expression::Name(Box::new(Name { node: node(), id: id.to_string() }))
}

fn handler(body: Vec<Statement>) -> ExceptHandler {
    ExceptHandler { node: node(), typ: Some(Box::new(name("E"))), name: None, body }
}

fn case(body: Vec<Statement>) -> MatchCase {
    MatchCase {
        node: node(),
        pattern: Box::new(MatchPattern::MatchAs(MatchAs { node: node(), name: None, pattern: None })),
        guard: Some(Box::new(name("guard"))),
        body,
    }
}

fn record(statement: &Statement) -> Vec<String> {
    let mut recorder = Recorder { log: vec![] };
    assert!(recorder.visit_stmt(statement).is_ok());
    recorder.log
}

#[test]
fn if_is_walked_body_first() {
    let statement = Statement::IfStatement(If {
        node: node(),
        test: Box::new(name("test")),
        body: vec![pass(1), pass(2)],
        orelse: vec![pass(3)],
    });
    assert_eq!(record(&statement), vec!["pass@1", "pass@2", "pass@3"]);
}

#[test]
fn while_and_for_are_walked_body_first() {
    let looped = Statement::WhileStatement(While {
        node: node(),
        test: Box::new(name("test")),
        body: vec![pass(1)],
        orelse: vec![pass(2), pass(3)],
    });
    assert_eq!(record(&looped), vec!["pass@1", "pass@2", "pass@3"]);
    let each = Statement::ForStatement(For {
        node: node(),
        target: Box::new(name("target")),
        iter: Box::new(name("iter")),
        body: vec![pass(4)],
        orelse: vec![pass(5)],
    });
    assert_eq!(record(&each), vec!["pass@4", "pass@5"]);
}

#[test]
fn try_is_walked_body_else_finally_handlers() {
    let statement = Statement::TryStatement(Try {
        node: node(),
        body: vec![pass(1)],
        handlers: vec![handler(vec![pass(2)]), handler(vec![pass(3), pass(4)])],
        orelse: vec![pass(5)],
        finalbody: vec![pass(6)],
    });
    assert_eq!(record(&statement), vec!["pass@1", "pass@5", "pass@6", "pass@2", "pass@3", "pass@4"]);
    let star = Statement::TryStarStatement(TryStar {
        node: node(),
        body: vec![pass(1)],
        handlers: vec![handler(vec![pass(2)])],
        orelse: vec![pass(3)],
        finalbody: vec![pass(4)],
    });
    assert_eq!(record(&star), vec!["pass@1", "pass@3", "pass@4", "pass@2"]);
}

#[test]
fn with_is_walked_body_first_and_then_item_by_item() {
    let statement = Statement::WithStatement(With {
        node: node(),
        items: vec![
            WithItem {
                node: node(),
                context_expr: Box::new(name("first")),
                optional_vars: Some(Box::new(name("as_first"))),
            },
            WithItem { node: node(), context_expr: Box::new(name("second")), optional_vars: None },
            WithItem {
                node: node(),
                context_expr: Box::new(name("third")),
                optional_vars: Some(Box::new(name("as_third"))),
            },
        ],
        body: vec![pass(1), pass(2)],
    });
    assert_eq!(
        record(&statement),
        vec!["pass@1", "pass@2", "first", "as_first", "second", "third", "as_third"]
    );
}

#[test]
fn match_is_walked_case_by_case() {
    let statement = Statement::Match(Match {
        node: node(),
        subject: Box::new(name("subject")),
        cases: vec![case(vec![pass(1), pass(2)]), case(vec![]), case(vec![pass(3)])],
    });
    assert_eq!(record(&statement), vec!["pass@1", "pass@2", "pass@3"]);
}

#[test]
fn nested_statements_are_walked_where_they_stand() {
    let inner = Statement::IfStatement(If {
        node: node(),
        test: Box::new(name("test")),
        body: vec![pass(2)],
        orelse: vec![pass(3)],
    });
    let statement = Statement::WhileStatement(While {
        node: node(),
        test: Box::new(name("test")),
        body: vec![pass(1), inner, pass(4)],
        orelse: vec![pass(5)],
    });
    assert_eq!(record(&statement), vec!["pass@1", "pass@2", "pass@3", "pass@4", "pass@5"]);
}
