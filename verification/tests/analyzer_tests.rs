use enderpy::ast::{
    Alias, Arguments, Assign, Attribute, Call, ClassDef, Constant, ConstantValue, DictComp,
    ExceptHandler, Expression, For, FunctionDef, If, Import, JoinedStr, Lambda, List, Match,
    MatchAs, MatchCase, MatchPattern, Module, Name, Node, Pass, Return, SetExpr, Statement, Try,
    Tuple, While, With, WithItem,
};
use enderpy::ast_kind::{ExpressionKind, StatementKind};
use enderpy::ast_visitor::{Construct, TraversalVisitor, Unsupported};
use enderpy::nodes::EnderpyFile;
use enderpy::semanal_utils::{get_expr_type, get_target_name};
use enderpy::semantic_analyzer::{get_expr_bind_name, get_names, SemanticAnalyzer};
use enderpy::state::State;
use enderpy::symbol_table::{NodeType, SymbolScope};

fn node() -> Node {
    Node::new(0, 0)
}

fn pass_at(start: usize) -> Statement {
    Statement::Pass(Pass { node: Node::new(start, start + 4) })
}

fn name(id: &str) -> Expression {
    Expression::Name(Box::new(Name { node: node(), id: id.to_string() }))
}

fn name_at(id: &str, start: usize) -> Expression {
    Expression::Name(Box::new(Name { node: Node::new(start, start + id.len()), id: id.to_string() }))
}

fn constant(value: ConstantValue) -> Expression {
    Expression::Constant(Box::new(Constant { node: node(), value }))
}

fn int_literal(text: &str) -> Expression {
    constant(ConstantValue::Int(text.to_string()))
}

fn tuple(elements: Vec<Expression>, start: usize, end: usize) -> Expression {
    Expression::Tuple(Box::new(Tuple { node: Node::new(start, end), elements }))
}

fn assign_to(targets: Vec<Expression>, value: Expression, start: usize, end: usize) -> Statement {
    Statement::AssignStatement(Assign { node: Node::new(start, end), targets, value })
}

fn assign(target: &str, value: Expression) -> Statement {
    assign_to(vec![name(target)], value, 0, 0)
}

fn no_arguments() -> Arguments {
    Arguments {
        node: node(),
        posonlyargs: vec![],
        args: vec![],
        vararg: None,
        kwonlyargs: vec![],
        kw_defaults: vec![],
        kwarg: None,
        defaults: vec![],
    }
}

fn def(name: &str, body: Vec<Statement>) -> Statement {
    Statement::FunctionDef(FunctionDef {
        node: node(),
        name: name.to_string(),
        args: no_arguments(),
        body,
        decorator_list: vec![],
        returns: None,
        type_comment: None,
    })
}

fn if_else(body: Vec<Statement>, orelse: Vec<Statement>) -> Statement {
    Statement::IfStatement(If {
        node: node(),
        test: Box::new(constant(ConstantValue::Bool(true))),
        body,
        orelse,
    })
}

fn analyzer_for(body: Vec<Statement>) -> SemanticAnalyzer {
    let file = EnderpyFile::from(&Module { node: node(), body });
    SemanticAnalyzer::new(State { file })
}

fn show<T: std::fmt::Debug>(value: &T) -> String {
    format!("{:?}", value)
}

fn unsupported_statement(kind: StatementKind, node: Node) -> Unsupported {
    Unsupported { construct: Construct::Statement(kind), node }
}

fn unsupported_expression(kind: ExpressionKind, node: Node) -> Unsupported {
    Unsupported { construct: Construct::Expression(kind), node }
}

#[test]
fn new_analyzer_holds_the_file_and_records_in_the_global_scope() {
    let analyzer = analyzer_for(vec![def("f", vec![])]);
    assert_eq!(analyzer.scope, SymbolScope::Global);
    assert_eq!(analyzer.state.file.defs.len(), 1);
    assert_eq!(analyzer.state.file.names.len(), 0);
}

#[test]
fn assignment_of_an_int_literal_binds_an_int() {
    let mut analyzer = analyzer_for(vec![]);
    let statement = assign("x", int_literal("1"));
    assert_eq!(analyzer.visit_stmt(&statement), Ok(()));
    let names = &analyzer.state.file.names;
    assert_eq!(names.len(), 1);
    let x = names.lookup_in_scope("x").expect("x is bound");
    assert_eq!(x.name, "x");
    assert_eq!(x.typ, NodeType::Int);
    assert_eq!(x.scope, SymbolScope::Global);
    assert!(!x.module_public);
    assert!(!x.module_hidden);
    assert!(!x.implicit);
    assert_eq!(show(&x.node), show(&statement));
}

#[test]
fn assignment_inside_a_definition_is_bound_by_analyze() {
    let mut analyzer = analyzer_for(vec![def("f", vec![assign("x", int_literal("1"))])]);
    assert_eq!(analyzer.analyze(), Ok(()));
    let names = &analyzer.state.file.names;
    assert_eq!(names.len(), 1);
    let x = names.lookup_in_scope("x").expect("x is bound");
    assert_eq!(x.typ, NodeType::Int);
    assert_eq!(show(&x.node), show(&assign("x", int_literal("1"))));
}

#[test]
fn analyze_starts_from_the_definitions_only() {
    let mut analyzer = analyzer_for(vec![assign("top", int_literal("1")), pass_at(0)]);
    assert_eq!(analyzer.analyze(), Ok(()));
    assert_eq!(analyzer.state.file.names.len(), 0);
}

#[test]
fn analyze_leaves_the_rest_of_the_file_as_it_was() {
    let body = vec![
        Statement::Import(Import {
            node: node(),
            names: vec![Alias { node: node(), name: "os".to_string(), asname: None }],
        }),
        def("f", vec![assign("x", int_literal("1"))]),
        def("g", vec![pass_at(9)]),
    ];
    let mut analyzer = analyzer_for(body);
    let ast = show(&analyzer.state.file.ast);
    let imports = show(&analyzer.state.file.imports);
    let defs = show(&analyzer.state.file.defs);
    assert!(analyzer.analyze().is_err());
    assert_eq!(show(&analyzer.state.file.ast), ast);
    assert_eq!(show(&analyzer.state.file.imports), imports);
    assert_eq!(show(&analyzer.state.file.defs), defs);
    assert_eq!(analyzer.state.file.defs.len(), 2);
    assert_eq!(analyzer.scope, SymbolScope::Global);
}

#[test]
fn pass_in_a_function_body_stops_the_pass() {
    let mut analyzer = analyzer_for(vec![def("f", vec![pass_at(9)])]);
    assert_eq!(
        analyzer.analyze(),
        Err(unsupported_statement(StatementKind::Pass, Node::new(9, 13)))
    );
    assert_eq!(analyzer.state.file.names.len(), 0);
}

#[test]
fn what_was_bound_before_the_stop_stays_bound() {
    let mut analyzer = analyzer_for(vec![
        def("f", vec![assign("a", int_literal("1")), pass_at(20), assign("b", int_literal("2"))]),
        def("g", vec![assign("c", int_literal("3"))]),
    ]);
    assert_eq!(
        analyzer.analyze(),
        Err(unsupported_statement(StatementKind::Pass, Node::new(20, 24)))
    );
    let names = &analyzer.state.file.names;
    assert_eq!(names.len(), 1);
    assert!(names.lookup_in_scope("a").is_some());
    assert!(names.lookup_in_scope("b").is_none());
    assert!(names.lookup_in_scope("c").is_none());
}

#[test]
fn both_branches_of_an_if_are_visited_and_the_last_binding_wins() {
    let first = assign_to(vec![name("y")], int_literal("1"), 9, 14);
    let second = assign_to(vec![name("y")], constant(ConstantValue::Str("two".to_string())), 21, 30);
    let mut analyzer = analyzer_for(vec![]);
    let statement = Statement::IfStatement(If {
        node: Node::new(0, 30),
        test: Box::new(constant(ConstantValue::Bool(true))),
        body: vec![assign_to(vec![name("y")], int_literal("1"), 9, 14)],
        orelse: vec![assign_to(
            vec![name("y")],
            constant(ConstantValue::Str("two".to_string())),
            21,
            30,
        )],
    });
    assert_eq!(analyzer.visit_stmt(&statement), Ok(()));
    let names = &analyzer.state.file.names;
    assert_eq!(names.len(), 1);
    let y = names.lookup_in_scope("y").expect("y is bound");
    assert_eq!(y.typ, NodeType::Str);
    assert_eq!(show(&y.node), show(&second));
    assert_ne!(show(&y.node), show(&first));
}

#[test]
fn single_target_assignment_binds_exactly_its_name() {
    let mut analyzer = analyzer_for(vec![]);
    assert_eq!(analyzer.visit_stmt(&assign("other", int_literal("0"))), Ok(()));
    let statement = assign_to(vec![name_at("x", 4)], name("other"), 4, 13);
    assert_eq!(analyzer.visit_stmt(&statement), Ok(()));
    let names = &analyzer.state.file.names;
    assert_eq!(names.len(), 2);
    let x = names.lookup_in_scope("x").expect("x is bound");
    assert_eq!(x.name, "x");
    assert!(!x.module_public);
    assert_eq!(x.typ, NodeType::Name);
    assert_eq!(show(&x.node), show(&statement));
    let other = names.lookup_in_scope("other").expect("other is still bound");
    assert_eq!(other.typ, NodeType::Int);
}

#[test]
fn multi_target_assignment_is_refused_and_binds_nothing() {
    let mut analyzer = analyzer_for(vec![]);
    let statement = assign_to(vec![name("a"), name("b")], int_literal("1"), 3, 12);
    assert_eq!(
        analyzer.visit_stmt(&statement),
        Err(Unsupported { construct: Construct::MultipleTargets, node: Node::new(3, 12) })
    );
    assert_eq!(analyzer.state.file.names.len(), 0);
    assert!(analyzer.state.file.names.lookup_in_scope("a").is_none());
    assert!(analyzer.state.file.names.lookup_in_scope("b").is_none());
}

#[test]
fn destructuring_assignment_is_refused_and_binds_nothing() {
    let mut analyzer = analyzer_for(vec![]);
    let target = tuple(vec![name("a"), name("b")], 0, 4);
    let value = tuple(vec![int_literal("1"), int_literal("2")], 7, 11);
    let statement = assign_to(vec![target], value, 0, 11);
    assert_eq!(
        analyzer.visit_stmt(&statement),
        Err(Unsupported { construct: Construct::TargetNotName, node: Node::new(0, 4) })
    );
    assert_eq!(analyzer.state.file.names.len(), 0);
    assert!(analyzer.state.file.names.lookup_in_scope("a").is_none());
    assert!(analyzer.state.file.names.lookup_in_scope("b").is_none());
}

#[test]
fn attribute_target_is_refused() {
    let mut analyzer = analyzer_for(vec![]);
    let target = Expression::Attribute(Box::new(Attribute {
        node: Node::new(2, 7),
        value: Box::new(name("o")),
        attr: "x".to_string(),
    }));
    assert_eq!(
        analyzer.visit_stmt(&assign_to(vec![target], int_literal("1"), 2, 11)),
        Err(Unsupported { construct: Construct::TargetNotName, node: Node::new(2, 7) })
    );
    assert_eq!(analyzer.state.file.names.len(), 0);
}

#[test]
fn assignment_without_a_target_is_refused() {
    let mut analyzer = analyzer_for(vec![]);
    assert_eq!(
        analyzer.visit_stmt(&assign_to(vec![], int_literal("1"), 5, 6)),
        Err(Unsupported { construct: Construct::MissingTarget, node: Node::new(5, 6) })
    );
    assert_eq!(analyzer.state.file.names.len(), 0);
}

#[test]
fn refused_assignment_leaves_earlier_bindings_alone() {
    let mut analyzer = analyzer_for(vec![]);
    assert_eq!(analyzer.visit_stmt(&assign("a", int_literal("1"))), Ok(()));
    assert!(analyzer.visit_stmt(&assign_to(vec![name("a"), name("b")], name("q"), 0, 9)).is_err());
    let names = &analyzer.state.file.names;
    assert_eq!(names.len(), 1);
    assert_eq!(names.lookup_in_scope("a").expect("a is bound").typ, NodeType::Int);
}

#[test]
fn leaf_statements_without_a_rule_stop_the_pass() {
    let mut analyzer = analyzer_for(vec![]);
    assert_eq!(
        analyzer.visit_stmt(&Statement::Return(Return { node: Node::new(1, 9), value: None })),
        Err(unsupported_statement(StatementKind::Return, Node::new(1, 9)))
    );
    let import = Statement::Import(Import {
        node: Node::new(2, 11),
        names: vec![Alias { node: node(), name: "os".to_string(), asname: None }],
    });
    assert_eq!(
        analyzer.visit_stmt(&import),
        Err(unsupported_statement(StatementKind::Import, Node::new(2, 11)))
    );
    assert_eq!(analyzer.state.file.names.len(), 0);
}

#[test]
fn bare_expression_stops_the_pass_with_the_kind_of_the_expression() {
    let mut analyzer = analyzer_for(vec![]);
    assert_eq!(
        analyzer.visit_stmt(&Statement::ExpressionStatement(name_at("spam", 6))),
        Err(unsupported_expression(ExpressionKind::Name, Node::new(6, 10)))
    );
    assert_eq!(
        analyzer.visit_expr(&tuple(vec![], 3, 5)),
        Err(unsupported_expression(ExpressionKind::Tuple, Node::new(3, 5)))
    );
}

#[test]
fn alias_hook_stops_the_pass() {
    let mut analyzer = analyzer_for(vec![]);
    let alias = Alias { node: Node::new(7, 9), name: "os".to_string(), asname: None };
    assert_eq!(
        analyzer.visit_alias(&alias),
        Err(Unsupported { construct: Construct::Alias, node: Node::new(7, 9) })
    );
}

#[test]
fn while_and_for_visit_the_body_and_the_else_branch() {
    let mut analyzer = analyzer_for(vec![]);
    let looped = Statement::WhileStatement(While {
        node: node(),
        test: Box::new(name("go")),
        body: vec![assign("a", int_literal("1"))],
        orelse: vec![assign("b", int_literal("2"))],
    });
    assert_eq!(analyzer.visit_stmt(&looped), Ok(()));
    let each = Statement::ForStatement(For {
        node: node(),
        target: Box::new(name("i")),
        iter: Box::new(name("items")),
        body: vec![assign("c", int_literal("3"))],
        orelse: vec![assign("d", int_literal("4"))],
    });
    assert_eq!(analyzer.visit_stmt(&each), Ok(()));
    let names = &analyzer.state.file.names;
    assert_eq!(names.len(), 4);
    for bound in ["a", "b", "c", "d"] {
        assert!(names.lookup_in_scope(bound).is_some());
    }
    assert!(names.lookup_in_scope("i").is_none());
}

#[test]
fn with_visits_the_body_and_then_the_items() {
    let mut analyzer = analyzer_for(vec![]);
    let statement = Statement::WithStatement(With {
        node: node(),
        items: vec![WithItem {
            node: node(),
            context_expr: Box::new(Expression::Call(Box::new(Call {
                node: Node::new(5, 11),
                func: Box::new(name("open")),
                args: vec![],
                keywords: vec![],
                starargs: None,
                kwargs: None,
            }))),
            optional_vars: Some(Box::new(name_at("f", 15))),
        }],
        body: vec![assign("inside", int_literal("1"))],
    });
    assert_eq!(
        analyzer.visit_stmt(&statement),
        Err(unsupported_expression(ExpressionKind::Call, Node::new(5, 11)))
    );
    assert!(analyzer.state.file.names.lookup_in_scope("inside").is_some());
}

#[test]
fn with_without_items_only_visits_the_body() {
    let mut analyzer = analyzer_for(vec![]);
    let statement =
        Statement::WithStatement(With { node: node(), items: vec![], body: vec![assign("v", int_literal("1"))] });
    assert_eq!(analyzer.visit_stmt(&statement), Ok(()));
    assert_eq!(analyzer.state.file.names.len(), 1);
}

fn handler(body: Vec<Statement>) -> ExceptHandler {
    ExceptHandler { node: node(), typ: None, name: None, body }
}

#[test]
fn try_visits_body_else_finally_and_then_the_handlers() {
    let mut analyzer = analyzer_for(vec![]);
    let statement = Statement::TryStatement(Try {
        node: node(),
        body: vec![assign("v", int_literal("1"))],
        handlers: vec![
            handler(vec![assign("v", constant(ConstantValue::Str("h1".to_string())))]),
            handler(vec![assign("v", constant(ConstantValue::Bytes(vec![1, 2])))]),
        ],
        orelse: vec![assign("v", constant(ConstantValue::Float("2.0".to_string())))],
        finalbody: vec![assign("v", constant(ConstantValue::Bool(false)))],
    });
    assert_eq!(analyzer.visit_stmt(&statement), Ok(()));
    let names = &analyzer.state.file.names;
    assert_eq!(names.len(), 1);
    // the last handler is visited last, so its binding is the one that stays
    assert_eq!(names.lookup_in_scope("v").expect("v is bound").typ, NodeType::Bytes);
}

#[test]
fn try_stops_in_the_finally_branch_before_any_handler() {
    let mut analyzer = analyzer_for(vec![]);
    let statement = Statement::TryStatement(Try {
        node: node(),
        body: vec![assign("a", int_literal("1"))],
        handlers: vec![handler(vec![assign("h", int_literal("4"))])],
        orelse: vec![assign("b", int_literal("2"))],
        finalbody: vec![pass_at(40), assign("c", int_literal("3"))],
    });
    assert_eq!(
        analyzer.visit_stmt(&statement),
        Err(unsupported_statement(StatementKind::Pass, Node::new(40, 44)))
    );
    let names = &analyzer.state.file.names;
    assert_eq!(names.len(), 2);
    assert!(names.lookup_in_scope("a").is_some());
    assert!(names.lookup_in_scope("b").is_some());
    assert!(names.lookup_in_scope("c").is_none());
    assert!(names.lookup_in_scope("h").is_none());
}

#[test]
fn match_and_class_bodies_are_visited() {
    let mut analyzer = analyzer_for(vec![]);
    let wildcard = MatchPattern::MatchAs(MatchAs { node: node(), name: None, pattern: None });
    let statement = Statement::Match(Match {
        node: node(),
        subject: Box::new(name("subject")),
        cases: vec![
            MatchCase {
                node: node(),
                pattern: Box::new(MatchPattern::MatchAs(MatchAs {
                    node: node(),
                    name: Some("bound".to_string()),
                    pattern: None,
                })),
                guard: None,
                body: vec![assign("first", int_literal("1"))],
            },
            MatchCase {
                node: node(),
                pattern: Box::new(wildcard),
                guard: Some(Box::new(name("guard"))),
                body: vec![assign("second", int_literal("2"))],
            },
        ],
    });
    assert_eq!(analyzer.visit_stmt(&statement), Ok(()));
    let class = Statement::ClassDef(ClassDef {
        node: node(),
        name: "C".to_string(),
        bases: vec![],
        keywords: vec![],
        body: vec![assign("field", int_literal("0")), def("method", vec![assign("local", int_literal("1"))])],
        decorator_list: vec![],
    });
    assert_eq!(analyzer.visit_stmt(&class), Ok(()));
    let names = &analyzer.state.file.names;
    assert_eq!(names.len(), 4);
    for bound in ["first", "second", "field", "local"] {
        assert_eq!(names.lookup_in_scope(bound).expect("bound").scope, SymbolScope::Global);
    }
}

#[test]
fn deeply_nested_assignment_is_found() {
    let mut statement = assign("deep", int_literal("1"));
    for _ in 0..40 {
        statement = if_else(vec![statement], vec![]);
    }
    let mut analyzer = analyzer_for(vec![def("f", vec![statement])]);
    assert_eq!(analyzer.analyze(), Ok(()));
    assert!(analyzer.state.file.names.lookup_in_scope("deep").is_some());
}

#[test]
fn add_expression_to_symbol_table_records_what_it_is_given() {
    let mut analyzer = analyzer_for(vec![]);
    analyzer.add_expression_to_symbol_table("p".to_string(), NodeType::Call, pass_at(3), true);
    let p = analyzer.state.file.names.lookup_in_scope("p").expect("p is bound");
    assert_eq!(p.name, "p");
    assert_eq!(p.typ, NodeType::Call);
    assert!(p.module_public);
    assert!(!p.module_hidden);
    assert!(!p.implicit);
    assert_eq!(p.scope, SymbolScope::Global);
    assert_eq!(show(&p.node), show(&pass_at(3)));
}

#[test]
fn coarse_type_of_each_constant() {
    assert_eq!(get_expr_type(&constant(ConstantValue::NoneValue)), NodeType::NoneValue);
    assert_eq!(get_expr_type(&constant(ConstantValue::Bool(true))), NodeType::Bool);
    assert_eq!(get_expr_type(&constant(ConstantValue::Str("s".to_string()))), NodeType::Str);
    assert_eq!(get_expr_type(&constant(ConstantValue::Bytes(vec![0]))), NodeType::Bytes);
    assert_eq!(get_expr_type(&constant(ConstantValue::Tuple(vec![]))), NodeType::Tuple);
    assert_eq!(get_expr_type(&int_literal("12")), NodeType::Int);
    assert_eq!(get_expr_type(&constant(ConstantValue::Float("1.5".to_string()))), NodeType::Float);
    assert_eq!(
        get_expr_type(&constant(ConstantValue::Complex {
            real: "1".to_string(),
            imaginary: "2".to_string()
        })),
        NodeType::Complex
    );
}

#[test]
fn coarse_type_of_other_expressions() {
    assert_eq!(get_expr_type(&name("x")), NodeType::Name);
    assert_eq!(get_expr_type(&tuple(vec![], 0, 2)), NodeType::Tuple);
    assert_eq!(
        get_expr_type(&Expression::List(Box::new(List { node: node(), elements: vec![] }))),
        NodeType::List
    );
    assert_eq!(
        get_expr_type(&Expression::SetExpr(Box::new(SetExpr { node: node(), elements: vec![int_literal("1")] }))),
        NodeType::SetValue
    );
    assert_eq!(
        get_expr_type(&Expression::DictComp(Box::new(DictComp {
            node: node(),
            key: Box::new(name("k")),
            value: Box::new(name("v")),
            generators: vec![],
        }))),
        NodeType::Dict
    );
    assert_eq!(
        get_expr_type(&Expression::JoinedStr(Box::new(JoinedStr { node: node(), values: vec![] }))),
        NodeType::Str
    );
    assert_eq!(
        get_expr_type(&Expression::Lambda(Box::new(Lambda {
            node: node(),
            args: no_arguments(),
            body: Box::new(name("x")),
        }))),
        NodeType::Lambda
    );
    assert_eq!(
        get_expr_type(&Expression::Call(Box::new(Call {
            node: node(),
            func: Box::new(name("f")),
            args: vec![],
            keywords: vec![],
            starargs: None,
            kwargs: None,
        }))),
        NodeType::Call
    );
    assert_eq!(
        get_expr_type(&Expression::Attribute(Box::new(Attribute {
            node: node(),
            value: Box::new(name("o")),
            attr: "a".to_string(),
        }))),
        NodeType::Unknown
    );
}

#[test]
fn target_name_of_a_name_is_its_identifier() {
    assert_eq!(get_target_name(&name("spam")), Ok("spam".to_string()));
    assert_eq!(get_expr_bind_name(&name("eggs")), Ok("eggs".to_string()));
    assert_eq!(get_target_name(&name("")), Ok(String::new()));
}

#[test]
fn target_name_of_anything_else_is_refused_with_its_span() {
    let refused = Unsupported { construct: Construct::TargetNotName, node: Node::new(2, 8) };
    assert_eq!(get_target_name(&tuple(vec![name("a")], 2, 8)), Err(refused));
    assert_eq!(get_expr_bind_name(&tuple(vec![name("a")], 2, 8)), Err(refused));
}

#[test]
fn names_of_an_assignment_are_the_names_of_its_targets() {
    let statement = assign_to(vec![name("a"), name("b"), name("a")], int_literal("1"), 0, 13);
    assert_eq!(get_names(&statement), Ok(vec!["a".to_string(), "b".to_string(), "a".to_string()]));
    assert_eq!(get_names(&assign("x", int_literal("1"))), Ok(vec!["x".to_string()]));
    assert_eq!(get_names(&assign_to(vec![], int_literal("1"), 0, 1)), Ok(vec![]));
}

#[test]
fn names_are_refused_at_the_first_target_that_is_not_a_name() {
    let statement = assign_to(
        vec![name("a"), tuple(vec![], 4, 6), tuple(vec![], 9, 11)],
        int_literal("1"),
        0,
        15,
    );
    assert_eq!(
        get_names(&statement),
        Err(Unsupported { construct: Construct::TargetNotName, node: Node::new(4, 6) })
    );
}

#[test]
fn names_of_a_statement_that_is_no_assignment_are_refused() {
    assert_eq!(get_names(&pass_at(3)), Err(unsupported_statement(StatementKind::Pass, Node::new(3, 7))));
    assert_eq!(
        get_names(&Statement::ExpressionStatement(name_at("e", 5))),
        Err(unsupported_statement(StatementKind::Expression, Node::new(5, 6)))
    );
    assert_eq!(
        get_names(&if_else(vec![assign("x", int_literal("1"))], vec![])),
        Err(unsupported_statement(StatementKind::If, Node::new(0, 0)))
    );
}
