use enderpy::ast::{
    Alias, Arg, Arguments, Assign, BinOp, BinaryOperator, Call, Compare, ComparisonOperator,
    Constant, ConstantValue, Expression, FunctionDef, Global, If, Import, Keyword, Lambda, Match,
    MatchCase, MatchClass, MatchMapping, MatchPattern, MatchValue, Module, Name, Node, Pass,
    Statement,
};
use enderpy::ast_kind::{ExpressionKind, StatementKind};

fn name(id: &str, start: usize) -> Expression {
    Expression::Name(Box::new(Name { node: Node::new(start, start + id.len()), id: id.to_string() }))
}

fn constant(value: ConstantValue, start: usize, end: usize) -> Expression {
    Expression::Constant(Box::new(Constant { node: Node::new(start, end), value }))
}

fn pass(start: usize) -> Statement {
    Statement::Pass(Pass { node: Node::new(start, start + 4) })
}

fn show<T: std::fmt::Debug>(value: &T) -> String {
    format!("{:?}", value)
}

fn rich_function() -> Statement {
    let arguments = Arguments {
        node: Node::new(6, 30),
        posonlyargs: vec![Arg { node: Node::new(6, 7), arg: "p".to_string(), annotation: None }],
        args: vec![Arg {
            node: Node::new(9, 15),
            arg: "a".to_string(),
            annotation: Some(name("int", 12)),
        }],
        vararg: Some(Arg { node: Node::new(17, 22), arg: "rest".to_string(), annotation: None }),
        kwonlyargs: vec![
            Arg { node: Node::new(24, 25), arg: "k".to_string(), annotation: None },
            Arg { node: Node::new(27, 28), arg: "l".to_string(), annotation: None },
        ],
        kw_defaults: vec![None, Some(constant(ConstantValue::NoneValue, 29, 33))],
        kwarg: None,
        defaults: vec![constant(ConstantValue::Int("1".to_string()), 16, 17)],
    };
    let call = Expression::Call(Box::new(Call {
        node: Node::new(40, 60),
        func: Box::new(name("f", 40)),
        args: vec![
            Expression::BinOp(Box::new(BinOp {
                node: Node::new(42, 47),
                op: BinaryOperator::FloorDiv,
                left: Box::new(name("a", 42)),
                right: Box::new(constant(ConstantValue::Float("2.5".to_string()), 45, 48)),
            })),
            Expression::Compare(Box::new(Compare {
                node: Node::new(49, 58),
                left: Box::new(name("a", 49)),
                ops: vec![ComparisonOperator::Lt, ComparisonOperator::NotIn],
                comparators: vec![name("b", 53), name("c", 57)],
            })),
        ],
        keywords: vec![Keyword { node: Node::new(58, 59), arg: Some("key".to_string()), value: Box::new(name("v", 59)) }],
        starargs: None,
        kwargs: Some(Box::new(name("kw", 61))),
    }));
    let patterns = Statement::Match(Match {
        node: Node::new(70, 120),
        subject: Box::new(name("s", 76)),
        cases: vec![MatchCase {
            node: Node::new(80, 120),
            pattern: Box::new(MatchPattern::MatchOr(vec![
                MatchPattern::MatchValue(MatchValue {
                    node: Node::new(85, 86),
                    value: Box::new(constant(ConstantValue::Bytes(vec![0, 255, 7]), 85, 86)),
                }),
                MatchPattern::MatchSequence(vec![MatchPattern::MatchStar(Box::new(name("rest", 90)))]),
                MatchPattern::MatchMapping(MatchMapping {
                    node: Node::new(95, 100),
                    keys: vec![constant(ConstantValue::Str("k".to_string()), 96, 99)],
                    patterns: vec![MatchPattern::MatchSingleton(Box::new(constant(
                        ConstantValue::Bool(false),
                        99,
                        100,
                    )))],
                    rest: Some("others".to_string()),
                }),
                MatchPattern::MatchClass(MatchClass {
                    node: Node::new(101, 110),
                    cls: Box::new(name("Point", 101)),
                    patterns: vec![],
                    kwd_attrs: vec!["x".to_string(), "y".to_string()],
                    kwd_patterns: vec![],
                }),
            ])),
            guard: Some(Box::new(constant(
                ConstantValue::Complex { real: "1".to_string(), imaginary: "2j".to_string() },
                111,
                115,
            ))),
            body: vec![pass(116)],
        }],
    });
    Statement::FunctionDef(FunctionDef {
        node: Node::new(0, 130),
        name: "rich".to_string(),
        args: arguments,
        body: vec![
            Statement::ExpressionStatement(call),
            patterns,
            Statement::Global(Global { node: Node::new(121, 130), names: vec!["g".to_string(), "h".to_string()] }),
            Statement::AssignStatement(Assign {
                node: Node::new(131, 150),
                targets: vec![name("t", 131)],
                value: Expression::Lambda(Box::new(Lambda {
                    node: Node::new(135, 150),
                    args: Arguments {
                        node: Node::new(142, 142),
                        posonlyargs: vec![],
                        args: vec![],
                        vararg: None,
                        kwonlyargs: vec![],
                        kw_defaults: vec![],
                        kwarg: None,
                        defaults: vec![],
                    },
                    body: Box::new(constant(
                        ConstantValue::Tuple(vec![Constant {
                            node: Node::new(144, 145),
                            value: ConstantValue::Int("0".to_string()),
                        }]),
                        143,
                        150,
                    )),
                })),
            }),
        ],
        decorator_list: vec![name("decorated", 0)],
        returns: Some(Box::new(name("int", 33))),
        type_comment: Some("ignore".to_string()),
    })
}

#[test]
fn clone_of_a_statement_is_a_deep_copy() {
    let first = rich_function();
    let copy = first.clone();
    assert_eq!(show(&copy), show(&first));
}

#[test]
fn clone_of_a_module_is_a_deep_copy() {
    let first = Module { node: Node::new(0, 200), body: vec![rich_function(), pass(196)] };
    let copy = first.clone();
    assert_eq!(show(&copy), show(&first));
    assert_eq!(copy.body.len(), 2);
    assert_eq!(copy.node, Node::new(0, 200));
}

#[test]
fn clone_does_not_share_with_what_it_was_made_from() {
    let first = If {
        node: Node::new(0, 9),
        test: Box::new(name("t", 3)),
        body: vec![pass(5)],
        orelse: vec![],
    };
    let mut copy = first.clone();
    copy.body.push(pass(10));
    copy.update_orelse(vec![pass(20)]);
    assert_eq!(first.body.len(), 1);
    assert!(first.orelse.is_empty());
    assert_eq!(copy.body.len(), 2);
}

#[test]
fn clone_keeps_numbers_as_their_source_text() {
    let odd = constant(ConstantValue::Int("0x_FF".to_string()), 0, 5);
    match odd.clone() {
        Expression::Constant(c) => match c.value {
            ConstantValue::Int(text) => assert_eq!(text, "0x_FF"),
            other => panic!("not an int: {:?}", other),
        },
        other => panic!("not a constant: {:?}", other),
    }
}

#[test]
fn update_orelse_replaces_the_else_branch_only() {
    let mut statement = If {
        node: Node::new(1, 30),
        test: Box::new(name("t", 4)),
        body: vec![pass(7), pass(12)],
        orelse: vec![pass(20)],
    };
    statement.update_orelse(vec![pass(21), pass(26), pass(31)]);
    assert_eq!(show(&statement.orelse), show(&vec![pass(21), pass(26), pass(31)]));
    assert_eq!(show(&statement.body), show(&vec![pass(7), pass(12)]));
    assert_eq!(show(&statement.test), show(&Box::new(name("t", 4))));
    assert_eq!(statement.node, Node::new(1, 30));
    statement.update_orelse(vec![]);
    assert!(statement.orelse.is_empty());
}

#[test]
fn statement_node_is_the_span_of_the_statement() {
    assert_eq!(pass(3).node(), Node::new(3, 7));
    assert_eq!(rich_function().node(), Node::new(0, 130));
    let import = Statement::Import(Import {
        node: Node::new(2, 11),
        names: vec![Alias { node: Node::new(9, 11), name: "os".to_string(), asname: None }],
    });
    assert_eq!(import.node(), Node::new(2, 11));
}

#[test]
fn bare_expression_has_the_span_of_its_expression() {
    assert_eq!(Statement::ExpressionStatement(name("abc", 10)).node(), Node::new(10, 13));
}

#[test]
fn expression_node_is_the_span_of_the_expression() {
    assert_eq!(name("abc", 10).node(), Node::new(10, 13));
    assert_eq!(constant(ConstantValue::NoneValue, 4, 8).node(), Node::new(4, 8));
}

#[test]
fn kinds_name_the_form() {
    assert_eq!(pass(0).kind(), StatementKind::Pass);
    assert_eq!(rich_function().kind(), StatementKind::FunctionDef);
    assert_eq!(Statement::ExpressionStatement(name("e", 0)).kind(), StatementKind::Expression);
    assert_eq!(name("e", 0).kind(), ExpressionKind::Name);
    assert_eq!(constant(ConstantValue::Bool(true), 0, 4).kind(), ExpressionKind::Constant);
}

fn arguments(args: usize, defaults: usize, kwonly: usize, kw_defaults: usize) -> Arguments {
    let arg = |k: usize| Arg { node: Node::new(k, k + 1), arg: format!("a{}", k), annotation: None };
    Arguments {
        node: Node::new(0, 0),
        posonlyargs: vec![],
        args: (0..args).map(arg).collect(),
        vararg: None,
        kwonlyargs: (0..kwonly).map(arg).collect(),
        kw_defaults: (0..kw_defaults).map(|_| None).collect(),
        kwarg: None,
        defaults: (0..defaults).map(|k| name("d", k)).collect(),
    }
}

#[test]
fn arguments_are_well_formed_when_the_defaults_fit() {
    assert!(arguments(0, 0, 0, 0).is_well_formed());
    assert!(arguments(3, 2, 2, 2).is_well_formed());
    assert!(arguments(2, 2, 0, 0).is_well_formed());
}

#[test]
fn arguments_with_too_many_defaults_are_not_well_formed() {
    assert!(!arguments(1, 2, 0, 0).is_well_formed());
    assert!(!arguments(0, 1, 1, 1).is_well_formed());
}

#[test]
fn arguments_need_one_default_slot_for_each_keyword_only_parameter() {
    assert!(!arguments(0, 0, 2, 1).is_well_formed());
    assert!(!arguments(0, 0, 1, 2).is_well_formed());
    assert!(!arguments(0, 0, 0, 1).is_well_formed());
}

#[test]
fn constants_compare_by_value() {
    let one = Constant { node: Node::new(0, 1), value: ConstantValue::Int("1".to_string()) };
    let same = Constant { node: Node::new(0, 1), value: ConstantValue::Int("1".to_string()) };
    let float = Constant { node: Node::new(0, 1), value: ConstantValue::Float("1".to_string()) };
    let moved = Constant { node: Node::new(1, 2), value: ConstantValue::Int("1".to_string()) };
    assert_eq!(one, same);
    assert_ne!(one, float);
    assert_ne!(one, moved);
    assert_eq!(one.clone(), one);
    assert_eq!(ConstantValue::Tuple(vec![one.clone()]), ConstantValue::Tuple(vec![same]));
    assert_ne!(ConstantValue::NoneValue, ConstantValue::Bool(false));
}
