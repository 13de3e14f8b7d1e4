use enderpy::ast::{
    Alias, Arguments, Assign, ClassDef, Constant, ConstantValue, Expression, FunctionDef, If,
    Import, ImportFrom, Module, Name, Node, Pass, Statement,
};
use enderpy::ast_visitor::TraversalVisitor;
use enderpy::nodes::{ASTConverter, EnderpyFile, ImportKinds};
use enderpy::symbol_table::SymbolTableType;

fn node() -> Node {
    Node::new(0, 0)
}

fn pass() -> Statement {
    Statement::Pass(Pass { node: node() })
}

fn name(id: &str) -> Expression {
    Expression::Name(Box::new(Name { node: node(), id: id.to_string() }))
}

fn int_literal(text: &str) -> Expression {
    Expression::Constant(Box::new(Constant { node: node(), value: ConstantValue::Int(text.to_string()) }))
}

fn assign(target: &str, value: &str) -> Statement {
    Statement::AssignStatement(Assign { node: node(), targets: vec![name(target)], value: int_literal(value) })
}

fn import(module: &str) -> Statement {
    Statement::Import(Import {
        node: node(),
        names: vec![Alias { node: node(), name: module.to_string(), asname: None }],
    })
}

fn import_from(module: &str, what: &str) -> Statement {
    Statement::ImportFrom(ImportFrom {
        node: node(),
        module: module.to_string(),
        names: vec![Alias { node: node(), name: what.to_string(), asname: None }],
        level: 0,
    })
}

fn no_arguments() -> Arguments {
    Arguments {
        node: node(),
        posonlyargs: vec![],
        args: vec![],
        vararg: None,
        kwonlyargs: vec![],
        kw_defaults: vec![],
        kwarg: None,
        defaults: vec![],
    }
}

fn def(name: &str, body: Vec<Statement>) -> Statement {
    Statement::FunctionDef(FunctionDef {
        node: node(),
        name: name.to_string(),
        args: no_arguments(),
        body,
        decorator_list: vec![],
        returns: None,
        type_comment: None,
    })
}

fn module(body: Vec<Statement>) -> Module {
    Module { node: node(), body }
}

fn show<T: std::fmt::Debug>(value: &T) -> String {
    format!("{:?}", value)
}

#[test]
fn import_at_top_level_is_collected() {
    let file = EnderpyFile::from(&module(vec![import("os")]));
    assert_eq!(file.imports.len(), 1);
    match &file.imports[0] {
        ImportKinds::Import(i) => {
            assert_eq!(i.names.len(), 1);
            assert_eq!(i.names[0].name, "os");
            assert_eq!(i.names[0].asname, None);
        }
        ImportKinds::ImportFrom(_) => panic!("a plain import was recorded as an import-from"),
    }
    assert!(file.defs.is_empty());
}

#[test]
fn function_definition_at_top_level_is_collected() {
    let file = EnderpyFile::from(&module(vec![def("f", vec![pass()])]));
    assert!(file.imports.is_empty());
    assert_eq!(file.defs.len(), 1);
    match &file.defs[0] {
        Statement::FunctionDef(f) => {
            assert_eq!(f.name, "f");
            assert_eq!(f.body.len(), 1);
            assert!(matches!(f.body[0], Statement::Pass(_)));
        }
        other => panic!("not a function definition: {:?}", other),
    }
}

#[test]
fn converted_file_keeps_the_tree_and_starts_with_an_empty_module_table() {
    let tree = module(vec![import("os"), assign("x", "1"), def("f", vec![pass()])]);
    let file = EnderpyFile::from(&tree);
    assert_eq!(show(&file.ast), show(&tree));
    assert_eq!(file.names.len(), 0);
    assert_eq!(file.names.symbol_table_type(), SymbolTableType::Module);
    assert_eq!(file.names.start_line_number(), 1);
}

#[test]
fn empty_module_has_no_imports_and_no_definitions() {
    let file = EnderpyFile::from(&module(vec![]));
    assert!(file.imports.is_empty());
    assert!(file.defs.is_empty());
    assert!(file.ast.body.is_empty());
}

#[test]
fn imports_and_definitions_come_in_source_order() {
    let tree = module(vec![
        import("a"),
        def("f", vec![pass()]),
        import_from("b", "c"),
        assign("x", "1"),
        def("g", vec![pass()]),
        import("d"),
    ]);
    let file = EnderpyFile::from(&tree);
    assert_eq!(file.imports.len(), 3);
    assert_eq!(show(&file.imports[0]), show(&ImportKinds::Import(match import("a") {
        Statement::Import(i) => i,
        _ => unreachable!(),
    })));
    match &file.imports[1] {
        ImportKinds::ImportFrom(i) => {
            assert_eq!(i.module, "b");
            assert_eq!(i.names[0].name, "c");
            assert_eq!(i.level, 0);
        }
        other => panic!("not an import-from: {:?}", other),
    }
    match &file.imports[2] {
        ImportKinds::Import(i) => assert_eq!(i.names[0].name, "d"),
        other => panic!("not an import: {:?}", other),
    }
    assert_eq!(file.defs.len(), 2);
    assert_eq!(show(&file.defs[0]), show(&def("f", vec![pass()])));
    assert_eq!(show(&file.defs[1]), show(&def("g", vec![pass()])));
}

#[test]
fn partition_is_no_larger_than_the_body() {
    let bodies = vec![
        vec![],
        vec![pass()],
        vec![import("a")],
        vec![import("a"), def("f", vec![]), pass(), assign("x", "1")],
        vec![def("f", vec![import("inner")]), def("g", vec![])],
    ];
    for body in bodies {
        let len = body.len();
        let file = EnderpyFile::from(&module(body));
        assert!(file.imports.len() + file.defs.len() <= len);
    }
}

#[test]
fn statements_of_other_forms_are_not_collected() {
    let tree = module(vec![
        assign("x", "1"),
        pass(),
        Statement::ExpressionStatement(name("x")),
        Statement::ClassDef(ClassDef {
            node: node(),
            name: "C".to_string(),
            bases: vec![],
            keywords: vec![],
            body: vec![def("method", vec![pass()])],
            decorator_list: vec![],
        }),
    ]);
    let file = EnderpyFile::from(&tree);
    assert!(file.imports.is_empty());
    assert!(file.defs.is_empty());
}

#[test]
fn nested_imports_and_definitions_are_not_collected() {
    let nested = Statement::IfStatement(If {
        node: node(),
        test: Box::new(name("flag")),
        body: vec![import("a"), import("b"), def("f", vec![])],
        orelse: vec![import_from("c", "d")],
    });
    let file = EnderpyFile::from(&module(vec![nested, def("g", vec![import("e")])]));
    assert!(file.imports.is_empty());
    assert_eq!(file.defs.len(), 1);
    assert_eq!(show(&file.defs[0]), show(&def("g", vec![import("e")])));
}

#[test]
fn converting_twice_gives_the_same_lists() {
    let tree = module(vec![
        import("a"),
        def("f", vec![assign("x", "1")]),
        import_from("b", "c"),
        pass(),
    ]);
    let first = EnderpyFile::from(&tree);
    let second = EnderpyFile::from(&tree);
    assert_eq!(show(&first.imports), show(&second.imports));
    assert_eq!(show(&first.defs), show(&second.defs));
    assert_eq!(show(&first.ast), show(&second.ast));
}

#[test]
fn converter_is_empty_again_after_convert() {
    let mut converter = ASTConverter::new();
    let first = converter.convert(&module(vec![import("a"), def("f", vec![])]));
    assert_eq!(first.imports.len(), 1);
    assert_eq!(first.defs.len(), 1);
    let second = converter.convert(&module(vec![import("b")]));
    assert_eq!(second.imports.len(), 1);
    match &second.imports[0] {
        ImportKinds::Import(i) => assert_eq!(i.names[0].name, "b"),
        other => panic!("not an import: {:?}", other),
    }
    assert!(second.defs.is_empty());
}

#[test]
fn converter_adds_to_what_it_was_handed_before() {
    let mut converter = ASTConverter::new();
    assert!(converter.visit_stmt(&import("early")).is_ok());
    assert!(converter.visit_stmt(&pass()).is_ok());
    assert!(converter.visit_stmt(&def("before", vec![])).is_ok());
    let file = converter.convert(&module(vec![import("late"), def("after", vec![])]));
    assert_eq!(file.imports.len(), 2);
    match (&file.imports[0], &file.imports[1]) {
        (ImportKinds::Import(a), ImportKinds::Import(b)) => {
            assert_eq!(a.names[0].name, "early");
            assert_eq!(b.names[0].name, "late");
        }
        other => panic!("not two imports: {:?}", other),
    }
    assert_eq!(file.defs.len(), 2);
    assert_eq!(show(&file.defs[0]), show(&def("before", vec![])));
    assert_eq!(show(&file.defs[1]), show(&def("after", vec![])));
}

#[test]
fn converter_accepts_every_expression() {
    let mut converter = ASTConverter::new();
    assert!(converter.visit_expr(&name("x")).is_ok());
    assert!(converter.visit_expr(&int_literal("1")).is_ok());
    let file = converter.convert(&module(vec![]));
    assert!(file.imports.is_empty());
    assert!(file.defs.is_empty());
}

#[test]
fn collected_records_are_copies_with_aliases() {
    let with_alias = Statement::Import(Import {
        node: Node::new(0, 15),
        names: vec![
            Alias { node: Node::new(7, 15), name: "numpy".to_string(), asname: Some("np".to_string()) },
        ],
    });
    let file = EnderpyFile::from(&module(vec![with_alias]));
    match &file.imports[0] {
        ImportKinds::Import(i) => {
            assert_eq!(i.node, Node::new(0, 15));
            assert_eq!(i.names[0].node, Node::new(7, 15));
            assert_eq!(i.names[0].name, "numpy");
            assert_eq!(i.names[0].asname, Some("np".to_string()));
        }
        other => panic!("not an import: {:?}", other),
    }
}
