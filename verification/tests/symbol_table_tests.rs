use enderpy::ast::{Assign, Constant, ConstantValue, Expression, Name, Node, Pass, Statement};
use enderpy::symbol_table::{NodeType, SymbolScope, SymbolTable, SymbolTableNode, SymbolTableType};

fn int_literal(text: &str, at: usize) -> Expression {
    Expression::Constant(Box::new(Constant {
        node: Node::new(at, at + text.len()),
        value: ConstantValue::Int(text.to_string()),
    }))
}

fn assign(name: &str, value: &str, at: usize) -> Statement {
    let target = Expression::Name(Box::new(Name {
        node: Node::new(at, at + name.len()),
        id: name.to_string(),
    }));
    Statement::AssignStatement(Assign {
        node: Node::new(at, at + name.len() + 3 + value.len()),
        targets: vec![target],
        value: int_literal(value, at + name.len() + 3),
    })
}

fn symbol(name: &str, node: Statement, typ: NodeType) -> SymbolTableNode {
    SymbolTableNode {
        name: name.to_string(),
        node,
        typ,
        module_public: false,
        module_hidden: false,
        implicit: false,
        scope: SymbolScope::Global,
    }
}

#[test]
fn new_table_is_empty_and_keeps_its_kind_and_line() {
    let table = SymbolTable::new(SymbolTableType::Function, 17);
    assert_eq!(table.len(), 0);
    assert_eq!(table.symbol_table_type(), SymbolTableType::Function);
    assert_eq!(table.start_line_number(), 17);
    assert!(table.lookup_in_scope("x").is_none());
}

#[test]
fn added_symbol_is_found_by_its_name() {
    let mut table = SymbolTable::new(SymbolTableType::Module, 1);
    table.add_symbol("x".to_string(), symbol("x", assign("x", "1", 0), NodeType::Int));
    assert_eq!(table.len(), 1);
    let found = table.lookup_in_scope("x").expect("x is bound");
    assert_eq!(found.name, "x");
    assert_eq!(found.typ, NodeType::Int);
    assert_eq!(format!("{:?}", found.node), format!("{:?}", assign("x", "1", 0)));
    assert!(table.lookup_in_scope("y").is_none());
    assert!(table.lookup_in_scope("").is_none());
    assert!(table.lookup_in_scope("xx").is_none());
}

#[test]
fn adding_keeps_the_kind_and_the_line() {
    let mut table = SymbolTable::new(SymbolTableType::Class, 9);
    table.add_symbol("x".to_string(), symbol("x", assign("x", "1", 0), NodeType::Int));
    assert_eq!(table.symbol_table_type(), SymbolTableType::Class);
    assert_eq!(table.start_line_number(), 9);
}

#[test]
fn binding_a_name_again_replaces_its_record() {
    let mut table = SymbolTable::new(SymbolTableType::Module, 1);
    table.add_symbol("x".to_string(), symbol("x", assign("x", "1", 0), NodeType::Int));
    table.add_symbol("y".to_string(), symbol("y", assign("y", "2", 6), NodeType::Int));
    table.add_symbol("x".to_string(), symbol("x", Statement::Pass(Pass { node: Node::new(12, 16) }), NodeType::Unknown));
    assert_eq!(table.len(), 2);
    let x = table.lookup_in_scope("x").expect("x is bound");
    assert_eq!(x.typ, NodeType::Unknown);
    assert_eq!(format!("{:?}", x.node), format!("{:?}", Statement::Pass(Pass { node: Node::new(12, 16) })));
    let y = table.lookup_in_scope("y").expect("y is bound");
    assert_eq!(y.typ, NodeType::Int);
    assert_eq!(format!("{:?}", y.node), format!("{:?}", assign("y", "2", 6)));
}

#[test]
fn names_are_found_by_the_key_they_were_added_under() {
    let mut table = SymbolTable::new(SymbolTableType::Module, 1);
    table.add_symbol("key".to_string(), symbol("other", assign("other", "1", 0), NodeType::Int));
    assert!(table.lookup_in_scope("other").is_none());
    assert_eq!(table.lookup_in_scope("key").expect("key is bound").name, "other");
}

#[test]
fn many_names_are_all_kept() {
    let mut table = SymbolTable::new(SymbolTableType::Module, 1);
    for k in 0..50usize {
        let name = format!("v{}", k);
        table.add_symbol(name.clone(), symbol(&name, assign(&name, "0", k), NodeType::Int));
    }
    assert_eq!(table.len(), 50);
    for k in 0..50usize {
        let name = format!("v{}", k);
        let found = table.lookup_in_scope(&name).expect("bound");
        assert_eq!(found.name, name);
        assert_eq!(format!("{:?}", found.node), format!("{:?}", assign(&name, "0", k)));
    }
    assert!(table.lookup_in_scope("v50").is_none());
}

#[test]
fn symbol_clone_is_a_deep_copy() {
    let first = symbol("x", assign("x", "1", 0), NodeType::Int);
    let copy = first.clone();
    assert_eq!(format!("{:?}", copy), format!("{:?}", first));
}
