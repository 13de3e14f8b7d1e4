use enderpy::ast::Node;
use enderpy::diagnostics::{ExpectToken, InvalidSyntax, UnexpectedToken, UnknownStatement};

#[test]
fn expect_token_message_and_label() {
    let d = ExpectToken(")", "]", Node::new(4, 5));
    assert_eq!(d.message(), "Expect token");
    assert_eq!(d.label(), "Expect `)` here, but found `]`");
}

#[test]
fn expect_token_points_at_its_node() {
    let d = ExpectToken("in", "on", Node::new(8, 10));
    assert_eq!(d.node(), Node::new(8, 10));
    assert_eq!(d.span().offset(), 8);
    assert_eq!(d.span().len(), 2);
}

#[test]
fn unexpected_token_message_and_label() {
    let d = UnexpectedToken(12, "else", Node::new(40, 44));
    assert_eq!(d.message(), "Unexpected token");
    assert_eq!(d.label(), "line: 12 Unexpected token `else`");
}

#[test]
fn unexpected_token_label_writes_the_line_in_decimal() {
    assert_eq!(UnexpectedToken(0, "x", Node::new(0, 1)).label(), "line: 0 Unexpected token `x`");
    assert_eq!(UnexpectedToken(7, "x", Node::new(0, 1)).label(), "line: 7 Unexpected token `x`");
    assert_eq!(UnexpectedToken(10, "x", Node::new(0, 1)).label(), "line: 10 Unexpected token `x`");
    assert_eq!(UnexpectedToken(1905, "x", Node::new(0, 1)).label(), "line: 1905 Unexpected token `x`");
    assert_eq!(
        UnexpectedToken(u32::MAX, "x", Node::new(0, 1)).label(),
        "line: 4294967295 Unexpected token `x`"
    );
}

#[test]
fn unexpected_token_points_at_its_node() {
    let d = UnexpectedToken(1, "!", Node::new(3, 4));
    assert_eq!(d.node(), Node::new(3, 4));
    assert_eq!(d.span().offset(), 3);
    assert_eq!(d.span().len(), 1);
}

#[test]
fn unknown_statement_message_and_label() {
    let d = UnknownStatement("frobnicate", Node::new(0, 10));
    assert_eq!(d.message(), "Unknown statement");
    assert_eq!(d.label(), "Unknown statement frobnicate");
    assert_eq!(d.node(), Node::new(0, 10));
    assert_eq!(d.span().offset(), 0);
    assert_eq!(d.span().len(), 10);
}

#[test]
fn invalid_syntax_message_and_label() {
    let d = InvalidSyntax("unterminated string".to_string(), Node::new(7, 30));
    assert_eq!(d.message(), "invalid syntax");
    assert_eq!(d.label(), "invalid syntax unterminated string");
    assert_eq!(d.node(), Node::new(7, 30));
    assert_eq!(d.span().offset(), 7);
    assert_eq!(d.span().len(), 23);
}

#[test]
fn invalid_syntax_with_an_empty_message() {
    let d = InvalidSyntax(String::new(), Node::new(1, 1));
    assert_eq!(d.label(), "invalid syntax ");
    assert!(d.span().is_empty());
}

#[test]
fn labels_keep_text_that_is_not_ascii() {
    let d = ExpectToken("»", "é", Node::new(0, 2));
    assert_eq!(d.label(), "Expect `»` here, but found `é`");
}
