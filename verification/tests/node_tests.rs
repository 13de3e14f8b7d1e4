use enderpy::ast::Node;

#[test]
fn node_new_keeps_both_offsets() {
    let node = Node::new(3, 10);
    assert_eq!(node.start, 3);
    assert_eq!(node.end, 10);
    assert!(node.end >= node.start);
}

#[test]
fn node_len_is_end_minus_start() {
    assert_eq!(Node::new(3, 10).len(), 7);
    assert_eq!(Node::new(0, 1).len(), 1);
    assert_eq!(Node::new(usize::MAX - 1, usize::MAX).len(), 1);
}

#[test]
fn node_of_no_bytes_has_length_zero() {
    assert_eq!(Node::new(5, 5).len(), 0);
    assert_eq!(Node::new(0, 0).len(), 0);
}

#[test]
fn node_covering_everything_has_the_largest_length() {
    assert_eq!(Node::new(0, usize::MAX).len(), usize::MAX);
}

#[test]
fn node_default_is_empty_at_the_start() {
    let node = Node::default();
    assert_eq!(node, Node::new(0, 0));
    assert_eq!(node.len(), 0);
}

#[test]
fn node_is_copied_and_compared_by_value() {
    let node = Node::new(2, 4);
    let copy = node;
    assert_eq!(node, copy);
    assert_ne!(node, Node::new(2, 5));
    assert_ne!(node, Node::new(1, 4));
}

#[test]
fn node_source_span_starts_at_start_and_has_the_length() {
    let span = Node::new(3, 10).source_span();
    assert_eq!(span.offset(), 3);
    assert_eq!(span.len(), 7);
}

#[test]
fn node_source_span_of_an_empty_node_is_empty() {
    let span = Node::new(12, 12).source_span();
    assert_eq!(span.offset(), 12);
    assert_eq!(span.len(), 0);
    assert!(span.is_empty());
}

#[test]
fn node_source_span_offset_is_not_the_length() {
    // start and length differ, so a span that mixed them up would show here
    let span = Node::new(100, 101).source_span();
    assert_eq!(span.offset(), 100);
    assert_eq!(span.len(), 1);
}
