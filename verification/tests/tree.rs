use cool::ast::bindings::{NodeInfo, Tree, TreeBuilder};
use cool::ast::extract::{lexeme, string, trivial, Literal};
use cool::language::Cool;

fn token(kind: u16, start_byte: usize, end_byte: usize) -> NodeInfo {
    NodeInfo {
        kind,
        missing: false,
        start_byte,
        end_byte,
        start_row: 2,
        start_column: start_byte,
        end_row: 3,
        end_column: end_byte,
    }
}

fn sum_tree() -> Tree {
    // 1 + 2 as a binary expression below a block.
    let mut builder = TreeBuilder::new();
    assert!(builder.open(token(74, 0, 5)));
    assert!(builder.open(token(85, 0, 5)));
    assert!(builder.open(token(45, 0, 1)));
    assert!(builder.close());
    assert!(builder.open(token(39, 2, 3)));
    assert!(builder.close());
    assert!(builder.open(token(45, 4, 5)));
    assert!(builder.close());
    assert!(builder.close());
    assert!(builder.close());
    builder.finish().expect("a tree")
}

#[test]
fn a_tree_is_walked_by_first_child_and_next_sibling() {
    let tree = sum_tree();
    assert_eq!(tree.len(), 5);
    let root = tree.get_root();
    assert_eq!(root.rule(), Cool::Block);
    assert_eq!(root.descendant_count(), 5);
    assert!(root.parent().is_none());
    assert!(root.next_sibling().is_none());
    let sum = root.first_child().expect("the block has a child");
    assert_eq!(sum.rule(), Cool::BinaryExpression);
    assert_eq!(sum.descendant_count(), 4);
    assert!(sum.next_sibling().is_none());
    assert_eq!(sum.parent().expect("a parent").rule(), Cool::Block);
    let left = sum.child(0).expect("the left operand");
    let plus = sum.child(1).expect("the operator");
    let right = sum.child(2).expect("the right operand");
    assert!(sum.child(3).is_none());
    assert_eq!(left.rule(), Cool::IntegerLiteral);
    assert_eq!(plus.rule(), Cool::Plus);
    assert_eq!(right.rule(), Cool::IntegerLiteral);
    assert_eq!(left.descendant_count(), 1);
    assert!(left.first_child().is_none());
    assert_eq!(left.next_sibling().expect("a sibling").data(), plus.data());
    assert_eq!(plus.next_sibling().expect("a sibling").data(), right.data());
    assert!(right.next_sibling().is_none());
    assert_eq!(right.parent().expect("a parent").data(), sum.data());
}

#[test]
fn children_and_ancestors() {
    let tree = sum_tree();
    let root = tree.get_root();
    let sum = root.first_child().unwrap();
    let plus = sum.child(1).unwrap();
    let kinds: Vec<Cool> = sum.children().iter().map(|child| child.rule()).collect();
    assert_eq!(kinds, vec![Cool::IntegerLiteral, Cool::Plus, Cool::IntegerLiteral]);
    assert_eq!(sum.child_count(), 3);
    assert_eq!(root.child_count(), 1);
    assert_eq!(plus.child_count(), 0);
    assert!(plus.children().is_empty());
    assert!(sum.is_child(39));
    assert!(sum.is_child(45));
    assert!(!sum.is_child(85));
    assert!(!plus.is_child(39));
    assert!(root.is_child(85));
    assert!(sum.has_sibling(39));
    assert!(!sum.has_sibling(74));
    assert!(!root.has_sibling(85));
    assert_eq!(plus.get_parent(0).unwrap().data(), plus.data());
    assert_eq!(plus.get_parent(1).unwrap().data(), sum.data());
    assert_eq!(plus.get_parent(2).unwrap().data(), root.data());
    assert!(plus.get_parent(3).is_none());
    assert!(root.get_parent(1).is_none());
}

#[test]
fn a_span_counts_rows_and_columns_from_one() {
    let tree = sum_tree();
    let plus = tree.get_root().first_child().unwrap().child(1).unwrap();
    assert_eq!(plus.span(), (3, 3, 4, 4));
    assert!(!plus.is_missing());
    assert_eq!(plus.start_position(), (2, 2));
    assert_eq!(plus.end_position(), (3, 3));
    assert_eq!(plus.start_row(), 2);
    assert_eq!(plus.end_row(), 3);
    assert_eq!(plus.start_byte(), 2);
    assert_eq!(plus.end_byte(), 3);
    assert_eq!(plus.id(), 3);
    assert_eq!(tree.get_root().id(), 0);
}

#[test]
fn a_cursor_stays_below_the_node_it_was_reset_to() {
    let tree = sum_tree();
    let root = tree.get_root();
    let mut cursor = root.cursor();
    assert!(!cursor.goto_next_sibling());
    assert!(cursor.goto_first_child());
    assert_eq!(cursor.node().rule(), Cool::BinaryExpression);
    assert!(cursor.goto_first_child());
    assert!(!cursor.goto_first_child());
    assert!(cursor.goto_next_sibling());
    assert_eq!(cursor.node().rule(), Cool::Plus);
    assert!(cursor.goto_next_sibling());
    assert!(!cursor.goto_next_sibling());
    let plus = root.first_child().unwrap().child(1).unwrap();
    cursor.reset(&plus);
    assert_eq!(cursor.node().rule(), Cool::Plus);
    assert!(!cursor.goto_next_sibling());
    assert!(!cursor.goto_first_child());
}

#[test]
fn a_builder_takes_one_root_and_balanced_nodes() {
    let mut builder = TreeBuilder::new();
    assert!(!builder.close());
    assert!(builder.open(token(60, 0, 0)));
    assert!(builder.close());
    assert!(!builder.open(token(60, 0, 0)));
    assert!(!builder.close());
    assert!(builder.finish().is_some());

    let empty = TreeBuilder::new();
    assert!(empty.finish().is_none());

    let mut open = TreeBuilder::new();
    assert!(open.open(token(60, 0, 0)));
    assert!(open.open(token(61, 0, 0)));
    assert!(open.close());
    assert!(open.finish().is_none());
}

#[test]
fn a_builder_refuses_positions_that_do_not_fit() {
    let mut builder = TreeBuilder::new();
    let mut info = token(60, 0, 0);
    info.end_row = usize::MAX;
    assert!(!builder.open(info));
    info.end_row = usize::MAX - 1;
    assert!(builder.open(info));
    assert!(builder.close());
    let tree = builder.finish().expect("a tree");
    assert_eq!(tree.get_root().span(), (3, 1, usize::MAX, 1));
}

#[test]
fn the_parser_marks_what_it_made_up() {
    let src = b"class A { x : ; };";
    let tree = Tree::new(src).expect("a tree");
    let root = tree.get_root();
    assert_eq!(root.rule(), Cool::SourceFile);
    assert_eq!(root.descendant_count(), tree.len());
    let mut missing = 0;
    let mut stack = vec![root];
    while let Some(node) = stack.pop() {
        if node.is_missing() {
            missing += 1;
            assert_eq!(lexeme(src, &node), "");
        }
        let mut child = node.first_child();
        while let Some(at) = child {
            stack.push(at);
            child = at.next_sibling();
        }
    }
    assert_eq!(missing, 1);
}

#[test]
fn the_text_of_a_node() {
    let src = "caf\u{e9} 42".as_bytes();
    let mut builder = TreeBuilder::new();
    assert!(builder.open(token(74, 0, 8)));
    assert!(builder.open(token(55, 0, 5)));
    assert!(builder.close());
    assert!(builder.open(token(45, 6, 8)));
    assert!(builder.close());
    assert!(builder.open(token(55, 0, 4)));
    assert!(builder.close());
    assert!(builder.open(token(55, 6, 9)));
    assert!(builder.close());
    assert!(builder.open(token(55, 5, 3)));
    assert!(builder.close());
    assert!(builder.close());
    let tree = builder.finish().expect("a tree");
    let root = tree.get_root();
    let word = root.child(0).unwrap();
    let number = root.child(1).unwrap();
    let cut = root.child(2).unwrap();
    let outside = root.child(3).unwrap();
    let backwards = root.child(4).unwrap();
    assert_eq!(lexeme(src, &word), "caf\u{e9}");
    assert_eq!(word.utf8_text(src), Some("caf\u{e9}"));
    assert_eq!(lexeme(src, &number), "42");
    assert_eq!(cut.utf8_text(src), None);
    assert_eq!(lexeme(src, &cut), "");
    assert_eq!(outside.utf8_text(src), None);
    assert_eq!(backwards.utf8_text(src), None);
    assert_eq!(trivial::<u64>(src, &number), Some(42));
    assert_eq!(trivial::<u64>(src, &word), None);
    assert_eq!(trivial::<u64>(src, &outside), None);
    assert_eq!(trivial::<bool>(src, &number), None);
    assert_eq!(string(src, &root), String::from(""));
    assert_eq!(string(src, &word), String::from(""));
}

#[test]
fn the_content_of_a_string() {
    // "\tab": an escape comes before the content.
    let src = b"\"\\tab\"";
    let mut builder = TreeBuilder::new();
    assert!(builder.open(token(89, 0, 6)));
    assert!(builder.open(token(46, 0, 1)));
    assert!(builder.close());
    assert!(builder.open(token(48, 1, 3)));
    assert!(builder.close());
    assert!(builder.open(token(58, 3, 5)));
    assert!(builder.close());
    assert!(builder.open(token(47, 5, 6)));
    assert!(builder.close());
    assert!(builder.close());
    let tree = builder.finish().expect("a tree");
    assert_eq!(src.len(), 6);
    assert_eq!(string(src, &tree.get_root()), String::from("ab"));

    let empty = b"\"\"";
    let mut builder = TreeBuilder::new();
    assert!(builder.open(token(89, 0, 2)));
    assert!(builder.open(token(46, 0, 1)));
    assert!(builder.close());
    assert!(builder.open(token(47, 1, 2)));
    assert!(builder.close());
    assert!(builder.close());
    let tree = builder.finish().expect("a tree");
    assert_eq!(string(empty, &tree.get_root()), String::from(""));
}

#[test]
fn numbers_are_read_in_base_ten() {
    assert_eq!(u64::parse(b"0"), Some(0));
    assert_eq!(u64::parse(b"007"), Some(7));
    assert_eq!(u64::parse(b"+15"), Some(15));
    assert_eq!(u64::parse(b"18446744073709551615"), Some(u64::MAX));
    assert_eq!(u64::parse(b"18446744073709551616"), None);
    assert_eq!(u64::parse(b"99999999999999999999999"), None);
    assert_eq!(u64::parse(b""), None);
    assert_eq!(u64::parse(b"+"), None);
    assert_eq!(u64::parse(b"-1"), None);
    assert_eq!(u64::parse(b"1 "), None);
    assert_eq!(u64::parse(b"++1"), None);
    assert_eq!(u64::parse(b"12a"), None);
    assert_eq!(u64::parse(b"1844674407370955161a"), None);
}

#[test]
fn truth_values_are_read_exactly() {
    assert_eq!(bool::parse(b"true"), Some(true));
    assert_eq!(bool::parse(b"false"), Some(false));
    assert_eq!(bool::parse(b"True"), None);
    assert_eq!(bool::parse(b"true "), None);
    assert_eq!(bool::parse(b"fals"), None);
    assert_eq!(bool::parse(b""), None);
}
