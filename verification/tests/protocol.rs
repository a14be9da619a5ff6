use cool::ast::narrow::Narrow;
use cool::ast::protocol::{
    consume_all, consume_expression, consume_expressions, consume_name, consume_non_zero,
    consume_optional, consume_optional_expression, consume_optional_name, consume_required,
    Error,
};
use cool::ast::{AstNode, BinaryOp, Expr, Features, Ident, Type, UnaryOp};
use cool::util::interner::Interner;
use std::collections::VecDeque;

fn a_type(interner: &mut Interner, name: &str) -> Type {
    Type(Ident { name: interner.intern(name) })
}

#[test]
fn an_optional_value_of_another_kind_is_put_back() {
    let mut interner = Interner::with_capacity(4);
    let a = AstNode::Features(Features(Vec::new()));
    let b = AstNode::Expr(Expr::Int(2));
    let mut queue = VecDeque::from(vec![a, b]);
    let absent: Option<Type> = consume_optional(&mut queue);
    assert_eq!(absent, None);
    assert_eq!(queue.len(), 2);
    assert_eq!(queue[0], AstNode::Features(Features(Vec::new())));
    assert_eq!(queue[1], AstNode::Expr(Expr::Int(2)));
    let taken: Result<Features, Error> = consume_required(&mut queue);
    assert_eq!(taken, Ok(Features(Vec::new())));
    assert_eq!(queue.len(), 1);
    assert_eq!(queue[0], AstNode::Expr(Expr::Int(2)));
    let _ = a_type(&mut interner, "A");
}

#[test]
fn an_optional_value_of_the_kind_is_taken() {
    let mut interner = Interner::with_capacity(4);
    let mut queue = VecDeque::from(vec![
        AstNode::Type(a_type(&mut interner, "A")),
        AstNode::Expr(Expr::Bool(true)),
    ]);
    let taken: Option<Type> = consume_optional(&mut queue);
    assert_eq!(taken, Some(Type(Ident { name: interner.intern("A") })));
    assert_eq!(queue.len(), 1);
    let none: Option<Type> = consume_optional(&mut queue);
    assert_eq!(none, None);
    assert_eq!(queue.len(), 1);
    let mut empty: VecDeque<AstNode> = VecDeque::new();
    let nothing: Option<Expr> = consume_optional(&mut empty);
    assert_eq!(nothing, None);
    assert_eq!(empty.len(), 0);
}

#[test]
fn a_required_value_of_another_kind_comes_back_in_the_error() {
    let mut queue = VecDeque::from(vec![AstNode::Expr(Expr::Int(1)), AstNode::Expr(Expr::Int(2))]);
    let taken: Result<Type, Error> = consume_required(&mut queue);
    assert_eq!(taken, Err(Error::Unexpected(AstNode::Expr(Expr::Int(1)))));
    assert_eq!(queue.len(), 1);
    assert_eq!(queue[0], AstNode::Expr(Expr::Int(2)));
}

#[test]
fn a_required_value_that_is_missing_is_invalid_syntax() {
    let mut queue: VecDeque<AstNode> = VecDeque::new();
    let taken: Result<Expr, Error> = consume_required(&mut queue);
    assert_eq!(taken, Err(Error::InvalidSyntax));
    assert_eq!(queue.len(), 0);
    assert_eq!(consume_expression(&mut queue), Err(Error::InvalidSyntax));
    assert_eq!(consume_name(&mut queue), Err(Error::InvalidSyntax));
    assert_eq!(queue.len(), 0);
}

#[test]
fn a_name_is_taken_in_either_form() {
    let mut interner = Interner::with_capacity(2);
    let x = interner.intern("x");
    let plain = AstNode::Ident(Ident { name: interner.intern("x") });
    let inside = AstNode::Expr(Expr::Ident(Ident { name: interner.intern("x") }));
    let mut queue = VecDeque::from(vec![plain, inside, AstNode::Expr(Expr::Int(1))]);
    assert_eq!(consume_name(&mut queue).map(|name| name.name), Ok(interner.intern("x")));
    assert_eq!(consume_optional_name(&mut queue).map(|name| name.name), Some(x));
    assert_eq!(consume_optional_name(&mut queue), None);
    assert_eq!(queue.len(), 1);
    assert_eq!(consume_name(&mut queue), Err(Error::Unexpected(AstNode::Expr(Expr::Int(1)))));
    assert_eq!(queue.len(), 0);
}

#[test]
fn a_plain_name_is_an_expression_where_one_is_expected() {
    let mut interner = Interner::with_capacity(2);
    let mut queue = VecDeque::from(vec![
        AstNode::Ident(Ident { name: interner.intern("y") }),
        AstNode::Expr(Expr::Bool(true)),
        AstNode::UnaryOp(UnaryOp::Not),
        AstNode::Ident(Ident { name: interner.intern("z") }),
    ]);
    assert_eq!(
        consume_expression(&mut queue),
        Ok(Expr::Ident(Ident { name: interner.intern("y") }))
    );
    assert_eq!(consume_optional_expression(&mut queue), Some(Expr::Bool(true)));
    assert_eq!(consume_optional_expression(&mut queue), None);
    assert_eq!(queue.len(), 2);
    assert_eq!(
        consume_expression(&mut queue),
        Err(Error::Unexpected(AstNode::UnaryOp(UnaryOp::Not)))
    );
    assert_eq!(
        consume_optional_expression(&mut queue),
        Some(Expr::Ident(Ident { name: interner.intern("z") }))
    );
    let list = VecDeque::from(vec![
        AstNode::Ident(Ident { name: interner.intern("y") }),
        AstNode::Expr(Expr::Int(3)),
    ]);
    assert_eq!(
        consume_expressions(list),
        Ok(vec![Expr::Ident(Ident { name: interner.intern("y") }), Expr::Int(3)])
    );
    let wrong = VecDeque::from(vec![
        AstNode::Expr(Expr::Int(3)),
        AstNode::BinaryOp(BinaryOp::Add),
        AstNode::UnaryOp(UnaryOp::Not),
    ]);
    assert_eq!(
        consume_expressions(wrong),
        Err(vec![
            Error::Unexpected(AstNode::BinaryOp(BinaryOp::Add)),
            Error::Unexpected(AstNode::UnaryOp(UnaryOp::Not)),
        ])
    );
    assert_eq!(consume_expressions(VecDeque::new()), Ok(Vec::new()));
}

#[test]
fn all_items_are_taken_in_order() {
    let queue = VecDeque::from(vec![
        AstNode::Expr(Expr::Int(1)),
        AstNode::Expr(Expr::Bool(false)),
        AstNode::Expr(Expr::Int(3)),
    ]);
    let taken: Result<Vec<Expr>, Vec<Error>> = consume_all(queue);
    assert_eq!(taken, Ok(vec![Expr::Int(1), Expr::Bool(false), Expr::Int(3)]));
    let none: Result<Vec<Expr>, Vec<Error>> = consume_all(VecDeque::new());
    assert_eq!(none, Ok(Vec::new()));
}

#[test]
fn each_item_of_another_kind_is_an_error() {
    let queue = VecDeque::from(vec![
        AstNode::UnaryOp(UnaryOp::Not),
        AstNode::Expr(Expr::Int(1)),
        AstNode::BinaryOp(BinaryOp::Add),
    ]);
    let taken: Result<Vec<Expr>, Vec<Error>> = consume_all(queue);
    assert_eq!(
        taken,
        Err(vec![
            Error::Unexpected(AstNode::UnaryOp(UnaryOp::Not)),
            Error::Unexpected(AstNode::BinaryOp(BinaryOp::Add)),
        ])
    );
}

#[test]
fn a_list_that_must_not_be_empty() {
    let none: Result<Vec<Expr>, Vec<Error>> = consume_non_zero(VecDeque::new());
    assert_eq!(none, Err(vec![Error::EmptyConstruct]));
    let one: Result<Vec<Expr>, Vec<Error>> =
        consume_non_zero(VecDeque::from(vec![AstNode::Expr(Expr::Int(1))]));
    assert_eq!(one, Ok(vec![Expr::Int(1)]));
    let wrong: Result<Vec<Expr>, Vec<Error>> =
        consume_non_zero(VecDeque::from(vec![AstNode::UnaryOp(UnaryOp::IsVoid)]));
    assert_eq!(wrong, Err(vec![Error::Unexpected(AstNode::UnaryOp(UnaryOp::IsVoid))]));
}

#[test]
fn narrowing_gives_the_node_back_when_it_fails() {
    let node = AstNode::Expr(Expr::Int(9));
    let back = match Type::narrow(node) {
        Ok(ty) => panic!("a type: {:?}", ty),
        Err(node) => node,
    };
    assert_eq!(back, AstNode::Expr(Expr::Int(9)));
    assert_eq!(Expr::narrow(back), Ok(Expr::Int(9)));
    assert_eq!(Expr::Bool(true).widen(), AstNode::Expr(Expr::Bool(true)));
    assert_eq!(BinaryOp::narrow(BinaryOp::Mul.widen()), Ok(BinaryOp::Mul));
}
