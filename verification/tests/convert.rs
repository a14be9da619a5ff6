use cool::ast::bindings::{NodeInfo, Tree, TreeBuilder};
use cool::ast::converter::{convert, operator_of};
use cool::ast::protocol::Error;
use cool::ast::{AstNode, BinaryOp, Expr, Feature, Program, UnaryOp};
use cool::language::Cool;
use cool::util::interner::Interner;
use cool::util::span::Spanned;

fn parse(src: &[u8]) -> (Result<Program, (Program, Vec<Spanned<Error>>)>, Interner) {
    let tree = Tree::new(src).expect("the parser gives a tree");
    let mut interner = Interner::with_capacity(64);
    let result = convert(src, &tree, &mut interner);
    (result, interner)
}

fn body_of_first_method(program: &Program) -> &Expr {
    match &program.classes[0].features.0[0] {
        Feature::Method(method) => &method.body,
        other => panic!("not a method: {:?}", other),
    }
}

fn leaf(kind: u16, start_byte: usize, end_byte: usize) -> NodeInfo {
    NodeInfo {
        kind,
        missing: false,
        start_byte,
        end_byte,
        start_row: 0,
        start_column: start_byte,
        end_row: 0,
        end_column: end_byte,
    }
}

#[test]
fn converts_a_class_with_one_method() {
    let src = b"class Main inherits IO { main(): Object { 1 + 2 }; };";
    let (result, interner) = parse(src);
    let program = match result {
        Ok(program) => program,
        Err((_, errors)) => panic!("errors: {:?}", errors),
    };
    assert_eq!(program.classes.len(), 1);
    let class = &program.classes[0];
    assert_eq!(interner.lookup(&class.name.0.name), "Main");
    let parent = class.inherits.as_ref().expect("the class names a parent");
    assert_eq!(interner.lookup(&parent.0.name), "IO");
    assert_eq!(class.features.0.len(), 1);
    match &class.features.0[0] {
        Feature::Method(method) => {
            assert_eq!(interner.lookup(&method.name.name), "main");
            assert_eq!(method.params.0.len(), 0);
            assert_eq!(interner.lookup(&method.return_ty.0.name), "Object");
            assert_eq!(
                method.body,
                Expr::Binary {
                    op: BinaryOp::Add,
                    left: Box::new(Expr::Int(1)),
                    right: Box::new(Expr::Int(2)),
                }
            );
        }
        other => panic!("not a method: {:?}", other),
    }
}

#[test]
fn classes_come_in_source_order() {
    let src = b"class A { x : Int <- 5; }; class B { }; class C inherits A { };";
    let (result, interner) = parse(src);
    let program = result.expect("no errors");
    let names: Vec<&str> =
        program.classes.iter().map(|class| interner.lookup(&class.name.0.name)).collect();
    assert_eq!(names, vec!["A", "B", "C"]);
    assert!(program.classes[0].inherits.is_none());
    assert!(program.classes[1].inherits.is_none());
    let parent = program.classes[2].inherits.as_ref().expect("C names a parent");
    assert_eq!(parent.0.name, program.classes[0].name.0.name);
    match &program.classes[0].features.0[0] {
        Feature::Attribute(attribute) => {
            assert_eq!(interner.lookup(&attribute.name.name), "x");
            assert_eq!(interner.lookup(&attribute.ty.0.name), "Int");
            assert_eq!(attribute.initializer, Some(Expr::Int(5)));
        }
        other => panic!("not an attribute: {:?}", other),
    }
    assert_eq!(program.classes[1].features.0.len(), 0);
}

#[test]
fn an_attribute_without_initializer_has_none() {
    let (result, _) = parse(b"class A { x : Int; };");
    let program = result.expect("no errors");
    match &program.classes[0].features.0[0] {
        Feature::Attribute(attribute) => assert_eq!(attribute.initializer, None),
        other => panic!("not an attribute: {:?}", other),
    }
}

#[test]
fn an_empty_block_is_left_out_with_one_error() {
    let src = b"class A { f(): Int { { { ; }; 1; } }; };";
    let (result, _) = parse(src);
    let (program, errors) = result.expect_err("the empty block is an error");
    assert_eq!(errors.len(), 1);
    assert_eq!(errors[0].inner, Error::EmptyConstruct);
    assert_eq!(errors[0].span, (1, 24, 1, 29));
    assert_eq!(body_of_first_method(&program), &Expr::Block { body: vec![Expr::Int(1)] });
}

#[test]
fn an_empty_source_is_an_empty_construct() {
    let (result, interner) = parse(b"");
    let (program, errors) = result.expect_err("no class");
    assert_eq!(program.classes.len(), 0);
    assert_eq!(errors.len(), 1);
    assert_eq!(errors[0].inner, Error::EmptyConstruct);
    assert_eq!(errors[0].span, (1, 1, 1, 1));
    assert_eq!(interner.intern_count(), 0);
}

#[test]
fn a_malformed_attribute_leaves_the_method_alone() {
    let src = b"class A { x : ; f(): Int { 1 }; };";
    let (result, interner) = parse(src);
    let (program, errors) = result.expect_err("the attribute lacks its type");
    // One error for the type that the parser made up, one for the attribute
    // that lacks it; none for the method or the class.
    assert_eq!(errors.len(), 2);
    assert_eq!(errors[0].inner, Error::InvalidSyntax);
    assert_eq!(errors[0].span, (1, 14, 1, 14));
    assert_eq!(errors[1].inner, Error::InvalidSyntax);
    assert_eq!(errors[1].span, (1, 11, 1, 14));
    assert_eq!(program.classes.len(), 1);
    let features = &program.classes[0].features.0;
    assert_eq!(features.len(), 1);
    match &features[0] {
        Feature::Method(method) => {
            assert_eq!(interner.lookup(&method.name.name), "f");
            assert_eq!(method.params.0.len(), 0);
            assert_eq!(interner.lookup(&method.return_ty.0.name), "Int");
            assert_eq!(method.body, Expr::Int(1));
        }
        other => panic!("not a method: {:?}", other),
    }
}

#[test]
fn an_attribute_of_the_wrong_shape_costs_one_error() {
    // class A { x 1; f(): Int { 2 }; }: the attribute holds a number where
    // its type must stand.
    let src = b"A x 1 f Int 2";
    let mut builder = TreeBuilder::new();
    assert!(builder.open(leaf(60, 0, 13)));
    assert!(builder.open(leaf(61, 0, 13)));
    assert!(builder.open(leaf(56, 0, 1)));
    assert!(builder.close());
    assert!(builder.open(leaf(62, 2, 13)));
    assert!(builder.open(leaf(63, 2, 5)));
    assert!(builder.open(leaf(101, 2, 3)));
    assert!(builder.close());
    assert!(builder.open(leaf(45, 4, 5)));
    assert!(builder.close());
    assert!(builder.close());
    assert!(builder.open(leaf(64, 6, 13)));
    assert!(builder.open(leaf(55, 6, 7)));
    assert!(builder.close());
    assert!(builder.open(leaf(65, 7, 7)));
    assert!(builder.close());
    assert!(builder.open(leaf(12, 8, 11)));
    assert!(builder.close());
    assert!(builder.open(leaf(45, 12, 13)));
    assert!(builder.close());
    assert!(builder.close());
    assert!(builder.close());
    assert!(builder.close());
    assert!(builder.close());
    let tree = builder.finish().expect("a tree");
    let mut interner = Interner::with_capacity(4);
    let (program, errors) = convert(src, &tree, &mut interner).expect_err("one error");
    assert_eq!(errors.len(), 1);
    assert_eq!(errors[0].inner, Error::Unexpected(AstNode::Expr(Expr::Int(1))));
    assert_eq!(errors[0].span, (1, 3, 1, 6));
    assert_eq!(program.classes.len(), 1);
    let features = &program.classes[0].features.0;
    assert_eq!(features.len(), 1);
    match &features[0] {
        Feature::Method(method) => {
            assert_eq!(interner.lookup(&method.name.name), "f");
            assert_eq!(method.params.0.len(), 0);
            assert_eq!(interner.lookup(&method.return_ty.0.name), "Int");
            assert_eq!(method.body, Expr::Int(2));
        }
        other => panic!("not a method: {:?}", other),
    }
}

#[test]
fn a_child_that_is_missing_is_invalid_syntax() {
    // A pair of parentheses around nothing.
    let src = b"()";
    let mut builder = TreeBuilder::new();
    assert!(builder.open(leaf(86, 0, 2)));
    assert!(builder.open(leaf(8, 0, 1)));
    assert!(builder.close());
    assert!(builder.open(leaf(10, 1, 2)));
    assert!(builder.close());
    assert!(builder.close());
    let tree = builder.finish().expect("a tree");
    let mut interner = Interner::with_capacity(0);
    let (_, errors) = convert(src, &tree, &mut interner).expect_err("no expression");
    assert_eq!(errors.len(), 1);
    assert_eq!(errors[0].inner, Error::InvalidSyntax);
    assert_eq!(errors[0].span, (1, 1, 1, 3));
}

#[test]
fn an_operator_that_is_missing_is_invalid_syntax() {
    // A binary expression with one child.
    let src = b"1";
    let mut builder = TreeBuilder::new();
    assert!(builder.open(leaf(85, 0, 1)));
    assert!(builder.open(leaf(45, 0, 1)));
    assert!(builder.close());
    assert!(builder.close());
    let tree = builder.finish().expect("a tree");
    let mut interner = Interner::with_capacity(0);
    let (_, errors) = convert(src, &tree, &mut interner).expect_err("no operator");
    assert_eq!(errors.len(), 1);
    assert_eq!(errors[0].inner, Error::InvalidSyntax);
}

#[test]
fn an_error_node_is_invalid_syntax() {
    let (result, _) = parse(b"class A inherits { };");
    let (program, errors) = result.expect_err("the parent is missing");
    assert_eq!(errors.len(), 1);
    assert_eq!(errors[0].inner, Error::InvalidSyntax);
    assert_eq!(errors[0].span, (1, 9, 1, 17));
    assert_eq!(program.classes.len(), 1);
    assert!(program.classes[0].inherits.is_none());
}

#[test]
fn a_name_below_an_expression_is_an_expression() {
    let src = b"class A { f(): Int { x <- 1 }; g(): Bool { not x }; h(): Bool { isvoid y }; i(): Int { ~x }; };";
    let (result, interner) = parse(src);
    let program = match result {
        Ok(program) => program,
        Err((_, errors)) => panic!("errors: {:?}", errors),
    };
    let bodies: Vec<&Expr> = program.classes[0]
        .features
        .0
        .iter()
        .map(|feature| match feature {
            Feature::Method(method) => &method.body,
            other => panic!("not a method: {:?}", other),
        })
        .collect();
    match bodies[0] {
        Expr::Assignment { name, right } => {
            assert_eq!(interner.lookup(&name.name), "x");
            assert_eq!(**right, Expr::Int(1));
        }
        other => panic!("not an assignment: {:?}", other),
    }
    match bodies[1] {
        Expr::Unary { op: UnaryOp::Not, right } => match &**right {
            Expr::Ident(name) => assert_eq!(interner.lookup(&name.name), "x"),
            other => panic!("not a name: {:?}", other),
        },
        other => panic!("not a negation: {:?}", other),
    }
    match bodies[2] {
        Expr::Unary { op: UnaryOp::IsVoid, right } => match &**right {
            Expr::Ident(name) => assert_eq!(interner.lookup(&name.name), "y"),
            other => panic!("not a name: {:?}", other),
        },
        other => panic!("not an isvoid: {:?}", other),
    }
    match bodies[3] {
        Expr::Unary { op: UnaryOp::Complement, right } => match &**right {
            Expr::Ident(name) => assert_eq!(interner.lookup(&name.name), "x"),
            other => panic!("not a name: {:?}", other),
        },
        other => panic!("not a complement: {:?}", other),
    }
}

#[test]
fn a_name_is_an_expression_where_one_is_expected() {
    let src = b"class A { a : Int <- b; f(c: Int): Int { c }; g(): Int { let d : Int <- c, e : Int in d }; h(): Object { case a of x : Int => x; y : Object => self; esac }; };";
    let (result, interner) = parse(src);
    let program = match result {
        Ok(program) => program,
        Err((_, errors)) => panic!("errors: {:?}", errors),
    };
    let features = &program.classes[0].features.0;
    assert_eq!(features.len(), 4);
    match &features[0] {
        Feature::Attribute(attribute) => match &attribute.initializer {
            Some(Expr::Ident(name)) => assert_eq!(interner.lookup(&name.name), "b"),
            other => panic!("not a name: {:?}", other),
        },
        other => panic!("not an attribute: {:?}", other),
    }
    match &features[1] {
        Feature::Method(method) => match &method.body {
            Expr::Ident(name) => assert_eq!(interner.lookup(&name.name), "c"),
            other => panic!("not a name: {:?}", other),
        },
        other => panic!("not a method: {:?}", other),
    }
    match &features[2] {
        Feature::Method(method) => match &method.body {
            Expr::Let { bindings, body } => {
                assert_eq!(bindings.0.len(), 2);
                assert_eq!(interner.lookup(&bindings.0[0].name.name), "d");
                match &bindings.0[0].right {
                    Some(Expr::Ident(name)) => assert_eq!(interner.lookup(&name.name), "c"),
                    other => panic!("not a name: {:?}", other),
                }
                assert_eq!(bindings.0[1].right, None);
                match &**body {
                    Expr::Ident(name) => assert_eq!(interner.lookup(&name.name), "d"),
                    other => panic!("not a name: {:?}", other),
                }
            }
            other => panic!("not a let: {:?}", other),
        },
        other => panic!("not a method: {:?}", other),
    }
    match &features[3] {
        Feature::Method(method) => match &method.body {
            Expr::Case { value, body } => {
                match &**value {
                    Expr::Ident(name) => assert_eq!(interner.lookup(&name.name), "a"),
                    other => panic!("not a name: {:?}", other),
                }
                assert_eq!(body.len(), 2);
                assert_eq!(interner.lookup(&body[0].pat.name.name), "x");
                assert_eq!(interner.lookup(&body[0].pat.ty.0.name), "Int");
                match &*body[0].value {
                    Expr::Ident(name) => assert_eq!(interner.lookup(&name.name), "x"),
                    other => panic!("not a name: {:?}", other),
                }
                match &*body[1].value {
                    Expr::Ident(name) => assert_eq!(interner.lookup(&name.name), "self"),
                    other => panic!("not a name: {:?}", other),
                }
            }
            other => panic!("not a case: {:?}", other),
        },
        other => panic!("not a method: {:?}", other),
    }
}

#[test]
fn dispatches_have_receivers_and_arguments() {
    let src = b"class A { f(): Object { g(1, x) }; h(): Object { x.g() }; i(): Object { (1)@Int.g(true) }; j(): Object { self.f().h(y) }; };";
    let (result, interner) = parse(src);
    let program = match result {
        Ok(program) => program,
        Err((_, errors)) => panic!("errors: {:?}", errors),
    };
    let bodies: Vec<&Expr> = program.classes[0]
        .features
        .0
        .iter()
        .map(|feature| match feature {
            Feature::Method(method) => &method.body,
            other => panic!("not a method: {:?}", other),
        })
        .collect();
    match bodies[0] {
        Expr::Dispatch { qualifier: None, method, args } => {
            assert_eq!(interner.lookup(&method.name), "g");
            assert_eq!(args.len(), 2);
            assert_eq!(args[0], Expr::Int(1));
            match &args[1] {
                Expr::Ident(name) => assert_eq!(interner.lookup(&name.name), "x"),
                other => panic!("not a name: {:?}", other),
            }
        }
        other => panic!("not a plain dispatch: {:?}", other),
    }
    match bodies[1] {
        Expr::Dispatch { qualifier: Some(qualifier), method, args } => {
            assert_eq!(interner.lookup(&method.name), "g");
            assert_eq!(args.len(), 0);
            assert!(qualifier.parent.is_none());
            match &*qualifier.value {
                Expr::Ident(name) => assert_eq!(interner.lookup(&name.name), "x"),
                other => panic!("not a name: {:?}", other),
            }
        }
        other => panic!("not a dispatch on a receiver: {:?}", other),
    }
    match bodies[2] {
        Expr::Dispatch { qualifier: Some(qualifier), method, args } => {
            assert_eq!(interner.lookup(&method.name), "g");
            assert_eq!(args, &vec![Expr::Bool(true)]);
            let parent = qualifier.parent.as_ref().expect("the call is bound to a class");
            assert_eq!(interner.lookup(&parent.0.name), "Int");
            assert_eq!(*qualifier.value, Expr::Paren { value: Box::new(Expr::Int(1)) });
        }
        other => panic!("not a bound dispatch: {:?}", other),
    }
    match bodies[3] {
        Expr::Dispatch { qualifier: Some(qualifier), method, args } => {
            assert_eq!(interner.lookup(&method.name), "h");
            assert_eq!(args.len(), 1);
            match &*qualifier.value {
                Expr::Dispatch { qualifier: Some(inner), method, args } => {
                    assert_eq!(interner.lookup(&method.name), "f");
                    assert_eq!(args.len(), 0);
                    match &*inner.value {
                        Expr::Ident(name) => assert_eq!(interner.lookup(&name.name), "self"),
                        other => panic!("not a name: {:?}", other),
                    }
                }
                other => panic!("not a dispatch: {:?}", other),
            }
        }
        other => panic!("not a dispatch on a receiver: {:?}", other),
    }
}

#[test]
fn a_number_that_does_not_fit_is_invalid_syntax() {
    let (result, _) = parse(b"class A { f(): Int { 99999999999999999999999 }; };");
    let (program, errors) = result.expect_err("the number is too large");
    // One error for the number, one for the method that lacks its body.
    assert_eq!(errors.len(), 2);
    assert_eq!(errors[0].inner, Error::InvalidSyntax);
    assert_eq!(errors[0].span, (1, 22, 1, 45));
    assert_eq!(errors[1].inner, Error::InvalidSyntax);
    assert_eq!(errors[1].span, (1, 11, 1, 47));
    assert_eq!(program.classes[0].features.0.len(), 0);
}

#[test]
fn the_largest_number_fits() {
    let (result, _) = parse(b"class A { f(): Int { 18446744073709551615 }; };");
    let program = result.expect("no errors");
    assert_eq!(body_of_first_method(&program), &Expr::Int(u64::MAX));
}

#[test]
fn literals_and_operators() {
    let src = b"class A { f(): Bool { not isvoid ~ (true) }; g(): Int { 7 * 2 / 3 - 4 }; h(): Bool { 1 <= 2 }; i(): Bool { 1 < 2 }; j(): Bool { false = true }; };";
    let (result, _) = parse(src);
    let program = result.expect("no errors");
    let bodies: Vec<&Expr> = program.classes[0]
        .features
        .0
        .iter()
        .map(|feature| match feature {
            Feature::Method(method) => &method.body,
            other => panic!("not a method: {:?}", other),
        })
        .collect();
    assert_eq!(
        bodies[0],
        &Expr::Unary {
            op: UnaryOp::Not,
            right: Box::new(Expr::Unary {
                op: UnaryOp::IsVoid,
                right: Box::new(Expr::Unary {
                    op: UnaryOp::Complement,
                    right: Box::new(Expr::Paren { value: Box::new(Expr::Bool(true)) }),
                }),
            }),
        }
    );
    assert_eq!(
        bodies[1],
        &Expr::Binary {
            op: BinaryOp::Sub,
            left: Box::new(Expr::Binary {
                op: BinaryOp::Div,
                left: Box::new(Expr::Binary {
                    op: BinaryOp::Mul,
                    left: Box::new(Expr::Int(7)),
                    right: Box::new(Expr::Int(2)),
                }),
                right: Box::new(Expr::Int(3)),
            }),
            right: Box::new(Expr::Int(4)),
        }
    );
    assert_eq!(
        bodies[2],
        &Expr::Binary {
            op: BinaryOp::Lte,
            left: Box::new(Expr::Int(1)),
            right: Box::new(Expr::Int(2)),
        }
    );
    assert_eq!(
        bodies[3],
        &Expr::Binary {
            op: BinaryOp::Lt,
            left: Box::new(Expr::Int(1)),
            right: Box::new(Expr::Int(2)),
        }
    );
    assert_eq!(
        bodies[4],
        &Expr::Binary {
            op: BinaryOp::Eq,
            left: Box::new(Expr::Bool(false)),
            right: Box::new(Expr::Bool(true)),
        }
    );
}

#[test]
fn conditionals_loops_and_new() {
    let src = b"class A { f(): Object { if true then 1 else 2 fi }; g(): Object { while false loop new A pool }; };";
    let (result, interner) = parse(src);
    let program = result.expect("no errors");
    assert_eq!(
        body_of_first_method(&program),
        &Expr::Conditional {
            condition: Box::new(Expr::Bool(true)),
            consequence: Box::new(Expr::Int(1)),
            alternative: Box::new(Expr::Int(2)),
        }
    );
    match &program.classes[0].features.0[1] {
        Feature::Method(method) => match &method.body {
            Expr::Repeat { condition, body } => {
                assert_eq!(**condition, Expr::Bool(false));
                match &**body {
                    Expr::New { ty } => assert_eq!(interner.lookup(&ty.0.name), "A"),
                    other => panic!("not a new: {:?}", other),
                }
            }
            other => panic!("not a loop: {:?}", other),
        },
        other => panic!("not a method: {:?}", other),
    }
}

#[test]
fn parameters_keep_their_order() {
    let src = b"class A { f(a: Int, b: String): Int { 1 }; };";
    let (result, interner) = parse(src);
    let program = result.expect("no errors");
    match &program.classes[0].features.0[0] {
        Feature::Method(method) => {
            let params: Vec<(&str, &str)> = method
                .params
                .0
                .iter()
                .map(|param| (interner.lookup(&param.name.name), interner.lookup(&param.ty.0.name)))
                .collect();
            assert_eq!(params, vec![("a", "Int"), ("b", "String")]);
        }
        other => panic!("not a method: {:?}", other),
    }
}

#[test]
fn a_string_is_the_text_of_its_content() {
    let src = b"class A { f(): String { \"ab\\n\" }; g(): String { \"\" }; };";
    let (result, _) = parse(src);
    let program = result.expect("no errors");
    assert_eq!(body_of_first_method(&program), &Expr::String(String::from("ab\\n")));
    match &program.classes[0].features.0[1] {
        Feature::Method(method) => assert_eq!(method.body, Expr::String(String::from(""))),
        other => panic!("not a method: {:?}", other),
    }
}

#[test]
fn the_same_name_gets_the_same_handle() {
    let src = b"class A { x : A; y : A; };";
    let (result, interner) = parse(src);
    let program = result.expect("no errors");
    let class = &program.classes[0];
    let types: Vec<usize> = class
        .features
        .0
        .iter()
        .map(|feature| match feature {
            Feature::Attribute(attribute) => attribute.ty.0.name.value(),
            other => panic!("not an attribute: {:?}", other),
        })
        .collect();
    assert_eq!(class.name.0.name.value(), 0);
    assert_eq!(types, vec![0, 0]);
    assert_eq!(interner.intern_count(), 3);
}

#[test]
fn a_wrong_child_is_unexpected() {
    // A class whose first child is a number where its name must stand.
    let src = b"7";
    let mut builder = TreeBuilder::new();
    assert!(builder.open(leaf(60, 0, 1)));
    assert!(builder.open(leaf(61, 0, 1)));
    assert!(builder.open(leaf(45, 0, 1)));
    assert!(builder.close());
    assert!(builder.close());
    assert!(builder.close());
    let tree = builder.finish().expect("a tree");
    let mut interner = Interner::with_capacity(0);
    let (program, errors) = convert(src, &tree, &mut interner).expect_err("no class");
    assert_eq!(program.classes.len(), 0);
    assert_eq!(errors.len(), 2);
    assert_eq!(errors[0].inner, Error::Unexpected(AstNode::Expr(Expr::Int(7))));
    assert_eq!(errors[0].span, (1, 1, 1, 2));
    assert_eq!(errors[1].inner, Error::EmptyConstruct);
}

#[test]
fn every_item_of_another_kind_is_recorded() {
    // A list of features that holds two numbers and nothing else.
    let src = b"12";
    let mut builder = TreeBuilder::new();
    assert!(builder.open(leaf(62, 0, 2)));
    assert!(builder.open(leaf(45, 0, 1)));
    assert!(builder.close());
    assert!(builder.open(leaf(45, 1, 2)));
    assert!(builder.close());
    assert!(builder.close());
    let tree = builder.finish().expect("a tree");
    let mut interner = Interner::with_capacity(0);
    let (program, errors) = convert(src, &tree, &mut interner).expect_err("no program");
    assert_eq!(program.classes.len(), 0);
    assert_eq!(errors.len(), 2);
    assert_eq!(errors[0].inner, Error::Unexpected(AstNode::Expr(Expr::Int(1))));
    assert_eq!(errors[1].inner, Error::Unexpected(AstNode::Expr(Expr::Int(2))));
    assert_eq!(errors[0].span, (1, 1, 1, 3));
    assert_eq!(errors[1].span, (1, 1, 1, 3));
}

#[test]
fn a_root_that_is_no_source_file_gives_no_class() {
    let src = b"1";
    let mut builder = TreeBuilder::new();
    assert!(builder.open(leaf(45, 0, 1)));
    assert!(builder.close());
    let tree = builder.finish().expect("a tree");
    let mut interner = Interner::with_capacity(0);
    let program = convert(src, &tree, &mut interner).expect("no error is recorded");
    assert_eq!(program.classes.len(), 0);
}

#[test]
fn a_word_that_is_no_truth_value_is_invalid_syntax() {
    let src = b"True";
    let mut builder = TreeBuilder::new();
    assert!(builder.open(leaf(88, 0, 4)));
    assert!(builder.close());
    let tree = builder.finish().expect("a tree");
    let mut interner = Interner::with_capacity(0);
    let (_, errors) = convert(src, &tree, &mut interner).expect_err("not a truth value");
    assert_eq!(errors.len(), 1);
    assert_eq!(errors[0].inner, Error::InvalidSyntax);
}

#[test]
fn text_outside_the_source_is_no_text() {
    let src = b"A";
    let mut builder = TreeBuilder::new();
    assert!(builder.open(leaf(56, 0, 5)));
    assert!(builder.close());
    let tree = builder.finish().expect("a tree");
    let mut interner = Interner::with_capacity(0);
    let (_, errors) = convert(src, &tree, &mut interner).expect_err("no text");
    assert_eq!(errors.len(), 1);
    assert_eq!(errors[0].inner, Error::InvalidSyntax);
    assert_eq!(interner.intern_count(), 0);
}

#[test]
fn an_operator_that_is_none_is_invalid_syntax() {
    // A binary expression whose second child is a colon.
    let src = b"1:2";
    let mut builder = TreeBuilder::new();
    assert!(builder.open(leaf(85, 0, 3)));
    assert!(builder.open(leaf(45, 0, 1)));
    assert!(builder.close());
    assert!(builder.open(leaf(6, 1, 2)));
    assert!(builder.close());
    assert!(builder.open(leaf(45, 2, 3)));
    assert!(builder.close());
    assert!(builder.close());
    let tree = builder.finish().expect("a tree");
    let mut interner = Interner::with_capacity(0);
    let (_, errors) = convert(src, &tree, &mut interner).expect_err("no operator");
    assert_eq!(errors.len(), 1);
    assert_eq!(errors[0].inner, Error::InvalidSyntax);
    assert_eq!(errors[0].span, (1, 1, 1, 4));
}

#[test]
fn deep_nesting_is_converted_without_recursion() {
    // class A { f(): Int { (((...1...))) }; } with a hundred thousand
    // pairs of parentheses, as the tree that a parser would give.
    let depth = 100_000;
    let src = b"A f Int 1";
    let mut builder = TreeBuilder::new();
    assert!(builder.open(leaf(60, 0, 9)));
    assert!(builder.open(leaf(61, 0, 9)));
    assert!(builder.open(leaf(56, 0, 1)));
    assert!(builder.close());
    assert!(builder.open(leaf(62, 2, 9)));
    assert!(builder.open(leaf(64, 2, 9)));
    assert!(builder.open(leaf(55, 2, 3)));
    assert!(builder.close());
    assert!(builder.open(leaf(65, 3, 3)));
    assert!(builder.close());
    assert!(builder.open(leaf(12, 4, 7)));
    assert!(builder.close());
    for _ in 0..depth {
        assert!(builder.open(leaf(86, 8, 9)));
    }
    assert!(builder.open(leaf(45, 8, 9)));
    assert!(builder.close());
    for _ in 0..depth {
        assert!(builder.close());
    }
    for _ in 0..4 {
        assert!(builder.close());
    }
    let tree = builder.finish().expect("a tree");
    assert_eq!(tree.len(), depth + 9);
    let mut interner = Interner::with_capacity(4);
    let program = match convert(src, &tree, &mut interner) {
        Ok(program) => program,
        Err((program, errors)) => {
            let count = errors.len();
            std::mem::forget(program);
            panic!("{} errors", count);
        }
    };
    let mut wrappers = 0;
    let mut at = body_of_first_method(&program);
    while let Expr::Paren { value } = at {
        wrappers += 1;
        at = value;
    }
    let innermost = matches!(at, Expr::Int(1));
    // The chain is too deep to be dropped by recursion.
    std::mem::forget(program);
    assert_eq!(wrappers, depth);
    assert!(innermost);
}

#[test]
fn nested_parentheses_from_the_parser() {
    let depth = 500;
    let mut src = Vec::new();
    src.extend_from_slice(b"class A { f(): Int { ");
    src.extend(std::iter::repeat(b'(').take(depth));
    src.push(b'1');
    src.extend(std::iter::repeat(b')').take(depth));
    src.extend_from_slice(b" }; };");
    let (result, _) = parse(&src);
    let program = result.expect("no errors");
    let mut wrappers = 0;
    let mut at = body_of_first_method(&program);
    while let Expr::Paren { value } = at {
        wrappers += 1;
        at = value;
    }
    assert_eq!(wrappers, depth);
    assert_eq!(at, &Expr::Int(1));
}

#[test]
fn operators_are_read_from_their_tokens() {
    assert_eq!(operator_of(Cool::Plus), Some(BinaryOp::Add));
    assert_eq!(operator_of(Cool::Dash), Some(BinaryOp::Sub));
    assert_eq!(operator_of(Cool::Star), Some(BinaryOp::Mul));
    assert_eq!(operator_of(Cool::Slash), Some(BinaryOp::Div));
    assert_eq!(operator_of(Cool::Lt), Some(BinaryOp::Lt));
    assert_eq!(operator_of(Cool::Lte), Some(BinaryOp::Lte));
    assert_eq!(operator_of(Cool::Eq), Some(BinaryOp::Eq));
    assert_eq!(operator_of(Cool::Tilde), None);
    assert_eq!(operator_of(Cool::LtDash), None);
    assert_eq!(operator_of(Cool::EqGt), None);
}
