//! The rules of reduction, as mathematics: what converting one node of the
//! concrete syntax tree gives, from what the tree says of the node and the
//! values already built for its children.

use super::bindings::{
    first_child, next_sibling, nth_child, span_of, text_of, NodeData, NodeInfo,
};
use super::model::{
    ArgumentsModel, AstNodeModel, AttributeModel, CaseArmModel, CasePatternModel, ClassModel, ExprModel,
    FeatureModel, FeaturesModel, IdentModel, LetBindingModel, LetBindingsModel, MethodModel,
    ParamModel, ParamsModel, ProgramModel, QualifierModel, TypeModel,
};
use super::bindings::{node_ok, well_formed};
use super::narrow::Narrow;
use super::protocol::{
    all, all_exprs, lemma_all_fit, lemma_fitting_len, non_zero, optional, optional_expr,
    optional_name, required, required_expr, required_name, ErrorModel,
};
use super::{
    Arguments, BinaryOp, CaseArm, CasePattern, Class, Expr, Feature, Features, Ident,
    LetBinding, LetBindings, Param, Params, Type, UnaryOp,
};
use crate::language::Cool;
use crate::util::interner::{intern_index, intern_names};
use crate::util::span::{Span, Spanned};
use vstd::prelude::*;

verus! {

/// What a rule reads of the node it converts.
pub struct Facts {
    /// The kind of the node.
    pub kind: Cool,
    /// The region of text of the node.
    pub span: Span,
    /// The bytes that the node covers, when its range lies in the source.
    pub bytes: Option<Seq<u8>>,
    /// The text that the node covers, when its bytes are text.
    pub text: Option<Seq<char>>,
    /// Whether the parent of the node stands where an expression is expected.
    pub in_expr: bool,
    /// The kind of the second child of the node, when it has two children.
    pub second: Option<Cool>,
    /// The text that the first child of the node that is string content
    /// covers, when the node has such a child and the child has text.
    pub content: Option<Seq<char>>,
}

/// The bytes that a node covers in the source `src`, when its range lies in
/// the source.
pub open spec fn bytes_of(src: Seq<u8>, info: NodeInfo) -> Option<Seq<u8>> {
    if info.start_byte <= info.end_byte <= src.len() {
        Some(src.subrange(info.start_byte as int, info.end_byte as int))
    } else {
        None
    }
}

/// The kind of node `n`.
pub open spec fn kind_of(nodes: Seq<NodeData>, n: int) -> Cool {
    Cool::of_code(nodes[n].info.kind as int)
}

/// The first of the siblings from node `c` on that is string content, if
/// one of them is.
pub open spec fn content_from(nodes: Seq<NodeData>, c: Option<int>) -> Option<int>
    decreases
        (match c {
            Some(c) => nodes.len() - c,
            None => 0,
        }),
{
    match c {
        Some(c) => if 0 <= c < nodes.len() && c < nodes[c].end <= nodes.len() {
            if kind_of(nodes, c) == Cool::StringContent {
                Some(c)
            } else {
                content_from(nodes, next_sibling(nodes, c))
            }
        } else {
            None
        },
        None => None,
    }
}

/// What a rule reads of node `n` of the tree `nodes` over the source `src`.
pub open spec fn facts(nodes: Seq<NodeData>, src: Seq<u8>, n: int) -> Facts {
    Facts {
        kind: kind_of(nodes, n),
        span: span_of(nodes[n].info),
        bytes: bytes_of(src, nodes[n].info),
        text: text_of(src, nodes[n].info),
        in_expr: n >= 1 && kind_of(nodes, nodes[n].parent as int).expr_like(),
        second: match nth_child(nodes, n, 1) {
            Some(c) => Some(kind_of(nodes, c)),
            None => None,
        },
        content: match content_from(nodes, first_child(nodes, n)) {
            Some(c) => text_of(src, nodes[c].info),
            None => None,
        },
    }
}

/// The number that a digit stands for.
pub open spec fn digit_value(byte: u8) -> nat {
    if is_digit(byte) {
        (byte - 48) as nat
    } else {
        0
    }
}

/// Whether a byte is a decimal digit.
pub open spec fn is_digit(byte: u8) -> bool {
    48 <= byte <= 57
}

/// The number that a string of digits spells in base ten.
pub open spec fn decimal(digits: Seq<u8>) -> nat
    decreases digits.len(),
{
    if digits.len() == 0 {
        0
    } else {
        decimal(digits.drop_last()) * 10 + digit_value(digits.last())
    }
}

/// The digits of a number text: the text without a leading plus sign.
pub open spec fn unsigned(bytes: Seq<u8>) -> Seq<u8> {
    if bytes.len() > 0 && bytes[0] == 43 {
        bytes.drop_first()
    } else {
        bytes
    }
}

/// The number that `bytes` spell: one or more decimal digits, after a plus
/// sign or without one, that stay within sixty-four bits.
pub open spec fn integer_of(bytes: Seq<u8>) -> Option<u64> {
    let digits = unsigned(bytes);
    if digits.len() > 0 && (forall|i: int| 0 <= i < digits.len() ==> is_digit(#[trigger] digits[i]))
        && decimal(digits) <= u64::MAX {
        Some(decimal(digits) as u64)
    } else {
        None
    }
}

/// The bytes of the word `true`.
pub open spec fn word_true() -> Seq<u8> {
    seq![116u8, 114u8, 117u8, 101u8]
}

/// The bytes of the word `false`.
pub open spec fn word_false() -> Seq<u8> {
    seq![102u8, 97u8, 108u8, 115u8, 101u8]
}

/// The truth value that `bytes` spell: exactly `true` or `false`.
pub open spec fn boolean_of(bytes: Seq<u8>) -> Option<bool> {
    if bytes == word_true() {
        Some(true)
    } else if bytes == word_false() {
        Some(false)
    } else {
        None
    }
}

/// The operator that a token of kind `kind` stands for between two operands.
pub open spec fn binary_op_of(kind: Cool) -> Option<BinaryOp> {
    match kind {
        Cool::Plus => Some(BinaryOp::Add),
        Cool::Dash => Some(BinaryOp::Sub),
        Cool::Star => Some(BinaryOp::Mul),
        Cool::Slash => Some(BinaryOp::Div),
        Cool::Lt => Some(BinaryOp::Lt),
        Cool::Lte => Some(BinaryOp::Lte),
        Cool::Eq => Some(BinaryOp::Eq),
        _ => None,
    }
}

/// Whether a node of this kind is the name of a type.
pub open spec fn names_type(kind: Cool) -> bool {
    matches!(
        kind,
        Cool::TypeIdentifier
            | Cool::Bool
            | Cool::Int
            | Cool::Io
            | Cool::Object
            | Cool::String
            | Cool::SelfType
    )
}

/// Whether a node of this kind is the name of something that is not a type.
pub open spec fn names_value(kind: Cool) -> bool {
    matches!(kind, Cool::Identifier | Cool::FieldIdentifier | Cool::SelfIdentifier)
}

/// The text that a rule interns: that of a node that is a name, when it has
/// text and the text is not empty.
pub open spec fn interned(facts: Facts) -> Option<Seq<char>> {
    if (names_type(facts.kind) || names_value(facts.kind)) && facts.text is Some
        && facts.text->0.len() > 0 {
        facts.text
    } else {
        None
    }
}

/// The names known after the rule for a node has run.
pub open spec fn names_after(facts: Facts, names: Seq<Seq<char>>) -> Seq<Seq<char>> {
    match interned(facts) {
        Some(text) => intern_names(names, text),
        None => names,
    }
}

/// What a rule gives: a value, or the errors to record for the node. A rule
/// that fails without an error drops the node in silence.
pub type Built = Result<AstNodeModel, Seq<ErrorModel>>;

/// A rule fails with one error.
pub open spec fn fails(error: ErrorModel) -> Built {
    Err(seq![error])
}

/// A rule gives an expression.
pub open spec fn gives(expr: ExprModel) -> Built {
    Ok(AstNodeModel::Expr(expr))
}

/// The name that a node spells, for the names known before.
pub open spec fn name_of(facts: Facts, names: Seq<Seq<char>>) -> Option<IdentModel> {
    match interned(facts) {
        Some(text) => Some(IdentModel { name: intern_index(names, text) }),
        None => None,
    }
}

/// A class: a type, then a type when one follows, then the features.
pub open spec fn class_of(queue: Seq<AstNodeModel>) -> Built {
    match required::<Type>(queue) {
        Err(errors) => Err(errors),
        Ok((name, queue)) => {
            let (inherits, queue) = optional::<Type>(queue);
            match required::<Features>(queue) {
                Err(errors) => Err(errors),
                Ok((features, _)) => Ok(AstNodeModel::Class(ClassModel { name, inherits, features })),
            }
        },
    }
}

/// An attribute: a name, a type, then an expression when one follows.
pub open spec fn attribute_of(queue: Seq<AstNodeModel>) -> Built {
    match required::<Ident>(queue) {
        Err(errors) => Err(errors),
        Ok((name, queue)) => match required::<Type>(queue) {
            Err(errors) => Err(errors),
            Ok((ty, queue)) => {
                let (initializer, _) = optional_expr(queue);
                Ok(
                    AstNodeModel::Feature(
                        FeatureModel::Attribute(AttributeModel { name, ty, initializer }),
                    ),
                )
            },
        },
    }
}

/// A method: a name, the parameters, a type and an expression.
pub open spec fn method_of(queue: Seq<AstNodeModel>) -> Built {
    match required::<Ident>(queue) {
        Err(errors) => Err(errors),
        Ok((name, queue)) => match required::<Params>(queue) {
            Err(errors) => Err(errors),
            Ok((params, queue)) => match required::<Type>(queue) {
                Err(errors) => Err(errors),
                Ok((return_ty, queue)) => match required_expr(queue) {
                    Err(errors) => Err(errors),
                    Ok((body, _)) => Ok(
                        AstNodeModel::Feature(
                            FeatureModel::Method(MethodModel { name, params, return_ty, body }),
                        ),
                    ),
                },
            },
        },
    }
}

/// A name and a type, as a parameter and a case pattern have them.
pub open spec fn name_and_type(queue: Seq<AstNodeModel>) -> Result<
    (IdentModel, TypeModel),
    Seq<ErrorModel>,
> {
    match required::<Ident>(queue) {
        Err(errors) => Err(errors),
        Ok((name, queue)) => match required::<Type>(queue) {
            Err(errors) => Err(errors),
            Ok((ty, _)) => Ok((name, ty)),
        },
    }
}

/// A binding of a `let`: a name, a type, then an expression when one follows.
pub open spec fn binding_of(queue: Seq<AstNodeModel>) -> Built {
    match required::<Ident>(queue) {
        Err(errors) => Err(errors),
        Ok((name, queue)) => match required::<Type>(queue) {
            Err(errors) => Err(errors),
            Ok((ty, queue)) => {
                let (right, _) = optional_expr(queue);
                Ok(AstNodeModel::LetBinding(LetBindingModel { name, ty, right }))
            },
        },
    }
}

/// An assignment: a name and an expression.
pub open spec fn assignment_of(queue: Seq<AstNodeModel>) -> Built {
    match required_name(queue) {
        Err(errors) => Err(errors),
        Ok((name, queue)) => match required_expr(queue) {
            Err(errors) => Err(errors),
            Ok((right, _)) => gives(ExprModel::Assignment { name, right: Box::new(right) }),
        },
    }
}

/// The end of a dispatch: after the name of the method come the arguments.
pub open spec fn call_of(
    qualifier: Option<QualifierModel>,
    method: IdentModel,
    queue: Seq<AstNodeModel>,
) -> Built {
    match required::<Arguments>(queue) {
        Err(errors) => Err(errors),
        Ok((args, _)) => gives(ExprModel::Dispatch { qualifier, method, args: args.0 }),
    }
}

/// A dispatch. Its first value is an expression. When a type follows it,
/// the expression is the receiver, the type is the class that the call is
/// bound to, and the name of the method must follow. When a name follows
/// it, the expression is the receiver and the name is that of the method.
/// Otherwise the expression must itself be the name of the method, and
/// there is no receiver. The arguments come last.
pub open spec fn dispatch_of(queue: Seq<AstNodeModel>) -> Built {
    match required_expr(queue) {
        Err(errors) => Err(errors),
        Ok((first, queue)) => {
            let (parent, queue) = optional::<Type>(queue);
            if parent is Some {
                match required_name(queue) {
                    Err(errors) => Err(errors),
                    Ok((method, queue)) => call_of(
                        Some(QualifierModel { value: Box::new(first), parent }),
                        method,
                        queue,
                    ),
                }
            } else {
                match optional_name(queue) {
                    (Some(method), queue) => call_of(
                        Some(QualifierModel { value: Box::new(first), parent }),
                        method,
                        queue,
                    ),
                    (None, queue) => match first {
                        ExprModel::Ident(method) => call_of(None, method, queue),
                        _ => fails(ErrorModel::Unexpected(AstNodeModel::Expr(first))),
                    },
                }
            }
        },
    }
}

/// One expression, as the operand of an operator or between parentheses.
pub open spec fn one_expr(queue: Seq<AstNodeModel>) -> Result<ExprModel, Seq<ErrorModel>> {
    match required_expr(queue) {
        Err(errors) => Err(errors),
        Ok((first, _)) => Ok(first),
    }
}

/// Two expressions.
pub open spec fn two_exprs(queue: Seq<AstNodeModel>) -> Result<
    (ExprModel, ExprModel),
    Seq<ErrorModel>,
> {
    match required_expr(queue) {
        Err(errors) => Err(errors),
        Ok((first, queue)) => match required_expr(queue) {
            Err(errors) => Err(errors),
            Ok((second, _)) => Ok((first, second)),
        },
    }
}

/// A conditional: three expressions.
pub open spec fn conditional_of(queue: Seq<AstNodeModel>) -> Built {
    match required_expr(queue) {
        Err(errors) => Err(errors),
        Ok((condition, queue)) => match two_exprs(queue) {
            Err(errors) => Err(errors),
            Ok((consequence, alternative)) => gives(
                ExprModel::Conditional {
                    condition: Box::new(condition),
                    consequence: Box::new(consequence),
                    alternative: Box::new(alternative),
                },
            ),
        },
    }
}

/// A `let`: the bindings and an expression.
pub open spec fn let_of(queue: Seq<AstNodeModel>) -> Built {
    match required::<LetBindings>(queue) {
        Err(errors) => Err(errors),
        Ok((bindings, queue)) => match required_expr(queue) {
            Err(errors) => Err(errors),
            Ok((body, _)) => gives(ExprModel::Let { bindings, body: Box::new(body) }),
        },
    }
}

/// A `case`: an expression and one arm or more.
pub open spec fn case_of(queue: Seq<AstNodeModel>) -> Built {
    match required_expr(queue) {
        Err(errors) => Err(errors),
        Ok((value, queue)) => match non_zero::<CaseArm>(queue) {
            Err(errors) => Err(errors),
            Ok(body) => gives(ExprModel::Case { value: Box::new(value), body }),
        },
    }
}

/// An arm of a `case`: a pattern and an expression.
pub open spec fn case_arm_of(queue: Seq<AstNodeModel>) -> Built {
    match required::<CasePattern>(queue) {
        Err(errors) => Err(errors),
        Ok((pat, queue)) => match required_expr(queue) {
            Err(errors) => Err(errors),
            Ok((value, _)) => Ok(AstNodeModel::CaseArm(CaseArmModel { pat, value: Box::new(value) })),
        },
    }
}

/// An operator with one operand.
pub open spec fn unary_of(op: UnaryOp, queue: Seq<AstNodeModel>) -> Built {
    match one_expr(queue) {
        Err(errors) => Err(errors),
        Ok(right) => gives(ExprModel::Unary { op, right: Box::new(right) }),
    }
}

/// An operator with two operands; the operator is read from the second
/// child of the node. A second child that is no operator is invalid syntax,
/// and so is a node without a second child.
pub open spec fn binary_of(facts: Facts, queue: Seq<AstNodeModel>) -> Built {
    match facts.second {
        None => fails(ErrorModel::InvalidSyntax),
        Some(kind) => match binary_op_of(kind) {
            None => fails(ErrorModel::InvalidSyntax),
            Some(op) => match two_exprs(queue) {
                Err(errors) => Err(errors),
                Ok((left, right)) => gives(
                    ExprModel::Binary { op, left: Box::new(left), right: Box::new(right) },
                ),
            },
        },
    }
}

/// The content of a string literal: the text of its content child; empty
/// when it has no such child, as the empty literal has none, or the child
/// has no text.
pub open spec fn string_of(facts: Facts) -> Seq<char> {
    match facts.content {
        Some(text) => text,
        None => Seq::empty(),
    }
}

/// What the rule for a node gives, from what the tree says of the node, the
/// values built for its children, and the names known before.
#[verifier::opaque]
pub open spec fn built(facts: Facts, queue: Seq<AstNodeModel>, names: Seq<Seq<char>>) -> Built {
    match facts.kind {
        Cool::SourceFile => match non_zero::<Class>(queue) {
            Err(errors) => Err(errors),
            Ok(classes) => Ok(AstNodeModel::Program(ProgramModel { classes })),
        },
        Cool::ClassItem => class_of(queue),
        Cool::FieldDeclarationList => match all::<Feature>(queue) {
            Err(errors) => Err(errors),
            Ok(features) => Ok(AstNodeModel::Features(FeaturesModel(features))),
        },
        Cool::AttributeDeclaration => attribute_of(queue),
        Cool::MethodDeclaration => method_of(queue),
        Cool::Parameters => match all::<Param>(queue) {
            Err(errors) => Err(errors),
            Ok(params) => Ok(AstNodeModel::Params(ParamsModel(params))),
        },
        Cool::Parameter => match name_and_type(queue) {
            Err(errors) => Err(errors),
            Ok((name, ty)) => Ok(AstNodeModel::Param(ParamModel { name, ty })),
        },
        Cool::Arguments => match all_exprs(queue) {
            Err(errors) => Err(errors),
            Ok(args) => Ok(AstNodeModel::Arguments(ArgumentsModel(args))),
        },
        Cool::AssignmentExpression => assignment_of(queue),
        Cool::DispatchExpression => dispatch_of(queue),
        Cool::IfExpression => conditional_of(queue),
        Cool::WhileExpression => match two_exprs(queue) {
            Err(errors) => Err(errors),
            Ok((condition, body)) => gives(
                ExprModel::Repeat { condition: Box::new(condition), body: Box::new(body) },
            ),
        },
        Cool::Block => match non_zero::<Expr>(queue) {
            Err(errors) => Err(errors),
            Ok(body) => gives(ExprModel::Block { body }),
        },
        Cool::LetExpression => let_of(queue),
        Cool::Bindings => match non_zero::<LetBinding>(queue) {
            Err(errors) => Err(errors),
            Ok(bindings) => Ok(AstNodeModel::LetBindings(LetBindingsModel(bindings))),
        },
        Cool::Binding => binding_of(queue),
        Cool::CaseExpression => case_of(queue),
        Cool::CaseArm => case_arm_of(queue),
        Cool::CasePattern => match name_and_type(queue) {
            Err(errors) => Err(errors),
            Ok((name, ty)) => Ok(AstNodeModel::CasePattern(CasePatternModel { name, ty })),
        },
        Cool::NewExpression => match required::<Type>(queue) {
            Err(errors) => Err(errors),
            Ok((ty, _)) => gives(ExprModel::New { ty }),
        },
        Cool::IsvoidExpression => unary_of(UnaryOp::IsVoid, queue),
        Cool::UnaryExpression => unary_of(UnaryOp::Complement, queue),
        Cool::NotExpression => unary_of(UnaryOp::Not, queue),
        Cool::BinaryExpression => binary_of(facts, queue),
        Cool::ParenthesizedExpression => match one_expr(queue) {
            Err(errors) => Err(errors),
            Ok(value) => gives(ExprModel::Paren { value: Box::new(value) }),
        },
        Cool::StringLiteral => gives(ExprModel::String(string_of(facts))),
        Cool::IntegerLiteral => match facts.bytes {
            Some(bytes) if integer_of(bytes) is Some => gives(ExprModel::Int(integer_of(bytes)->0)),
            _ => fails(ErrorModel::InvalidSyntax),
        },
        Cool::BooleanLiteral => match facts.bytes {
            Some(bytes) if boolean_of(bytes) is Some => gives(
                ExprModel::Bool(boolean_of(bytes)->0),
            ),
            _ => fails(ErrorModel::InvalidSyntax),
        },
        Cool::TypeIdentifier
        | Cool::Bool
        | Cool::Int
        | Cool::Io
        | Cool::Object
        | Cool::String
        | Cool::SelfType => match name_of(facts, names) {
            Some(name) => Ok(AstNodeModel::Type(TypeModel(name))),
            None => fails(ErrorModel::InvalidSyntax),
        },
        Cool::Identifier | Cool::FieldIdentifier | Cool::SelfIdentifier => match name_of(
            facts,
            names,
        ) {
            Some(name) => if facts.in_expr {
                gives(ExprModel::Ident(name))
            } else {
                Ok(AstNodeModel::Ident(name))
            },
            None => fails(ErrorModel::InvalidSyntax),
        },
        Cool::Error => fails(ErrorModel::InvalidSyntax),
        _ => Err(Seq::empty()),
    }
}

/// How far a conversion has come: the names interned and the errors
/// recorded so far.
pub struct Progress {
    pub names: Seq<Seq<char>>,
    pub errors: Seq<Spanned<ErrorModel>>,
}

/// What converting a node gives: the value built for it, if one was built,
/// and how far the conversion has come after it.
pub struct Step {
    pub node: Option<AstNodeModel>,
    pub progress: Progress,
}

/// The errors `errors`, each with the region `span`.
pub open spec fn spanned(errors: Seq<ErrorModel>, span: Span) -> Seq<Spanned<ErrorModel>> {
    errors.map_values(|error: ErrorModel| Spanned { inner: error, span })
}

/// The errors that the rule for a node records.
pub open spec fn recorded(facts: Facts, queue: Seq<AstNodeModel>, names: Seq<Seq<char>>) -> Seq<
    Spanned<ErrorModel>,
> {
    match built(facts, queue, names) {
        Ok(_) => Seq::empty(),
        Err(errors) => spanned(errors, facts.span),
    }
}

/// Converting one node: the rule for its kind gives a value or fails; a
/// failure leaves its errors behind, each with the region of the node.
pub open spec fn reduce_node(facts: Facts, queue: Seq<AstNodeModel>, before: Progress) -> Step {
    Step {
        node: match built(facts, queue, before.names) {
            Ok(node) => Some(node),
            Err(_) => None,
        },
        progress: Progress {
            names: names_after(facts, before.names),
            errors: before.errors + recorded(facts, queue, before.names),
        },
    }
}

/// The values in `queue`, then those in `rest`.
pub open spec fn join(queue: Seq<AstNodeModel>, rest: (Seq<AstNodeModel>, Progress)) -> (
    Seq<AstNodeModel>,
    Progress,
) {
    (queue + rest.0, rest.1)
}

/// A queue of the one value `node`, or of none.
pub open spec fn produced(node: Option<AstNodeModel>) -> Seq<AstNodeModel> {
    match node {
        Some(value) => seq![value],
        None => Seq::empty(),
    }
}

/// Converting node `n` and the nodes below it: first its children, from
/// left to right, then the node itself from the values built for them.
pub open spec fn reduce_tree(nodes: Seq<NodeData>, src: Seq<u8>, n: int, before: Progress) -> Step
    decreases nodes.len() - n, 0int,
{
    if 0 <= n < nodes.len() {
        let (queue, mid) = reduce_children(nodes, src, n + 1, nodes[n].end as int, before);
        reduce_node(facts(nodes, src, n), queue, mid)
    } else {
        Step { node: None, progress: before }
    }
}

/// Converting the children of a node from child `c` on, where `limit` is
/// the end of the node: the values built, in order, without those of the
/// children that failed, and how far the conversion has come.
pub open spec fn reduce_children(
    nodes: Seq<NodeData>,
    src: Seq<u8>,
    c: int,
    limit: int,
    before: Progress,
) -> (Seq<AstNodeModel>, Progress)
    decreases nodes.len() - c, 1int,
{
    if 0 <= c < limit <= nodes.len() && c < nodes[c].end <= limit {
        let step = reduce_tree(nodes, src, c, before);
        join(
            produced(step.node),
            reduce_children(nodes, src, nodes[c].end as int, limit, step.progress),
        )
    } else {
        (Seq::empty(), before)
    }
}

/// The program that a conversion hands out: the one built for the root, or
/// a program without classes when none was built.
pub open spec fn program_of(node: Option<AstNodeModel>) -> ProgramModel {
    match node {
        Some(AstNodeModel::Program(program)) => program,
        _ => ProgramModel { classes: Seq::empty() },
    }
}

/// A block without expressions fails: no value is built for it, so that
/// its parent does not see it, and exactly one error is recorded, an empty
/// construct at the region of the block.
pub proof fn lemma_empty_block(facts: Facts, before: Progress)
    requires
        facts.kind == Cool::Block,
    ensures
        reduce_node(facts, Seq::empty(), before) == (Step {
            node: None,
            progress: Progress {
                names: before.names,
                errors: before.errors.push(
                    Spanned { inner: ErrorModel::EmptyConstruct, span: facts.span },
                ),
            },
        }),
        produced(reduce_node(facts, Seq::empty(), before).node) == Seq::<AstNodeModel>::empty(),
{
    reveal(built);
    let queue = Seq::<AstNodeModel>::empty();
    let errors = seq![ErrorModel::EmptyConstruct];
    assert(before.errors + spanned(errors, facts.span) =~= before.errors.push(
        Spanned { inner: ErrorModel::EmptyConstruct, span: facts.span },
    ));
}

/// A conversion without errors gives the classes as the source has them:
/// when the root of a tree is a source file and converting the tree from
/// no errors records none, a program is built, and its classes are the
/// values built for the children of the root, as many and in the same
/// order, each of them a class.
pub proof fn lemma_classes_in_order(nodes: Seq<NodeData>, src: Seq<u8>, names: Seq<Seq<char>>)
    requires
        well_formed(nodes),
        kind_of(nodes, 0) == Cool::SourceFile,
        reduce_tree(
            nodes,
            src,
            0,
            Progress { names, errors: Seq::empty() },
        ).progress.errors.len() == 0,
    ensures
        ({
            let start = Progress { names, errors: Seq::empty() };
            let queue = reduce_children(nodes, src, 1, nodes.len() as int, start).0;
            let program = program_of(reduce_tree(nodes, src, 0, start).node);
            &&& reduce_tree(nodes, src, 0, start).node == Some(AstNodeModel::Program(program))
            &&& program.classes.len() == queue.len()
            &&& program.classes.len() >= 1
            &&& forall|i: int|
                0 <= i < queue.len() ==> #[trigger] queue[i] == AstNodeModel::Class(
                    program.classes[i],
                )
        }),
{
    reveal(built);
    let start = Progress { names, errors: Seq::empty() };
    let (queue, mid) = reduce_children(nodes, src, 1, nodes[0].end as int, start);
    let f = facts(nodes, src, 0);
    let step = reduce_node(f, queue, mid);
    lemma_fitting_len::<Class>(queue);
    match non_zero::<Class>(queue) {
        Ok(classes) => {
            lemma_all_fit::<Class>(queue);
            assert forall|i: int| 0 <= i < queue.len() implies #[trigger] queue[i]
                == AstNodeModel::Class(classes[i]) by {
            }
        },
        Err(errors) => {
        },
    }
}

/// A failure stays where it is: when converting a child builds no value,
/// the queue of its parent is what converting the children after it gives,
/// as if the child were not there, and the conversion goes on from where
/// the child left it. When it builds a value, that value stands in the
/// queue before the values of the children after it.
pub proof fn lemma_child_in_queue(
    nodes: Seq<NodeData>,
    src: Seq<u8>,
    c: int,
    limit: int,
    before: Progress,
)
    requires
        0 <= c < limit <= nodes.len(),
        c < nodes[c].end <= limit,
    ensures
        ({
            let step = reduce_tree(nodes, src, c, before);
            let rest = reduce_children(nodes, src, nodes[c].end as int, limit, step.progress);
            let all = reduce_children(nodes, src, c, limit, before);
            &&& all.1 == rest.1
            &&& step.node is None ==> all.0 == rest.0
            &&& step.node matches Some(value) ==> all.0 == seq![value] + rest.0
        }),
{
    let step = reduce_tree(nodes, src, c, before);
    let rest = reduce_children(nodes, src, nodes[c].end as int, limit, step.progress);
    assert(Seq::<AstNodeModel>::empty() + rest.0 =~= rest.0);
}

/// A block without expressions is left out of its parent: when converting
/// the children of a block gives no value, converting the block builds
/// none and records one error after theirs, an empty construct at the
/// region of the block; and the queue of the parent of the block is what
/// the children after the block give.
pub proof fn lemma_empty_block_left_out(
    nodes: Seq<NodeData>,
    src: Seq<u8>,
    b: int,
    limit: int,
    before: Progress,
)
    requires
        0 <= b < limit <= nodes.len(),
        b < nodes[b].end <= limit,
        kind_of(nodes, b) == Cool::Block,
        reduce_children(nodes, src, b + 1, nodes[b].end as int, before).0.len() == 0,
    ensures
        ({
            let inside = reduce_children(nodes, src, b + 1, nodes[b].end as int, before).1;
            let step = reduce_tree(nodes, src, b, before);
            &&& step.node is None
            &&& step.progress.names == inside.names
            &&& step.progress.errors == inside.errors.push(
                Spanned { inner: ErrorModel::EmptyConstruct, span: span_of(nodes[b].info) },
            )
            &&& reduce_children(nodes, src, b, limit, before) == reduce_children(
                nodes,
                src,
                nodes[b].end as int,
                limit,
                step.progress,
            )
        }),
{
    let (queue, inside) = reduce_children(nodes, src, b + 1, nodes[b].end as int, before);
    assert(queue =~= Seq::<AstNodeModel>::empty());
    lemma_empty_block(facts(nodes, src, b), inside);
    lemma_child_in_queue(nodes, src, b, limit, before);
    let step = reduce_tree(nodes, src, b, before);
    let rest = reduce_children(nodes, src, nodes[b].end as int, limit, step.progress);
    assert(reduce_children(nodes, src, b, limit, before).0 == rest.0);
}

/// The expression `expr` inside `n` pairs of parentheses.
pub open spec fn wrapped(expr: ExprModel, n: nat) -> ExprModel
    decreases n,
{
    if n == 0 {
        expr
    } else {
        ExprModel::Paren { value: Box::new(wrapped(expr, (n - 1) as nat)) }
    }
}

/// Node `top` is the outermost of `n` parenthesized expressions, one inside
/// the other, each in the shape that the parser gives it: an opening
/// parenthesis, what stands inside, and a closing parenthesis.
pub open spec fn parenthesized(nodes: Seq<NodeData>, top: int, n: nat) -> bool
    decreases n,
{
    if n == 0 {
        true
    } else {
        let inner = top + 2;
        &&& 0 <= top
        &&& inner < nodes.len()
        &&& kind_of(nodes, top) == Cool::ParenthesizedExpression
        &&& kind_of(nodes, top + 1) == Cool::LParen
        &&& nodes[top + 1].end == top + 2
        &&& nodes[inner].end < nodes.len()
        &&& kind_of(nodes, nodes[inner].end as int) == Cool::RParen
        &&& nodes[nodes[inner].end as int].end == nodes[inner].end + 1
        &&& nodes[top].end == nodes[inner].end + 1
        &&& parenthesized(nodes, inner, (n - 1) as nat)
    }
}

/// A parenthesis on its own builds nothing and records nothing.
proof fn lemma_parenthesis_is_silent(nodes: Seq<NodeData>, src: Seq<u8>, t: int, before: Progress)
    requires
        0 <= t < nodes.len(),
        nodes[t].end == t + 1,
        kind_of(nodes, t) == Cool::LParen || kind_of(nodes, t) == Cool::RParen,
    ensures
        reduce_tree(nodes, src, t, before) == (Step { node: None, progress: before }),
{
    reveal(built);
    let step = reduce_tree(nodes, src, t, before);
    assert(step.progress.errors =~= before.errors);
    assert(step.progress.names == before.names);
}

/// Nesting is kept, however deep: when node `top` is the outermost of `n`
/// parenthesized expressions one inside the other, and converting what
/// stands inside the innermost builds the expression `expr`, then
/// converting `top` builds `expr` inside `n` pairs of parentheses, and
/// records nothing more.
pub proof fn lemma_nested_parentheses(
    nodes: Seq<NodeData>,
    src: Seq<u8>,
    top: int,
    n: nat,
    expr: ExprModel,
    before: Progress,
    after: Progress,
)
    requires
        well_formed(nodes),
        0 <= top,
        top + 2 * n < nodes.len(),
        parenthesized(nodes, top, n),
        reduce_tree(nodes, src, top + 2 * n, before) == (Step {
            node: Some(AstNodeModel::Expr(expr)),
            progress: after,
        }),
    ensures
        reduce_tree(nodes, src, top, before) == (Step {
            node: Some(AstNodeModel::Expr(wrapped(expr, n))),
            progress: after,
        }),
    decreases n,
{
    if n > 0 {
        let inner = top + 2;
        let close = nodes[inner].end as int;
        let limit = nodes[top].end as int;
        assert(node_ok(nodes, inner));
        lemma_parenthesis_is_silent(nodes, src, top + 1, before);
        lemma_nested_parentheses(nodes, src, inner, (n - 1) as nat, expr, before, after);
        lemma_parenthesis_is_silent(nodes, src, close, after);
        let value = AstNodeModel::Expr(wrapped(expr, (n - 1) as nat));
        let last = reduce_children(nodes, src, close + 1, limit, after);
        assert(last == (Seq::<AstNodeModel>::empty(), after));
        let from_close = reduce_children(nodes, src, close, limit, after);
        assert(from_close.0 =~= Seq::<AstNodeModel>::empty());
        assert(from_close.1 == after);
        let from_inner = reduce_children(nodes, src, inner, limit, before);
        assert(from_inner.0 =~= seq![value]);
        assert(from_inner.1 == after);
        let from_open = reduce_children(nodes, src, top + 1, limit, before);
        assert(from_open.0 =~= seq![value]);
        assert(from_open.1 == after);
        reveal(built);
        let step = reduce_node(facts(nodes, src, top), from_open.0, after);
        assert(step == reduce_tree(nodes, src, top, before));
        assert(from_open.0.drop_first() =~= Seq::<AstNodeModel>::empty());
        assert(step.node == Some(AstNodeModel::Expr(wrapped(expr, n))));
        assert(step.progress.errors =~= after.errors);
        assert(step.progress.names == after.names);
    }
}

/// A name may be negated: when node `top` is a negation in the shape that
/// the parser gives it, the keyword and then a name with text, converting
/// it builds the negation of the expression that refers to that name,
/// interns the name, and records nothing.
pub proof fn lemma_negated_name(nodes: Seq<NodeData>, src: Seq<u8>, top: int, before: Progress)
    requires
        well_formed(nodes),
        1 <= top,
        top + 2 < nodes.len(),
        nodes[top].end == top + 3,
        kind_of(nodes, top) == Cool::NotExpression,
        kind_of(nodes, top + 1) == Cool::Not,
        nodes[top + 1].end == top + 2,
        kind_of(nodes, top + 2) == Cool::Identifier,
        text_of(src, nodes[top + 2].info) matches Some(text) && text.len() > 0,
    ensures
        ({
            let text = text_of(src, nodes[top + 2].info)->0;
            reduce_tree(nodes, src, top, before) == (Step {
                node: Some(
                    AstNodeModel::Expr(
                        ExprModel::Unary {
                            op: UnaryOp::Not,
                            right: Box::new(
                                ExprModel::Ident(
                                    IdentModel { name: intern_index(before.names, text) },
                                ),
                            ),
                        },
                    ),
                ),
                progress: Progress {
                    names: intern_names(before.names, text),
                    errors: before.errors,
                },
            })
        }),
{
    reveal(built);
    let text = text_of(src, nodes[top + 2].info)->0;
    let name = top + 2;
    assert(node_ok(nodes, top));
    assert(node_ok(nodes, top + 1));
    assert(node_ok(nodes, name));
    assert(nodes[name].parent == top);
    let keyword = reduce_tree(nodes, src, top + 1, before);
    assert(keyword.node is None);
    assert(keyword.progress.errors =~= before.errors);
    assert(keyword.progress == before);
    let value = AstNodeModel::Expr(
        ExprModel::Ident(IdentModel { name: intern_index(before.names, text) }),
    );
    let named = reduce_tree(nodes, src, name, before);
    assert(facts(nodes, src, name).in_expr);
    assert(named.node == Some(value));
    assert(named.progress.errors =~= before.errors);
    let after = named.progress;
    let last = reduce_children(nodes, src, top + 3, top + 3, after);
    assert(last == (Seq::<AstNodeModel>::empty(), after));
    let from_name = reduce_children(nodes, src, name, top + 3, before);
    assert(from_name.0 =~= seq![value]);
    assert(from_name.1 == after);
    let from_keyword = reduce_children(nodes, src, top + 1, top + 3, before);
    assert(from_keyword.0 =~= seq![value]);
    assert(from_keyword.1 == after);
    let step = reduce_node(facts(nodes, src, top), from_keyword.0, after);
    assert(step == reduce_tree(nodes, src, top, before));
    assert(step.progress.errors =~= before.errors);
}

} // verus!
