//! The child consumption protocol: how the rule for a node takes the values
//! built for its children out of their queue, from the front, each as the
//! kind of value that the rule expects at that place.

use super::model::{AstNodeModel, ExprModel, IdentModel};
use super::narrow::Narrow;
use super::{AstNode, Expr, Ident};
use std::collections::VecDeque;
use vstd::prelude::*;

verus! {

/// What goes wrong when a node is converted.
#[derive(Debug, PartialEq, Eq)]
pub enum Error {
    /// A child was there, but of another kind than expected at its place.
    Unexpected(AstNode),
    /// A list that must hold at least one item holds none.
    EmptyConstruct,
    /// Text or a child that must be there is missing, text is not what it
    /// must be, or the parser has marked the node as an error.
    InvalidSyntax,
}

/// Model of an `Error`.
pub enum ErrorModel {
    Unexpected(AstNodeModel),
    EmptyConstruct,
    InvalidSyntax,
}

impl View for Error {
    type V = ErrorModel;

    open spec fn view(&self) -> ErrorModel {
        match *self {
            Error::Unexpected(node) => ErrorModel::Unexpected(node@),
            Error::EmptyConstruct => ErrorModel::EmptyConstruct,
            Error::InvalidSyntax => ErrorModel::InvalidSyntax,
        }
    }
}

/// The models of the values in a queue.
pub open spec fn queue_model(queue: Seq<AstNode>) -> Seq<AstNodeModel> {
    queue.map_values(|node: AstNode| node@)
}

/// The models of the values in a list.
pub open spec fn models<T: Narrow>(values: Seq<T>) -> Seq<T::Model> {
    values.map_values(|value: T| value.model())
}

/// The models of the errors in a list.
pub open spec fn error_models(errors: Seq<Error>) -> Seq<ErrorModel> {
    errors.map_values(|error: Error| error@)
}

/// Taking a value that must be there: the front of the queue as a value of
/// the expected kind, with the rest of the queue. A front of another kind is
/// an error, the unexpected value; an empty queue is an error too, invalid
/// syntax, for the child that is missing.
pub open spec fn required<T: Narrow>(queue: Seq<AstNodeModel>) -> Result<
    (T::Model, Seq<AstNodeModel>),
    Seq<ErrorModel>,
> {
    if queue.len() == 0 {
        Err(seq![ErrorModel::InvalidSyntax])
    } else {
        match T::narrowed(queue[0]) {
            Some(value) => Ok((value, queue.drop_first())),
            None => Err(seq![ErrorModel::Unexpected(queue[0])]),
        }
    }
}

/// The expression that a value is where an expression is expected: an
/// expression is itself, and a plain name is the expression that refers to
/// what it names.
pub open spec fn as_expr(node: AstNodeModel) -> Option<ExprModel> {
    match node {
        AstNodeModel::Expr(expr) => Some(expr),
        AstNodeModel::Ident(name) => Some(ExprModel::Ident(name)),
        _ => None,
    }
}

/// The name that a value is where a name is expected: a plain name is
/// itself, and an expression that is only a name is that name.
pub open spec fn as_name(node: AstNodeModel) -> Option<IdentModel> {
    match node {
        AstNodeModel::Ident(name) => Some(name),
        AstNodeModel::Expr(ExprModel::Ident(name)) => Some(name),
        _ => None,
    }
}

/// Taking a value that must be there and is read by `read`: as `required`,
/// for a place where more than one kind of value will do.
pub open spec fn required_as<A>(
    queue: Seq<AstNodeModel>,
    read: spec_fn(AstNodeModel) -> Option<A>,
) -> Result<(A, Seq<AstNodeModel>), Seq<ErrorModel>> {
    if queue.len() == 0 {
        Err(seq![ErrorModel::InvalidSyntax])
    } else {
        match read(queue[0]) {
            Some(value) => Ok((value, queue.drop_first())),
            None => Err(seq![ErrorModel::Unexpected(queue[0])]),
        }
    }
}

/// Taking a value that may be absent and is read by `read`: as `optional`,
/// for a place where more than one kind of value will do.
pub open spec fn optional_as<A>(
    queue: Seq<AstNodeModel>,
    read: spec_fn(AstNodeModel) -> Option<A>,
) -> (Option<A>, Seq<AstNodeModel>) {
    if queue.len() == 0 {
        (None, queue)
    } else {
        match read(queue[0]) {
            Some(value) => (Some(value), queue.drop_first()),
            None => (None, queue),
        }
    }
}

/// Taking an expression that must be there.
pub open spec fn required_expr(queue: Seq<AstNodeModel>) -> Result<
    (ExprModel, Seq<AstNodeModel>),
    Seq<ErrorModel>,
> {
    required_as(queue, |node: AstNodeModel| as_expr(node))
}

/// Taking an expression that may be absent.
pub open spec fn optional_expr(queue: Seq<AstNodeModel>) -> (Option<ExprModel>, Seq<AstNodeModel>) {
    optional_as(queue, |node: AstNodeModel| as_expr(node))
}

/// Taking a name that must be there.
pub open spec fn required_name(queue: Seq<AstNodeModel>) -> Result<
    (IdentModel, Seq<AstNodeModel>),
    Seq<ErrorModel>,
> {
    required_as(queue, |node: AstNodeModel| as_name(node))
}

/// Taking a name that may be absent.
pub open spec fn optional_name(queue: Seq<AstNodeModel>) -> (Option<IdentModel>, Seq<AstNodeModel>) {
    optional_as(queue, |node: AstNodeModel| as_name(node))
}

/// Taking a value that may be absent: the front of the queue as a value of
/// the expected kind, with the rest of the queue; or nothing, with the queue
/// as it was, when it is empty or its front is of another kind.
pub open spec fn optional<T: Narrow>(queue: Seq<AstNodeModel>) -> (
    Option<T::Model>,
    Seq<AstNodeModel>,
) {
    if queue.len() == 0 {
        (None, queue)
    } else {
        match T::narrowed(queue[0]) {
            Some(value) => (Some(value), queue.drop_first()),
            None => (None, queue),
        }
    }
}

/// The items of the queue that are of the expected kind, in order.
pub open spec fn fitting<T: Narrow>(queue: Seq<AstNodeModel>) -> Seq<T::Model>
    decreases queue.len(),
{
    if queue.len() == 0 {
        Seq::empty()
    } else {
        match T::narrowed(queue.last()) {
            Some(value) => fitting::<T>(queue.drop_last()).push(value),
            None => fitting::<T>(queue.drop_last()),
        }
    }
}

/// One error for each item of the queue that is of another kind than
/// expected, in order.
pub open spec fn misfits<T: Narrow>(queue: Seq<AstNodeModel>) -> Seq<ErrorModel>
    decreases queue.len(),
{
    if queue.len() == 0 {
        Seq::empty()
    } else {
        match T::narrowed(queue.last()) {
            Some(value) => misfits::<T>(queue.drop_last()),
            None => misfits::<T>(queue.drop_last()).push(ErrorModel::Unexpected(queue.last())),
        }
    }
}

/// Taking all that is left as values of one kind: the values in order, or,
/// when some item is of another kind, the errors for those items.
pub open spec fn all<T: Narrow>(queue: Seq<AstNodeModel>) -> Result<Seq<T::Model>, Seq<ErrorModel>> {
    if misfits::<T>(queue).len() == 0 {
        Ok(fitting::<T>(queue))
    } else {
        Err(misfits::<T>(queue))
    }
}

/// The items of the queue that are expressions or plain names, each as an
/// expression, in order.
pub open spec fn expressions(queue: Seq<AstNodeModel>) -> Seq<ExprModel>
    decreases queue.len(),
{
    if queue.len() == 0 {
        Seq::empty()
    } else {
        match as_expr(queue.last()) {
            Some(value) => expressions(queue.drop_last()).push(value),
            None => expressions(queue.drop_last()),
        }
    }
}

/// One error for each item of the queue that is neither an expression nor
/// a plain name, in order.
pub open spec fn strangers(queue: Seq<AstNodeModel>) -> Seq<ErrorModel>
    decreases queue.len(),
{
    if queue.len() == 0 {
        Seq::empty()
    } else {
        match as_expr(queue.last()) {
            Some(value) => strangers(queue.drop_last()),
            None => strangers(queue.drop_last()).push(ErrorModel::Unexpected(queue.last())),
        }
    }
}

/// Taking all that is left as expressions: the expressions in order, or,
/// when some item is none, the errors for those items.
pub open spec fn all_exprs(queue: Seq<AstNodeModel>) -> Result<Seq<ExprModel>, Seq<ErrorModel>> {
    if strangers(queue).len() == 0 {
        Ok(expressions(queue))
    } else {
        Err(strangers(queue))
    }
}

/// The models of the expressions in a list.
pub open spec fn expr_models(values: Seq<Expr>) -> Seq<ExprModel> {
    values.map_values(|value: Expr| value@)
}

/// As `all`, for a list that must not be empty.
pub open spec fn non_zero<T: Narrow>(queue: Seq<AstNodeModel>) -> Result<
    Seq<T::Model>,
    Seq<ErrorModel>,
> {
    match all::<T>(queue) {
        Ok(values) => if values.len() == 0 {
            Err(seq![ErrorModel::EmptyConstruct])
        } else {
            Ok(values)
        },
        Err(errors) => Err(errors),
    }
}

/// When every item fits, there are as many values as items.
pub proof fn lemma_fitting_len<T: Narrow>(queue: Seq<AstNodeModel>)
    ensures
        fitting::<T>(queue).len() + misfits::<T>(queue).len() == queue.len(),
    decreases queue.len(),
{
    if queue.len() > 0 {
        lemma_fitting_len::<T>(queue.drop_last());
    }
}

/// When every item fits, the values are the items, each narrowed, in order.
pub proof fn lemma_all_fit<T: Narrow>(queue: Seq<AstNodeModel>)
    requires
        misfits::<T>(queue).len() == 0,
    ensures
        fitting::<T>(queue).len() == queue.len(),
        forall|i: int|
            0 <= i < queue.len() ==> T::narrowed(#[trigger] queue[i]) == Some(
                fitting::<T>(queue)[i],
            ),
    decreases queue.len(),
{
    if queue.len() > 0 {
        lemma_fitting_len::<T>(queue);
        lemma_fitting_len::<T>(queue.drop_last());
        lemma_all_fit::<T>(queue.drop_last());
        assert forall|i: int| 0 <= i < queue.len() implies T::narrowed(#[trigger] queue[i])
            == Some(fitting::<T>(queue)[i]) by {
            if i < queue.len() - 1 {
                assert(queue.drop_last()[i] == queue[i]);
            }
        }
    }
}

/// Putting back: when the front of the queue is not of the kind that may
/// stand there but of the kind that must follow, taking the optional value
/// gives nothing and leaves the queue as it was, and taking the required
/// value then gives that front and leaves the items behind it, in order.
pub proof fn lemma_put_back<X: Narrow, Y: Narrow>(queue: Seq<AstNodeModel>, value: Y::Model)
    requires
        queue.len() > 0,
        X::narrowed(queue[0]) is None,
        Y::narrowed(queue[0]) == Some(value),
    ensures
        optional::<X>(queue) == (None::<X::Model>, queue),
        required::<Y>(optional::<X>(queue).1) == Ok::<
            (Y::Model, Seq<AstNodeModel>),
            Seq<ErrorModel>,
        >((value, queue.drop_first())),
{
}

/// Takes the front of the queue as a value of kind `T`. When the queue is
/// empty nothing changes and the error is invalid syntax; when the front is
/// of another kind it leaves the queue and comes back inside the error.
pub fn consume_required<T: Narrow>(children: &mut VecDeque<AstNode>) -> (r: Result<T, Error>)
    ensures
        (match required::<T>(queue_model(old(children)@)) {
            Ok((value, rest)) => r matches Ok(v) && v.model() == value && queue_model(
                final(children)@,
            ) == rest,
            Err(errors) => r matches Err(e) && seq![e@] == errors,
        }),
        old(children)@.len() == 0 ==> final(children)@ == old(children)@ && r == Err::<T, Error>(
            Error::InvalidSyntax,
        ),
        old(children)@.len() > 0 ==> final(children)@ == old(children)@.drop_first(),
        old(children)@.len() > 0 && r is Err ==> r == Err::<T, Error>(
            Error::Unexpected(old(children)@[0]),
        ),
{
    match children.pop_front() {
        None => Err(Error::InvalidSyntax),
        Some(child) => {
            match T::narrow(child) {
                Ok(value) => Ok(value),
                Err(other) => Err(Error::Unexpected(other)),
            }
        },
    }
}

/// Takes the front of the queue if it is a value of kind `T`. When it is of
/// another kind it is put back at the front, so that the queue is as it was.
pub fn consume_optional<T: Narrow>(children: &mut VecDeque<AstNode>) -> (r: Option<T>)
    ensures
        (match optional::<T>(queue_model(old(children)@)).0 {
            Some(value) => r matches Some(v) && v.model() == value && final(children)@ == old(
                children,
            )@.drop_first(),
            None => r is None && final(children)@ == old(children)@,
        }),
        queue_model(final(children)@) == optional::<T>(queue_model(old(children)@)).1,
{
    match children.pop_front() {
        None => None,
        Some(child) => {
            match T::narrow(child) {
                Ok(value) => Some(value),
                Err(other) => {
                    children.push_front(other);
                    None
                },
            }
        },
    }
}

/// Takes the front of the queue as an expression: an expression as it is,
/// a plain name as the expression that refers to what it names. When the
/// queue is empty nothing changes and the error is invalid syntax; a front
/// that is neither leaves the queue and comes back inside the error.
pub fn consume_expression(children: &mut VecDeque<AstNode>) -> (r: Result<Expr, Error>)
    ensures
        (match required_expr(queue_model(old(children)@)) {
            Ok((value, rest)) => r matches Ok(v) && v@ == value && queue_model(final(children)@)
                == rest,
            Err(errors) => r matches Err(e) && seq![e@] == errors,
        }),
        old(children)@.len() == 0 ==> final(children)@ == old(children)@,
        old(children)@.len() > 0 ==> final(children)@ == old(children)@.drop_first(),
{
    match children.pop_front() {
        None => Err(Error::InvalidSyntax),
        Some(AstNode::Expr(expr)) => Ok(expr),
        Some(AstNode::Ident(name)) => Ok(Expr::Ident(name)),
        Some(other) => Err(Error::Unexpected(other)),
    }
}

/// Takes the front of the queue if it is an expression or a plain name.
/// Any other front is put back, so that the queue is as it was.
pub fn consume_optional_expression(children: &mut VecDeque<AstNode>) -> (r: Option<Expr>)
    ensures
        (match optional_expr(queue_model(old(children)@)).0 {
            Some(value) => r matches Some(v) && v@ == value && final(children)@ == old(
                children,
            )@.drop_first(),
            None => r is None && final(children)@ == old(children)@,
        }),
        queue_model(final(children)@) == optional_expr(queue_model(old(children)@)).1,
{
    match children.pop_front() {
        None => None,
        Some(AstNode::Expr(expr)) => Some(expr),
        Some(AstNode::Ident(name)) => Some(Expr::Ident(name)),
        Some(other) => {
            children.push_front(other);
            assert(children@ =~= old(children)@);
            None
        },
    }
}

/// Takes the front of the queue as a name: a plain name as it is, an
/// expression that is only a name as that name. When the queue is empty
/// nothing changes and the error is invalid syntax; a front that is neither
/// leaves the queue and comes back inside the error.
pub fn consume_name(children: &mut VecDeque<AstNode>) -> (r: Result<Ident, Error>)
    ensures
        (match required_name(queue_model(old(children)@)) {
            Ok((value, rest)) => r matches Ok(v) && v@ == value && queue_model(final(children)@)
                == rest,
            Err(errors) => r matches Err(e) && seq![e@] == errors,
        }),
        old(children)@.len() == 0 ==> final(children)@ == old(children)@,
        old(children)@.len() > 0 ==> final(children)@ == old(children)@.drop_first(),
{
    match children.pop_front() {
        None => Err(Error::InvalidSyntax),
        Some(AstNode::Ident(name)) => Ok(name),
        Some(AstNode::Expr(Expr::Ident(name))) => Ok(name),
        Some(other) => Err(Error::Unexpected(other)),
    }
}

/// Takes the front of the queue if it is a plain name or an expression
/// that is only a name. Any other front is put back, so that the queue is
/// as it was.
pub fn consume_optional_name(children: &mut VecDeque<AstNode>) -> (r: Option<Ident>)
    ensures
        (match optional_name(queue_model(old(children)@)).0 {
            Some(value) => r matches Some(v) && v@ == value && final(children)@ == old(
                children,
            )@.drop_first(),
            None => r is None && final(children)@ == old(children)@,
        }),
        queue_model(final(children)@) == optional_name(queue_model(old(children)@)).1,
{
    match children.pop_front() {
        None => None,
        Some(AstNode::Ident(name)) => Some(name),
        Some(AstNode::Expr(Expr::Ident(name))) => Some(name),
        Some(other) => {
            children.push_front(other);
            assert(children@ =~= old(children)@);
            None
        },
    }
}

/// Takes every item that is left as a value of kind `T`. When some item is
/// of another kind, each such item comes back inside an error, in order.
pub fn consume_all<T: Narrow>(children: VecDeque<AstNode>) -> (r: Result<Vec<T>, Vec<Error>>)
    ensures
        (match all::<T>(queue_model(children@)) {
            Ok(values) => r matches Ok(v) && models(v@) == values,
            Err(errors) => r matches Err(e) && error_models(e@) == errors,
        }),
{
    let mut children = children;
    let ghost queue = queue_model(children@);
    let ghost total = children@.len();
    let mut values: Vec<T> = Vec::new();
    let mut errors: Vec<Error> = Vec::new();
    let mut taken: usize = 0;
    let count = children.len();
    while children.len() > 0
        invariant
            taken + children@.len() == total,
            total == queue.len(),
            total <= usize::MAX,
            queue_model(children@) == queue.skip(taken as int),
            models(values@) == fitting::<T>(queue.take(taken as int)),
            error_models(errors@) == misfits::<T>(queue.take(taken as int)),
        decreases children@.len(),
    {
        let ghost before = children@;
        let child = children.pop_front().unwrap();
        proof {
            let rest = queue.skip(taken as int);
            assert(rest[0] == child@) by {
            }
            assert forall|i: int| 0 <= i < children@.len() implies queue_model(children@)[i]
                == queue.skip(taken + 1)[i] by {
                assert(queue_model(before)[i + 1] == before[i + 1]@);
            }
            assert(queue.take(taken + 1).drop_last() =~= queue.take(taken as int));
        }
        match T::narrow(child) {
            Ok(value) => {
                values.push(value);
            },
            Err(other) => {
                errors.push(Error::Unexpected(other));
            },
        }
        taken = taken + 1;
    }
    assert(queue.take(taken as int) =~= queue);
    if errors.len() == 0 {
        Ok(values)
    } else {
        Err(errors)
    }
}

/// Takes every item that is left as an expression, a plain name as the
/// expression that refers to what it names. When some item is neither,
/// each such item comes back inside an error, in order.
pub fn consume_expressions(children: VecDeque<AstNode>) -> (r: Result<Vec<Expr>, Vec<Error>>)
    ensures
        (match all_exprs(queue_model(children@)) {
            Ok(values) => r matches Ok(v) && expr_models(v@) == values,
            Err(errors) => r matches Err(e) && error_models(e@) == errors,
        }),
{
    let mut children = children;
    let ghost queue = queue_model(children@);
    let ghost total = children@.len();
    let mut values: Vec<Expr> = Vec::new();
    let mut errors: Vec<Error> = Vec::new();
    let mut taken: usize = 0;
    let count = children.len();
    while children.len() > 0
        invariant
            taken + children@.len() == total,
            total == queue.len(),
            total <= usize::MAX,
            queue_model(children@) == queue.skip(taken as int),
            expr_models(values@) == expressions(queue.take(taken as int)),
            error_models(errors@) == strangers(queue.take(taken as int)),
        decreases children@.len(),
    {
        let ghost before = children@;
        let child = children.pop_front().unwrap();
        proof {
            let rest = queue.skip(taken as int);
            assert(rest[0] == child@) by {
                assert(queue_model(before)[0] == before[0]@);
            }
            assert forall|i: int| 0 <= i < children@.len() implies queue_model(children@)[i]
                == queue.skip(taken + 1)[i] by {
                assert(queue_model(before)[i + 1] == before[i + 1]@);
            }
            assert(queue.take(taken + 1).drop_last() =~= queue.take(taken as int));
            assert(queue.take(taken + 1).last() == child@);
        }
        match child {
            AstNode::Expr(expr) => {
                values.push(expr);
            },
            AstNode::Ident(name) => {
                values.push(Expr::Ident(name));
            },
            other => {
                errors.push(Error::Unexpected(other));
            },
        }
        taken = taken + 1;
    }
    assert(queue.take(taken as int) =~= queue);
    if errors.len() == 0 {
        Ok(values)
    } else {
        Err(errors)
    }
}

/// As `consume_all`, for a list that must not be empty: when every item is
/// of kind `T` but there is none, the error is an empty construct.
pub fn consume_non_zero<T: Narrow>(children: VecDeque<AstNode>) -> (r: Result<Vec<T>, Vec<Error>>)
    ensures
        (match non_zero::<T>(queue_model(children@)) {
            Ok(values) => r matches Ok(v) && models(v@) == values,
            Err(errors) => r matches Err(e) && error_models(e@) == errors,
        }),
{
    match consume_all::<T>(children) {
        Ok(values) => {
            if values.len() == 0 {
                let mut errors: Vec<Error> = Vec::new();
                errors.push(Error::EmptyConstruct);
                Err(errors)
            } else {
                Ok(values)
            }
        },
        Err(errors) => Err(errors),
    }
}

} // verus!
