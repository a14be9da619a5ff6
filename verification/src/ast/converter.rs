//! The conversion of a concrete syntax tree into an abstract one: a walk over
//! the tree that keeps its own stack, and the rule that builds the value of
//! a node from the values of its children.

use super::bindings::{next_sibling, span_of, well_formed, Cursor, Node, NodeData, Tree};
use super::extract::{lexeme, string, trivial};
use super::model::{AstNodeModel, TypeModel};
use super::narrow::Narrow;
use super::protocol::{
    all, all_exprs, consume_all, consume_expression, consume_expressions, consume_name,
    consume_non_zero, consume_optional, consume_optional_expression, consume_optional_name,
    consume_required, error_models, expr_models, models, non_zero, optional, optional_expr,
    queue_model, required, required_expr, required_name, Error, ErrorModel,
};
use super::rules::{
    assignment_of, attribute_of, binary_of, binary_op_of, binding_of, built, case_arm_of,
    call_of, case_of, class_of, conditional_of, dispatch_of, facts, fails, gives, interned, join,
    kind_of, let_of, method_of, name_and_type, name_of, names_after, names_type, names_value,
    one_expr, produced, program_of, recorded, reduce_children, reduce_node, reduce_tree, spanned,
    two_exprs, unary_of, Built, Progress, Step,
};
use super::{
    Arguments, AstNode, Attribute, BinaryOp, CaseArm, CasePattern, Class, Expr, Feature, Features, Ident,
    LetBinding, LetBindings, Method, Param, Params, Program, Qualifier, Type, UnaryOp,
};
use crate::language::Cool;
use crate::util::interner::Interner;
use crate::util::span::{Span, Spanned};
use std::collections::VecDeque;
use vstd::prelude::*;

verus! {

/// The models of the recorded errors.
pub open spec fn record_models(errors: Seq<Spanned<Error>>) -> Seq<Spanned<ErrorModel>> {
    errors.map_values(|error: Spanned<Error>| error@)
}

/// The operator that a token of kind `kind` stands for between two
/// operands, if it stands for one.
pub fn operator_of(kind: Cool) -> (op: Option<BinaryOp>)
    ensures
        op == binary_op_of(kind),
{
    match kind {
        Cool::Plus => Some(BinaryOp::Add),
        Cool::Dash => Some(BinaryOp::Sub),
        Cool::Star => Some(BinaryOp::Mul),
        Cool::Slash => Some(BinaryOp::Div),
        Cool::Lt => Some(BinaryOp::Lt),
        Cool::Lte => Some(BinaryOp::Lte),
        Cool::Eq => Some(BinaryOp::Eq),
        _ => None,
    }
}

/// The state of one conversion: the source, the place in the tree, and the
/// errors recorded so far.
struct Converter<'src> {
    src: &'src [u8],
    cursor: Cursor<'src>,
    errors: Vec<Spanned<Error>>,
}

/// What a rule owes: with a value built, that value and no new error; with
/// errors, no value and those errors recorded for the node at the cursor.
spec fn settles(before: Converter, after: Converter, built: Built, r: Result<AstNode, ()>) -> bool {
    &&& after.src == before.src
    &&& after.cursor == before.cursor
    &&& match built {
        Ok(node) => r matches Ok(value) && value@ == node && record_models(after.errors@)
            == record_models(before.errors@),
        Err(errors) => r is Err && record_models(after.errors@) == record_models(before.errors@)
            + spanned(errors, before.span()),
    }
}

impl<'src> Converter<'src> {
    /// The region of the node at the cursor.
    spec fn span(&self) -> Span {
        span_of(self.cursor.position().nodes()[self.cursor.position().index()].info)
    }

    /// Records `error` for the node at the cursor.
    fn error(&mut self, error: Error)
        ensures
            final(self).src == old(self).src,
            final(self).cursor == old(self).cursor,
            record_models(final(self).errors@) == record_models(old(self).errors@).push(
                Spanned { inner: error@, span: old(self).span() },
            ),
            record_models(final(self).errors@) == record_models(old(self).errors@) + spanned(
                seq![error@],
                old(self).span(),
            ),
    {
        let span = self.cursor.node().span();
        self.errors.push(Spanned { inner: error, span });
    }

    /// Records each of `errors` for the node at the cursor, in order.
    fn error_all(&mut self, errors: Vec<Error>)
        ensures
            final(self).src == old(self).src,
            final(self).cursor == old(self).cursor,
            record_models(final(self).errors@) == record_models(old(self).errors@) + spanned(
                error_models(errors@),
                old(self).span(),
            ),
    {
        let ghost list = error_models(errors@);
        let ghost start = record_models(self.errors@);
        let ghost span = self.span();
        for error in iter: errors
            invariant
                self.src == old(self).src,
                self.cursor == old(self).cursor,
                span == old(self).span(),
                list == error_models(errors@),
                iter.seq() == errors@,
                record_models(self.errors@) == start + spanned(list.take(iter.index() as int), span),
        {
            self.error(error);
        }
    }

    /// Takes a value that must be there; records the error when it is not.
    fn consume<T: Narrow>(&mut self, children: &mut VecDeque<AstNode>) -> (r: Result<T, ()>)
        ensures
            final(self).src == old(self).src,
            final(self).cursor == old(self).cursor,
            (match required::<T>(queue_model(old(children)@)) {
                Ok((value, rest)) => r matches Ok(v) && v.model() == value && queue_model(
                    final(children)@,
                ) == rest && record_models(final(self).errors@) == record_models(
                    old(self).errors@,
                ),
                Err(errors) => r is Err && record_models(final(self).errors@) == record_models(
                    old(self).errors@,
                ) + spanned(errors, old(self).span()),
            }),
    {
        match consume_required::<T>(children) {
            Ok(value) => Ok(value),
            Err(error) => {
                self.error(error);
                Err(())
            },
        }
    }

    /// Takes an expression that must be there; records the error when it
    /// is not.
    fn consume_expr(&mut self, children: &mut VecDeque<AstNode>) -> (r: Result<Expr, ()>)
        ensures
            final(self).src == old(self).src,
            final(self).cursor == old(self).cursor,
            (match required_expr(queue_model(old(children)@)) {
                Ok((value, rest)) => r matches Ok(v) && v@ == value && queue_model(
                    final(children)@,
                ) == rest && record_models(final(self).errors@) == record_models(
                    old(self).errors@,
                ),
                Err(errors) => r is Err && record_models(final(self).errors@) == record_models(
                    old(self).errors@,
                ) + spanned(errors, old(self).span()),
            }),
    {
        match consume_expression(children) {
            Ok(value) => Ok(value),
            Err(error) => {
                self.error(error);
                Err(())
            },
        }
    }

    /// Takes an expression that may be absent.
    fn consume_opt_expr(&mut self, children: &mut VecDeque<AstNode>) -> (r: Option<Expr>)
        ensures
            *final(self) == *old(self),
            (match optional_expr(queue_model(old(children)@)).0 {
                Some(value) => r matches Some(v) && v@ == value,
                None => r is None,
            }),
            queue_model(final(children)@) == optional_expr(queue_model(old(children)@)).1,
    {
        consume_optional_expression(children)
    }

    /// Takes a name that must be there; records the error when it is not.
    fn consume_name(&mut self, children: &mut VecDeque<AstNode>) -> (r: Result<Ident, ()>)
        ensures
            final(self).src == old(self).src,
            final(self).cursor == old(self).cursor,
            (match required_name(queue_model(old(children)@)) {
                Ok((value, rest)) => r matches Ok(v) && v@ == value && queue_model(
                    final(children)@,
                ) == rest && record_models(final(self).errors@) == record_models(
                    old(self).errors@,
                ),
                Err(errors) => r is Err && record_models(final(self).errors@) == record_models(
                    old(self).errors@,
                ) + spanned(errors, old(self).span()),
            }),
    {
        match consume_name(children) {
            Ok(value) => Ok(value),
            Err(error) => {
                self.error(error);
                Err(())
            },
        }
    }

    /// Takes all that is left as expressions; records the errors when some
    /// item is none.
    fn consume_exprs(&mut self, children: VecDeque<AstNode>) -> (r: Result<Vec<Expr>, ()>)
        ensures
            final(self).src == old(self).src,
            final(self).cursor == old(self).cursor,
            (match all_exprs(queue_model(children@)) {
                Ok(values) => r matches Ok(v) && expr_models(v@) == values && record_models(
                    final(self).errors@,
                ) == record_models(old(self).errors@),
                Err(errors) => r is Err && record_models(final(self).errors@) == record_models(
                    old(self).errors@,
                ) + spanned(errors, old(self).span()),
            }),
    {
        match consume_expressions(children) {
            Ok(values) => Ok(values),
            Err(errors) => {
                self.error_all(errors);
                Err(())
            },
        }
    }

    /// Takes a value that may be absent.
    fn consume_opt<T: Narrow>(&mut self, children: &mut VecDeque<AstNode>) -> (r: Option<T>)
        ensures
            *final(self) == *old(self),
            (match optional::<T>(queue_model(old(children)@)).0 {
                Some(value) => r matches Some(v) && v.model() == value,
                None => r is None,
            }),
            queue_model(final(children)@) == optional::<T>(queue_model(old(children)@)).1,
    {
        consume_optional::<T>(children)
    }

    /// Takes all that is left as values of one kind; records the errors when
    /// some item is of another kind.
    fn consume_all<T: Narrow>(&mut self, children: VecDeque<AstNode>) -> (r: Result<Vec<T>, ()>)
        ensures
            final(self).src == old(self).src,
            final(self).cursor == old(self).cursor,
            (match all::<T>(queue_model(children@)) {
                Ok(values) => r matches Ok(v) && models(v@) == values && record_models(
                    final(self).errors@,
                ) == record_models(old(self).errors@),
                Err(errors) => r is Err && record_models(final(self).errors@) == record_models(
                    old(self).errors@,
                ) + spanned(errors, old(self).span()),
            }),
    {
        match consume_all::<T>(children) {
            Ok(values) => Ok(values),
            Err(errors) => {
                self.error_all(errors);
                Err(())
            },
        }
    }

    /// As `consume_all`, for a list that must not be empty.
    fn consume_non_zero<T: Narrow>(&mut self, children: VecDeque<AstNode>) -> (r: Result<
        Vec<T>,
        (),
    >)
        ensures
            final(self).src == old(self).src,
            final(self).cursor == old(self).cursor,
            (match non_zero::<T>(queue_model(children@)) {
                Ok(values) => r matches Ok(v) && models(v@) == values && record_models(
                    final(self).errors@,
                ) == record_models(old(self).errors@),
                Err(errors) => r is Err && record_models(final(self).errors@) == record_models(
                    old(self).errors@,
                ) + spanned(errors, old(self).span()),
            }),
    {
        match consume_non_zero::<T>(children) {
            Ok(values) => Ok(values),
            Err(errors) => {
                self.error_all(errors);
                Err(())
            },
        }
    }
}

impl<'src> Converter<'src> {
    /// The rule for a class.
    fn cast_class(&mut self, children: VecDeque<AstNode>) -> (r: Result<AstNode, ()>)
        ensures
            settles(*old(self), *final(self), class_of(queue_model(children@)), r),
    {
        let mut children = children;
        let name: Type = self.consume(&mut children)?;
        let inherits: Option<Type> = self.consume_opt(&mut children);
        let features: Features = self.consume(&mut children)?;
        Ok(Class { name, inherits, features }.widen())
    }

    /// The rule for an attribute.
    fn cast_attribute(&mut self, children: VecDeque<AstNode>) -> (r: Result<AstNode, ()>)
        ensures
            settles(*old(self), *final(self), attribute_of(queue_model(children@)), r),
    {
        let mut children = children;
        let name: Ident = self.consume(&mut children)?;
        let ty: Type = self.consume(&mut children)?;
        let initializer: Option<Expr> = self.consume_opt_expr(&mut children);
        Ok(Feature::Attribute(Attribute { name, ty, initializer }).widen())
    }

    /// The rule for a method.
    fn cast_method(&mut self, children: VecDeque<AstNode>) -> (r: Result<AstNode, ()>)
        ensures
            settles(*old(self), *final(self), method_of(queue_model(children@)), r),
    {
        let mut children = children;
        let name: Ident = self.consume(&mut children)?;
        let params: Params = self.consume(&mut children)?;
        let return_ty: Type = self.consume(&mut children)?;
        let body: Expr = self.consume_expr(&mut children)?;
        Ok(Feature::Method(Method { name, params, return_ty, body }).widen())
    }

    /// A name and a type, for the rules of a parameter and of a case pattern.
    fn cast_name_and_type(&mut self, children: VecDeque<AstNode>) -> (r: Result<(Ident, Type), ()>)
        ensures
            final(self).src == old(self).src,
            final(self).cursor == old(self).cursor,
            (match name_and_type(queue_model(children@)) {
                Ok((name, ty)) => r matches Ok(v) && v.0@ == name && v.1@ == ty && record_models(
                    final(self).errors@,
                ) == record_models(old(self).errors@),
                Err(errors) => r is Err && record_models(final(self).errors@) == record_models(
                    old(self).errors@,
                ) + spanned(errors, old(self).span()),
            }),
    {
        let mut children = children;
        let name: Ident = self.consume(&mut children)?;
        let ty: Type = self.consume(&mut children)?;
        Ok((name, ty))
    }

    /// The rule for a binding of a `let`.
    fn cast_binding(&mut self, children: VecDeque<AstNode>) -> (r: Result<AstNode, ()>)
        ensures
            settles(*old(self), *final(self), binding_of(queue_model(children@)), r),
    {
        let mut children = children;
        let name: Ident = self.consume(&mut children)?;
        let ty: Type = self.consume(&mut children)?;
        let right: Option<Expr> = self.consume_opt_expr(&mut children);
        Ok(LetBinding { name, ty, right }.widen())
    }

    /// The rule for an assignment.
    fn cast_assignment(&mut self, children: VecDeque<AstNode>) -> (r: Result<AstNode, ()>)
        ensures
            settles(*old(self), *final(self), assignment_of(queue_model(children@)), r),
    {
        let mut children = children;
        let name: Ident = self.consume_name(&mut children)?;
        let right: Expr = self.consume_expr(&mut children)?;
        Ok(Expr::Assignment { name, right: Box::new(right) }.widen())
    }

    /// The end of the rule for a dispatch: the arguments.
    fn cast_call(
        &mut self,
        qualifier: Option<Qualifier>,
        method: Ident,
        children: VecDeque<AstNode>,
    ) -> (r: Result<AstNode, ()>)
        ensures
            settles(
                *old(self),
                *final(self),
                call_of(
                    match qualifier {
                        Some(q) => Some(q@),
                        None => None,
                    },
                    method@,
                    queue_model(children@),
                ),
                r,
            ),
    {
        let mut children = children;
        let args: Arguments = self.consume(&mut children)?;
        let ghost list = args@.0;
        let expr = Expr::Dispatch { qualifier, method, args: args.0 };
        assert(expr@->args =~= list);
        Ok(expr.widen())
    }

    /// The rule for a dispatch.
    fn cast_dispatch(&mut self, children: VecDeque<AstNode>) -> (r: Result<AstNode, ()>)
        ensures
            settles(*old(self), *final(self), dispatch_of(queue_model(children@)), r),
    {
        let mut children = children;
        let first: Expr = self.consume_expr(&mut children)?;
        let parent: Option<Type> = self.consume_opt(&mut children);
        if parent.is_some() {
            let method: Ident = self.consume_name(&mut children)?;
            self.cast_call(Some(Qualifier { value: Box::new(first), parent }), method, children)
        } else {
            match consume_optional_name(&mut children) {
                Some(method) => self.cast_call(
                    Some(Qualifier { value: Box::new(first), parent }),
                    method,
                    children,
                ),
                None => match first {
                    Expr::Ident(method) => self.cast_call(None, method, children),
                    other => {
                        self.error(Error::Unexpected(AstNode::Expr(other)));
                        Err(())
                    },
                },
            }
        }
    }

    /// One expression, for the rules of operators and parentheses.
    fn cast_one(&mut self, children: VecDeque<AstNode>) -> (r: Result<Expr, ()>)
        ensures
            final(self).src == old(self).src,
            final(self).cursor == old(self).cursor,
            (match one_expr(queue_model(children@)) {
                Ok(first) => r matches Ok(v) && v@ == first && record_models(final(self).errors@)
                    == record_models(old(self).errors@),
                Err(errors) => r is Err && record_models(final(self).errors@) == record_models(
                    old(self).errors@,
                ) + spanned(errors, old(self).span()),
            }),
    {
        let mut children = children;
        let first: Expr = self.consume_expr(&mut children)?;
        Ok(first)
    }

    /// Two expressions.
    fn cast_two(&mut self, children: VecDeque<AstNode>) -> (r: Result<(Expr, Expr), ()>)
        ensures
            final(self).src == old(self).src,
            final(self).cursor == old(self).cursor,
            (match two_exprs(queue_model(children@)) {
                Ok((first, second)) => r matches Ok(v) && v.0@ == first && v.1@ == second
                    && record_models(final(self).errors@) == record_models(old(self).errors@),
                Err(errors) => r is Err && record_models(final(self).errors@) == record_models(
                    old(self).errors@,
                ) + spanned(errors, old(self).span()),
            }),
    {
        let mut children = children;
        let first: Expr = self.consume_expr(&mut children)?;
        let second: Expr = self.consume_expr(&mut children)?;
        Ok((first, second))
    }

    /// The rule for a conditional.
    fn cast_conditional(&mut self, children: VecDeque<AstNode>) -> (r: Result<AstNode, ()>)
        ensures
            settles(*old(self), *final(self), conditional_of(queue_model(children@)), r),
    {
        let mut children = children;
        let condition: Expr = self.consume_expr(&mut children)?;
        let (consequence, alternative) = self.cast_two(children)?;
        Ok(
            Expr::Conditional {
                condition: Box::new(condition),
                consequence: Box::new(consequence),
                alternative: Box::new(alternative),
            }.widen(),
        )
    }

    /// The rule for a `let`.
    fn cast_let(&mut self, children: VecDeque<AstNode>) -> (r: Result<AstNode, ()>)
        ensures
            settles(*old(self), *final(self), let_of(queue_model(children@)), r),
    {
        let mut children = children;
        let bindings: LetBindings = self.consume(&mut children)?;
        let body: Expr = self.consume_expr(&mut children)?;
        Ok(Expr::Let { bindings, body: Box::new(body) }.widen())
    }

    /// The rule for a `case`.
    fn cast_case(&mut self, children: VecDeque<AstNode>) -> (r: Result<AstNode, ()>)
        ensures
            settles(*old(self), *final(self), case_of(queue_model(children@)), r),
    {
        let mut children = children;
        let value: Expr = self.consume_expr(&mut children)?;
        let body: Vec<CaseArm> = self.consume_non_zero(children)?;
        let ghost list = models(body@);
        let expr = Expr::Case { value: Box::new(value), body };
        assert(expr@->Case_body =~= list);
        Ok(expr.widen())
    }

    /// The rule for an arm of a `case`.
    fn cast_case_arm(&mut self, children: VecDeque<AstNode>) -> (r: Result<AstNode, ()>)
        ensures
            settles(*old(self), *final(self), case_arm_of(queue_model(children@)), r),
    {
        let mut children = children;
        let pat: CasePattern = self.consume(&mut children)?;
        let value: Expr = self.consume_expr(&mut children)?;
        Ok(CaseArm { pat, value: Box::new(value) }.widen())
    }

    /// The rule for an operator with one operand.
    fn cast_unary(&mut self, op: UnaryOp, children: VecDeque<AstNode>) -> (r: Result<AstNode, ()>)
        ensures
            settles(*old(self), *final(self), unary_of(op, queue_model(children@)), r),
    {
        let right = self.cast_one(children)?;
        Ok(Expr::Unary { op, right: Box::new(right) }.widen())
    }

    /// The operator of the binary expression `node`, read from its second
    /// child; an error is recorded when there is no such child or it is no
    /// operator.
    fn convert_binop(&mut self, node: &Node) -> (op: Option<BinaryOp>)
        requires
            well_formed(node.nodes()),
        ensures
            final(self).src == old(self).src,
            final(self).cursor == old(self).cursor,
            op == (match facts(node.nodes(), old(self).src@, node.index()).second {
                Some(kind) => binary_op_of(kind),
                None => None,
            }),
            record_models(final(self).errors@) == record_models(old(self).errors@) + (if op
                is None {
                spanned(seq![ErrorModel::InvalidSyntax], old(self).span())
            } else {
                Seq::empty()
            }),
    {
        let found = match node.child(1) {
            Some(token) => operator_of(token.rule()),
            None => None,
        };
        if found.is_none() {
            self.error(Error::InvalidSyntax);
        }
        found
    }

    /// The rule for an operator with two operands.
    fn cast_binary(&mut self, node: &Node, children: VecDeque<AstNode>) -> (r: Result<
        AstNode,
        (),
    >)
        requires
            well_formed(node.nodes()),
        ensures
            settles(
                *old(self),
                *final(self),
                binary_of(
                    facts(node.nodes(), old(self).src@, node.index()),
                    queue_model(children@),
                ),
                r,
            ),
    {
        let op = match self.convert_binop(node) {
            Some(op) => op,
            None => {
                return Err(());
            },
        };
        let (left, right) = self.cast_two(children)?;
        Ok(Expr::Binary { op, left: Box::new(left), right: Box::new(right) }.widen())
    }

    /// The name that `node` spells, interned; an error is recorded when the
    /// node has no text.
    fn convert_ident(&mut self, interner: &mut Interner, node: &Node<'src>) -> (name: Option<Ident>)
        requires
            old(interner).wf(),
            names_type(kind_of(node.nodes(), node.index())) || names_value(
                kind_of(node.nodes(), node.index()),
            ),
        ensures
            final(interner).wf(),
            final(self).src == old(self).src,
            final(self).cursor == old(self).cursor,
            final(interner)@ == names_after(
                facts(node.nodes(), old(self).src@, node.index()),
                old(interner)@,
            ),
            (match name_of(facts(node.nodes(), old(self).src@, node.index()), old(interner)@) {
                Some(model) => name matches Some(v) && v@ == model && record_models(
                    final(self).errors@,
                ) == record_models(old(self).errors@),
                None => name is None && record_models(final(self).errors@) == record_models(
                    old(self).errors@,
                ) + spanned(seq![ErrorModel::InvalidSyntax], old(self).span()),
            }),
    {
        let name = lexeme(self.src, node);
        if name.is_empty() {
            self.error(Error::InvalidSyntax);
            return None;
        }
        Some(Ident { name: interner.intern(name) })
    }

    /// The type that `node` names.
    fn convert_type(&mut self, interner: &mut Interner, node: &Node<'src>) -> (name: Option<Type>)
        requires
            old(interner).wf(),
            names_type(kind_of(node.nodes(), node.index())) || names_value(
                kind_of(node.nodes(), node.index()),
            ),
        ensures
            final(interner).wf(),
            final(self).src == old(self).src,
            final(self).cursor == old(self).cursor,
            final(interner)@ == names_after(
                facts(node.nodes(), old(self).src@, node.index()),
                old(interner)@,
            ),
            (match name_of(facts(node.nodes(), old(self).src@, node.index()), old(interner)@) {
                Some(model) => name matches Some(v) && v@ == TypeModel(model) && record_models(
                    final(self).errors@,
                ) == record_models(old(self).errors@),
                None => name is None && record_models(final(self).errors@) == record_models(
                    old(self).errors@,
                ) + spanned(seq![ErrorModel::InvalidSyntax], old(self).span()),
            }),
    {
        match self.convert_ident(interner, node) {
            Some(name) => Some(Type(name)),
            None => None,
        }
    }

    /// The rule of reduction: builds the value of `node` from the values
    /// built for its children, or fails. A failure that is a fault of the
    /// source is recorded as an error for the node.
    #[verifier::rlimit(60)]
    fn try_cast(
        &mut self,
        interner: &mut Interner,
        node: &Node<'src>,
        children: VecDeque<AstNode>,
    ) -> (r: Result<AstNode, ()>)
        requires
            old(interner).wf(),
        ensures
            final(interner).wf(),
            final(self).src == old(self).src,
            final(self).cursor.position() == *node,
            ({
                let step = reduce_node(
                    facts(node.nodes(), old(self).src@, node.index()),
                    queue_model(children@),
                    Progress {
                        names: old(interner)@,
                        errors: record_models(old(self).errors@),
                    },
                );
                &&& final(interner)@ == step.progress.names
                &&& record_models(final(self).errors@) == step.progress.errors
                &&& match step.node {
                    Some(model) => r matches Ok(value) && value@ == model,
                    None => r is Err,
                }
            }),
    {
        proof {
            reveal(built);
        }
        self.cursor.reset(node);
        let data = node.data();
        match Cool::from(data.info.kind) {
            Cool::SourceFile => {
                let classes: Vec<Class> = self.consume_non_zero(children)?;
                let ghost list = models(classes@);
                let program = Program { classes };
                assert(program@.classes =~= list);
                Ok(program.widen())
            },
            Cool::ClassItem => self.cast_class(children),
            Cool::FieldDeclarationList => {
                let features: Vec<Feature> = self.consume_all(children)?;
                let ghost list = models(features@);
                let features = Features(features);
                assert(features@.0 =~= list);
                Ok(features.widen())
            },
            Cool::AttributeDeclaration => self.cast_attribute(children),
            Cool::MethodDeclaration => self.cast_method(children),
            Cool::Parameters => {
                let params: Vec<Param> = self.consume_all(children)?;
                let ghost list = models(params@);
                let params = Params(params);
                assert(params@.0 =~= list);
                Ok(params.widen())
            },
            Cool::Parameter => {
                let (name, ty) = self.cast_name_and_type(children)?;
                Ok(Param { name, ty }.widen())
            },
            Cool::Arguments => {
                let args: Vec<Expr> = self.consume_exprs(children)?;
                let ghost list = expr_models(args@);
                let args = Arguments(args);
                assert(args@.0 =~= list);
                Ok(args.widen())
            },
            Cool::AssignmentExpression => self.cast_assignment(children),
            Cool::DispatchExpression => self.cast_dispatch(children),
            Cool::IfExpression => self.cast_conditional(children),
            Cool::WhileExpression => {
                let (condition, body) = self.cast_two(children)?;
                Ok(Expr::Repeat { condition: Box::new(condition), body: Box::new(body) }.widen())
            },
            Cool::Block => {
                let body: Vec<Expr> = self.consume_non_zero(children)?;
                let ghost list = models(body@);
                let expr = Expr::Block { body };
                assert(expr@->Block_body =~= list);
                Ok(expr.widen())
            },
            Cool::LetExpression => self.cast_let(children),
            Cool::Bindings => {
                let bindings: Vec<LetBinding> = self.consume_non_zero(children)?;
                let ghost list = models(bindings@);
                let bindings = LetBindings(bindings);
                assert(bindings@.0 =~= list);
                Ok(bindings.widen())
            },
            Cool::Binding => self.cast_binding(children),
            Cool::CaseExpression => self.cast_case(children),
            Cool::CaseArm => self.cast_case_arm(children),
            Cool::CasePattern => {
                let (name, ty) = self.cast_name_and_type(children)?;
                Ok(CasePattern { name, ty }.widen())
            },
            Cool::NewExpression => {
                let mut children = children;
                let ty: Type = self.consume(&mut children)?;
                Ok(Expr::New { ty }.widen())
            },
            Cool::IsvoidExpression => self.cast_unary(UnaryOp::IsVoid, children),
            Cool::UnaryExpression => self.cast_unary(UnaryOp::Complement, children),
            Cool::NotExpression => self.cast_unary(UnaryOp::Not, children),
            Cool::BinaryExpression => self.cast_binary(node, children),
            Cool::ParenthesizedExpression => {
                let value = self.cast_one(children)?;
                Ok(Expr::Paren { value: Box::new(value) }.widen())
            },
            Cool::StringLiteral => Ok(Expr::String(string(self.src, node)).widen()),
            Cool::IntegerLiteral => match trivial::<u64>(self.src, node) {
                Some(value) => Ok(Expr::Int(value).widen()),
                None => {
                    self.error(Error::InvalidSyntax);
                    Err(())
                },
            },
            Cool::BooleanLiteral => match trivial::<bool>(self.src, node) {
                Some(value) => Ok(Expr::Bool(value).widen()),
                None => {
                    self.error(Error::InvalidSyntax);
                    Err(())
                },
            },
            Cool::TypeIdentifier
            | Cool::Bool
            | Cool::Int
            | Cool::Io
            | Cool::Object
            | Cool::String
            | Cool::SelfType => match self.convert_type(interner, node) {
                Some(ty) => Ok(ty.widen()),
                None => Err(()),
            },
            Cool::Identifier | Cool::FieldIdentifier | Cool::SelfIdentifier => {
                let in_expr = match node.parent() {
                    Some(parent) => parent.rule().is_expr(),
                    None => false,
                };
                match self.convert_ident(interner, node) {
                    Some(ident) => if in_expr {
                        Ok(Expr::Ident(ident).widen())
                    } else {
                        Ok(ident.widen())
                    },
                    None => Err(()),
                }
            },
            Cool::Error => {
                self.error(Error::InvalidSyntax);
                Err(())
            },
            _ => Err(()),
        }
    }
}

/// The nodes on the way from the root to the node at work, each with the
/// values built so far for its children.
struct ConversionState<'a> {
    node_stack: Vec<Node<'a>>,
    child_stack: Vec<VecDeque<AstNode>>,
}

impl<'a> ConversionState<'a> {
    /// The places of the nodes on the stack, from the root down.
    spec fn indices(&self) -> Seq<int> {
        self.node_stack@.map_values(|node: Node<'a>| node.index())
    }

    /// The queues on the stack, from that of the root down.
    spec fn queues(&self) -> Seq<Seq<AstNodeModel>> {
        self.child_stack@.map_values(|queue: VecDeque<AstNode>| queue_model(queue@))
    }

    /// Both stacks have one entry for each node, and every node is of the
    /// tree `nodes`.
    spec fn wf(&self, nodes: Seq<NodeData>) -> bool {
        &&& self.node_stack@.len() == self.child_stack@.len()
        &&& forall|i: int|
            0 <= i < self.node_stack@.len() ==> (#[trigger] self.node_stack@[i]).nodes() == nodes
    }

    fn new() -> (state: ConversionState<'a>)
        ensures
            state.indices() == Seq::<int>::empty(),
            state.queues() == Seq::<Seq<AstNodeModel>>::empty(),
            forall|nodes: Seq<NodeData>| state.wf(nodes),
    {
        let state = ConversionState { node_stack: Vec::new(), child_stack: Vec::new() };
        state
    }

    fn push_entry(&mut self, node: Node<'a>)
        requires
            old(self).wf(node.nodes()),
        ensures
            final(self).wf(node.nodes()),
            final(self).indices() == old(self).indices().push(node.index()),
            final(self).queues() == old(self).queues().push(Seq::empty()),
    {
        self.child_stack.push(VecDeque::new());
        self.node_stack.push(node);
        assert(self.queues() =~= old(self).queues().push(Seq::empty())) by {
            assert(queue_model(self.child_stack@.last()@) =~= Seq::<AstNodeModel>::empty());
        }
    }

    fn pop_entry(&mut self, Ghost(nodes): Ghost<Seq<NodeData>>) -> (entry: Option<
        (Node<'a>, VecDeque<AstNode>),
    >)
        requires
            old(self).wf(nodes),
        ensures
            final(self).wf(nodes),
            (match entry {
                Some((node, children)) => {
                    &&& old(self).indices().len() > 0
                    &&& node.nodes() == nodes
                    &&& node.index() == old(self).indices().last()
                    &&& queue_model(children@) == old(self).queues().last()
                    &&& final(self).indices() == old(self).indices().drop_last()
                    &&& final(self).queues() == old(self).queues().drop_last()
                },
                None => old(self).indices().len() == 0 && final(self).indices().len() == 0
                    && final(self).queues().len() == 0,
            }),
    {
        let node = self.node_stack.pop();
        let children = self.child_stack.pop();
        match (node, children) {
            (Some(node), Some(children)) => {
                assert forall|i: int| 0 <= i < self.node_stack@.len() implies (
                #[trigger] self.node_stack@[i]).nodes() == nodes by {
                }
                Some((node, children))
            },
            _ => None,
        }
    }

    fn last_node(&self, Ghost(nodes): Ghost<Seq<NodeData>>) -> (node: Option<&Node<'a>>)
        requires
            self.wf(nodes),
        ensures
            (match node {
                Some(node) => self.indices().len() > 0 && node.nodes() == nodes && node.index()
                    == self.indices().last(),
                None => self.indices().len() == 0,
            }),
    {
        let n = self.node_stack.len();
        if n == 0 {
            None
        } else {
            Some(&self.node_stack[n - 1])
        }
    }

    /// Adds `value` to the queue of the node on top.
    fn push_child(&mut self, value: AstNode, Ghost(nodes): Ghost<Seq<NodeData>>)
        requires
            old(self).wf(nodes),
            old(self).indices().len() > 0,
        ensures
            final(self).wf(nodes),
            final(self).indices() == old(self).indices(),
            final(self).queues() == old(self).queues().update(
                old(self).queues().len() - 1,
                old(self).queues().last().push(value@),
            ),
    {
        let n = self.child_stack.len();
        let ghost before = self.child_stack@[n - 1]@;
        self.child_stack[n - 1].push_back(value);
        assert(queue_model(self.child_stack@[n - 1]@) =~= queue_model(before).push(value@));
    }

    fn is_empty(&self) -> (empty: bool)
        ensures
            empty == (self.queues().len() == 0),
    {
        self.child_stack.len() == 0
    }
}

/// Between the node at place `j` of the stack and the node below it: the
/// second is a child of the first, and what converting all children of the
/// first gives is the queue of the first followed by what converting its
/// children from the second on gives.
spec fn link_ok(
    nodes: Seq<NodeData>,
    src: Seq<u8>,
    idx: Seq<int>,
    queues: Seq<Seq<AstNodeModel>>,
    entry: Seq<Progress>,
    j: int,
) -> bool {
    let n = idx[j];
    let c = idx[j + 1];
    &&& n < c < nodes[n].end
    &&& nodes[c].parent == n
    &&& reduce_children(nodes, src, n + 1, nodes[n].end as int, entry[j]) == join(
        queues[j],
        reduce_children(nodes, src, c, nodes[n].end as int, entry[j + 1]),
    )
}

/// The stack lists a path from the root down, and `entry` lists how far the
/// conversion had come when each node of the path was reached.
spec fn chain_ok(
    nodes: Seq<NodeData>,
    src: Seq<u8>,
    idx: Seq<int>,
    queues: Seq<Seq<AstNodeModel>>,
    entry: Seq<Progress>,
    start: Progress,
) -> bool {
    &&& idx.len() == queues.len()
    &&& idx.len() == entry.len()
    &&& idx.len() > 0 ==> idx[0] == 0 && entry[0] == start
    &&& forall|j: int| 0 <= j < idx.len() ==> 0 <= #[trigger] idx[j] < nodes.len()
    &&& forall|j: int| 0 <= j < idx.len() - 1 ==> #[trigger] link_ok(nodes, src, idx, queues, entry, j)
}

/// The node on top of the stack has all its children converted: its queue
/// holds what converting them gives, and the conversion has come to `now`.
spec fn top_done(
    nodes: Seq<NodeData>,
    src: Seq<u8>,
    idx: Seq<int>,
    queues: Seq<Seq<AstNodeModel>>,
    entry: Seq<Progress>,
    now: Progress,
) -> bool {
    let n = idx.last();
    (queues.last(), now) == reduce_children(nodes, src, n + 1, nodes[n].end as int, entry.last())
}

/// A node is pushed below the node on top, before any of its own children.
proof fn lemma_descend(
    nodes: Seq<NodeData>,
    src: Seq<u8>,
    idx: Seq<int>,
    queues: Seq<Seq<AstNodeModel>>,
    entry: Seq<Progress>,
    start: Progress,
    c: int,
    now: Progress,
)
    requires
        well_formed(nodes),
        chain_ok(nodes, src, idx, queues, entry, start),
        idx.len() > 0,
        0 <= c < nodes.len(),
        idx.last() < c < nodes[idx.last()].end,
        nodes[c].parent == idx.last(),
        reduce_children(nodes, src, idx.last() + 1, nodes[idx.last()].end as int, entry.last())
            == join(
            queues.last(),
            reduce_children(nodes, src, c, nodes[idx.last()].end as int, now),
        ),
    ensures
        chain_ok(nodes, src, idx.push(c), queues.push(Seq::empty()), entry.push(now), start),
{
    let idx2 = idx.push(c);
    let queues2 = queues.push(Seq::empty());
    let entry2 = entry.push(now);
    assert forall|j: int| 0 <= j < idx2.len() - 1 implies #[trigger] link_ok(
        nodes,
        src,
        idx2,
        queues2,
        entry2,
        j,
    ) by {
        if j < idx.len() - 1 {
            assert(link_ok(nodes, src, idx, queues, entry, j));
        }
    }
    assert forall|j: int| 0 <= j < idx2.len() implies 0 <= #[trigger] idx2[j] < nodes.len() by {
        if j < idx.len() {
        }
    }
}

/// The node on top, with all its children converted, is converted itself
/// and leaves the stack; its value, if one was built, joins the queue of
/// the node above. What follows for that node: either the next sibling of
/// the node that left is still to come, or all its children are converted.
proof fn lemma_ascend(
    nodes: Seq<NodeData>,
    src: Seq<u8>,
    idx: Seq<int>,
    queues: Seq<Seq<AstNodeModel>>,
    entry: Seq<Progress>,
    start: Progress,
    now: Progress,
    step: Step,
)
    requires
        well_formed(nodes),
        chain_ok(nodes, src, idx, queues, entry, start),
        idx.len() >= 2,
        top_done(nodes, src, idx, queues, entry, now),
        step == reduce_node(facts(nodes, src, idx.last()), queues.last(), now),
    ensures
        step == reduce_tree(nodes, src, idx.last(), entry.last()),
        ({
            let n = idx[idx.len() - 2];
            let c = idx.last();
            let queue = queues[queues.len() - 2] + produced(step.node);
            &&& chain_ok(
                nodes,
                src,
                idx.drop_last(),
                queues.drop_last().update(queues.len() - 2, queue),
                entry.drop_last(),
                start,
            )
            &&& reduce_children(nodes, src, n + 1, nodes[n].end as int, entry[entry.len() - 2])
                == join(
                queue,
                reduce_children(nodes, src, nodes[c].end as int, nodes[n].end as int, step.progress),
            )
            &&& n < c < nodes[c].end <= nodes[n].end
            &&& nodes[c].parent == n
            &&& c >= 1
        }),
{
    let k = idx.len() as int;
    let n = idx[k - 2];
    let c = idx[k - 1];
    assert(link_ok(nodes, src, idx, queues, entry, k - 2));
    assert(super::bindings::node_ok(nodes, c));
    assert(super::bindings::node_ok(nodes, n));
    let rest = reduce_children(nodes, src, nodes[c].end as int, nodes[n].end as int, step.progress);
    let queue = queues[k - 2] + produced(step.node);
    assert(join(queues[k - 2], join(produced(step.node), rest)) == join(queue, rest)) by {
    }
    let idx2 = idx.drop_last();
    let queues2 = queues.drop_last().update(k - 2, queue);
    let entry2 = entry.drop_last();
    assert forall|j: int| 0 <= j < idx2.len() - 1 implies #[trigger] link_ok(
        nodes,
        src,
        idx2,
        queues2,
        entry2,
        j,
    ) by {
        assert(link_ok(nodes, src, idx, queues, entry, j));
    }
    assert forall|j: int| 0 <= j < idx2.len() implies 0 <= #[trigger] idx2[j] < nodes.len() by {
    }
}

impl<'src> Converter<'src> {
    /// A converter for the tree `tree` over the source `src`, at the root.
    fn new(src: &'src [u8], tree: &'src Tree) -> (converter: Converter<'src>)
        ensures
            well_formed(tree@),
            converter.src == src,
            converter.errors@.len() == 0,
            converter.cursor.position().nodes() == tree@,
            converter.cursor.position().index() == 0,
    {
        let cursor = tree.get_root().cursor();
        Converter { src, cursor, errors: Vec::new() }
    }

    /// Converts the tree that the cursor is at the root of: the program
    /// built for the root, if one was built.
    fn convert(&mut self, interner: &mut Interner) -> (program: Option<Program>)
        requires
            old(interner).wf(),
            well_formed(old(self).cursor.position().nodes()),
            old(self).cursor.position().index() == 0,
        ensures
            final(interner).wf(),
            final(self).src == old(self).src,
            ({
                let step = reduce_tree(
                    old(self).cursor.position().nodes(),
                    old(self).src@,
                    0,
                    Progress {
                        names: old(interner)@,
                        errors: record_models(old(self).errors@),
                    },
                );
                &&& final(interner)@ == step.progress.names
                &&& record_models(final(self).errors@) == step.progress.errors
                &&& match step.node {
                    Some(AstNodeModel::Program(model)) => program matches Some(value) && value@
                        == model,
                    _ => program is None,
                }
            }),
    {
        let root = self.cursor.node();
        let ghost nodes = root.nodes();
        let ghost src = self.src@;
        let ghost start = Progress { names: interner@, errors: record_models(self.errors@) };
        let mut state = ConversionState::new();
        state.push_entry(root);
        let ghost mut entry: Seq<Progress> = seq![start];
        loop
            invariant
                nodes == old(self).cursor.position().nodes(),
                src == old(self).src@,
                start == (Progress {
                    names: old(interner)@,
                    errors: record_models(old(self).errors@),
                }),
                well_formed(nodes),
                interner.wf(),
                self.src@ == src,
                self.src == old(self).src,
                state.wf(nodes),
                state.indices().len() > 0,
                chain_ok(nodes, src, state.indices(), state.queues(), entry, start),
                state.queues().last() == Seq::<AstNodeModel>::empty(),
                entry.last() == (Progress {
                    names: interner@,
                    errors: record_models(self.errors@),
                }),
            decreases nodes.len() - state.indices().last(),
        {
            let ghost top = state.indices().last();
            let ghost now = Progress { names: interner@, errors: record_models(self.errors@) };
            assert(super::bindings::node_ok(nodes, top));
            let node = match state.last_node(Ghost(nodes)) {
                Some(node) => *node,
                None => {
                    return None;
                },
            };
            self.cursor.reset(&node);
            if self.cursor.goto_first_child() {
                let child = self.cursor.node();
                proof {
                    assert(join(
                        Seq::<AstNodeModel>::empty(),
                        reduce_children(nodes, src, top + 1, nodes[top].end as int, now),
                    ) == reduce_children(nodes, src, top + 1, nodes[top].end as int, now)) by {
                        let rest = reduce_children(nodes, src, top + 1, nodes[top].end as int, now);
                    }
                    lemma_descend(
                        nodes,
                        src,
                        state.indices(),
                        state.queues(),
                        entry,
                        start,
                        top + 1,
                        now,
                    );
                    entry = entry.push(now);
                }
                state.push_entry(child);
            } else {
                loop
                    invariant_except_break
                        well_formed(nodes),
                        interner.wf(),
                        self.src@ == src,
                        self.src == old(self).src,
                        state.wf(nodes),
                        state.indices().len() > 0,
                        chain_ok(nodes, src, state.indices(), state.queues(), entry, start),
                        top_done(
                            nodes,
                            src,
                            state.indices(),
                            state.queues(),
                            entry,
                            Progress { names: interner@, errors: record_models(self.errors@) },
                        ),
                        nodes[state.indices().last()].end > top,
                    invariant
                        nodes == old(self).cursor.position().nodes(),
                        src == old(self).src@,
                        start == (Progress {
                            names: old(interner)@,
                            errors: record_models(old(self).errors@),
                        }),
                    ensures
                        well_formed(nodes),
                        interner.wf(),
                        self.src@ == src,
                        self.src == old(self).src,
                        state.wf(nodes),
                        state.indices().len() > 0,
                        chain_ok(nodes, src, state.indices(), state.queues(), entry, start),
                        state.queues().last() == Seq::<AstNodeModel>::empty(),
                        entry.last() == (Progress {
                            names: interner@,
                            errors: record_models(self.errors@),
                        }),
                        state.indices().last() > top,
                    decreases state.indices().len(),
                {
                    let ghost idx = state.indices();
                    let ghost queues = state.queues();
                    let ghost before = Progress {
                        names: interner@,
                        errors: record_models(self.errors@),
                    };
                    let (node, children) = match state.pop_entry(Ghost(nodes)) {
                        Some(entry) => entry,
                        None => {
                            return None;
                        },
                    };
                    let result = self.try_cast(interner, &node, children);
                    let ghost step = reduce_node(
                        facts(nodes, src, node.index()),
                        queues.last(),
                        before,
                    );
                    if state.is_empty() {
                        return match result {
                            Ok(AstNode::Program(program)) => {
                                Some(program)
                            },
                            Ok(other) => {
                                None
                            },
                            Err(_) => {
                                None
                            },
                        };
                    }
                    proof {
                        lemma_ascend(nodes, src, idx, queues, entry, start, before, step);
                        entry = entry.drop_last();
                    }
                    match result {
                        Ok(value) => {
                            state.push_child(value, Ghost(nodes));
                            assert(queues[queues.len() - 2].push(value@) =~= queues[queues.len()
                                - 2] + produced(step.node));
                        },
                        Err(_) => {
                            assert(state.queues() =~= queues.drop_last().update(
                                queues.len() - 2,
                                queues[queues.len() - 2] + produced(step.node),
                            ));
                        },
                    }
                    let ghost now = Progress {
                        names: interner@,
                        errors: record_models(self.errors@),
                    };
                    let ghost above = idx[idx.len() - 2];
                    assert(super::bindings::node_ok(nodes, node.index()));
                    assert(super::bindings::node_ok(nodes, above));
                    if let Some(next) = node.next_sibling() {
                        proof {
                            lemma_descend(
                                nodes,
                                src,
                                state.indices(),
                                state.queues(),
                                entry,
                                start,
                                next.index(),
                                now,
                            );
                            entry = entry.push(now);
                        }
                        state.push_entry(next);
                        break;
                    }
                }
            }
        }
    }
}

/// What a conversion hands out: the value alone when nothing went wrong,
/// else the value as far as it could be built, with the errors.
pub type ConversionResult<T> = Result<T, (T, Vec<Spanned<Error>>)>;

/// Where a conversion starts: with the names known so far and no error.
pub open spec fn start_of(names: Seq<Seq<char>>) -> Progress {
    Progress { names, errors: Seq::empty() }
}

/// Converts the concrete syntax tree `tree` of the source `src` into a
/// program, interning the names it meets. The tree is converted from the
/// leaves up and from left to right; a node that cannot be converted is left
/// out of its parent and the conversion goes on. The program comes back
/// alone when no error was recorded. Otherwise it comes back with the
/// errors, in the order in which they were recorded, and holds what could be
/// built: no class at all when no program was built for the root.
pub fn convert(src: &[u8], tree: &Tree, interner: &mut Interner) -> (r: ConversionResult<Program>)
    requires
        old(interner).wf(),
    ensures
        final(interner).wf(),
        well_formed(tree@),
        final(interner)@ == reduce_tree(tree@, src@, 0, start_of(old(interner)@)).progress.names,
        (match r {
            Ok(program) => {
                &&& reduce_tree(tree@, src@, 0, start_of(old(interner)@)).progress.errors.len() == 0
                &&& program@ == program_of(
                    reduce_tree(tree@, src@, 0, start_of(old(interner)@)).node,
                )
            },
            Err((program, errors)) => {
                &&& errors@.len() > 0
                &&& record_models(errors@) == reduce_tree(
                    tree@,
                    src@,
                    0,
                    start_of(old(interner)@),
                ).progress.errors
                &&& program@ == program_of(
                    reduce_tree(tree@, src@, 0, start_of(old(interner)@)).node,
                )
            },
        }),
{
    let mut converter = Converter::new(src, tree);
    assert(record_models(converter.errors@) =~= Seq::empty());
    let program = match converter.convert(interner) {
        Some(program) => program,
        None => {
            let program = Program::default();
            assert(program@.classes =~= Seq::empty());
            program
        },
    };
    if converter.errors.len() == 0 {
        Ok(program)
    } else {
        Err((program, converter.errors))
    }
}

} // verus!
