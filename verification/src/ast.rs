//! The abstract syntax tree and the tools that build it.

use crate::util::interner::InternedIdx;
use model::{
    ArgumentsModel, AstNodeModel, AttributeModel, CaseArmModel, CasePatternModel, ClassModel, ExprModel,
    FeatureModel, FeaturesModel, IdentModel, LetBindingModel, LetBindingsModel, MethodModel,
    ParamModel, ParamsModel, ProgramModel, QualifierModel, TypeModel,
};
use vstd::prelude::*;

pub mod bindings;
pub mod converter;
pub mod extract;
pub mod model;
pub mod narrow;
pub mod parser;
pub mod protocol;
pub mod rules;

verus! {

/// A whole source file: its classes, in source order.
#[derive(Debug, PartialEq, Eq)]
pub struct Program {
    pub classes: Vec<Class>,
}

/// A class: its name, the class it inherits from if it names one, and its features.
#[derive(Debug, PartialEq, Eq)]
pub struct Class {
    pub name: Type,
    pub inherits: Option<Type>,
    pub features: Features,
}

/// The features of a class, in source order.
#[derive(Debug, PartialEq, Eq)]
pub struct Features(pub Vec<Feature>);

/// A feature of a class.
#[derive(Debug, PartialEq, Eq)]
pub enum Feature {
    Attribute(Attribute),
    Method(Method),
}

/// An attribute: name, declared type, and the expression it starts with, if any.
#[derive(Debug, PartialEq, Eq)]
pub struct Attribute {
    pub name: Ident,
    pub ty: Type,
    pub initializer: Option<Expr>,
}

/// A method: name, parameters, return type and body.
#[derive(Debug, PartialEq, Eq)]
pub struct Method {
    pub name: Ident,
    pub params: Params,
    pub return_ty: Type,
    pub body: Expr,
}

/// The parameters of a method, in source order.
#[derive(Debug, PartialEq, Eq)]
pub struct Params(pub Vec<Param>);

/// A parameter: name and type.
#[derive(Debug, PartialEq, Eq)]
pub struct Param {
    pub name: Ident,
    pub ty: Type,
}

/// An expression.
#[allow(inconsistent_fields)]
#[derive(Debug, PartialEq, Eq)]
pub enum Expr {
    Assignment { name: Ident, right: Box<Expr> },
    Dispatch { qualifier: Option<Qualifier>, method: Ident, args: Vec<Expr> },
    Conditional { condition: Box<Expr>, consequence: Box<Expr>, alternative: Box<Expr> },
    Repeat { condition: Box<Expr>, body: Box<Expr> },
    Block { body: Vec<Expr> },
    Let { bindings: LetBindings, body: Box<Expr> },
    Case { value: Box<Expr>, body: Vec<CaseArm> },
    New { ty: Type },
    Unary { op: UnaryOp, right: Box<Expr> },
    Binary { op: BinaryOp, left: Box<Expr>, right: Box<Expr> },
    Paren { value: Box<Expr> },
    Ident(Ident),
    String(String),
    Int(u64),
    Bool(bool),
}

/// The arguments of a dispatch, in source order.
#[derive(Debug, PartialEq, Eq)]
pub struct Arguments(pub Vec<Expr>);

/// The receiver of a dispatch, with the class that the call is bound to, if one is named.
#[derive(Debug, PartialEq, Eq)]
pub struct Qualifier {
    pub value: Box<Expr>,
    pub parent: Option<Type>,
}

/// The bindings of a `let`, in source order.
#[derive(Debug, PartialEq, Eq)]
pub struct LetBindings(pub Vec<LetBinding>);

/// One binding of a `let`: name, type, and the expression it starts with, if any.
#[derive(Debug, PartialEq, Eq)]
pub struct LetBinding {
    pub name: Ident,
    pub ty: Type,
    pub right: Option<Expr>,
}

/// One arm of a `case`: the pattern and the expression chosen when it matches.
#[derive(Debug, PartialEq, Eq)]
pub struct CaseArm {
    pub pat: CasePattern,
    pub value: Box<Expr>,
}

/// The pattern of a case arm: the name bound and its type.
#[derive(Debug, PartialEq, Eq)]
pub struct CasePattern {
    pub name: Ident,
    pub ty: Type,
}

/// An operator with one operand.
#[derive(Clone, Copy, Debug, PartialEq, Eq, Structural)]
pub enum UnaryOp {
    IsVoid,
    Complement,
    Not,
}

/// An operator with two operands.
#[derive(Clone, Copy, Debug, PartialEq, Eq, Structural)]
pub enum BinaryOp {
    Add,
    Sub,
    Mul,
    Div,
    Lt,
    Lte,
    Eq,
}

/// A reference to a type by name.
#[derive(Debug, PartialEq, Eq)]
pub struct Type(pub Ident);

/// A name.
#[derive(Debug, PartialEq, Eq)]
pub struct Ident {
    pub name: InternedIdx,
}

/// A value of any kind of the tree, tagged with its kind. The converter keeps
/// the values it has built for the children of a node in this form until the
/// node itself is built.
#[derive(Debug, PartialEq, Eq)]
pub enum AstNode {
    Program(Program),
    Class(Class),
    Features(Features),
    Feature(Feature),
    Attribute(Attribute),
    Method(Method),
    Params(Params),
    Param(Param),
    Expr(Expr),
    Qualifier(Qualifier),
    Arguments(Arguments),
    LetBindings(LetBindings),
    LetBinding(LetBinding),
    CaseArm(CaseArm),
    CasePattern(CasePattern),
    UnaryOp(UnaryOp),
    BinaryOp(BinaryOp),
    Type(Type),
    Ident(Ident),
}

/// The model of a `Program`.
pub open spec fn program_model(value: Program) -> ProgramModel
{
    ProgramModel {
        classes: Seq::new(
            value.classes@.len(),
            |i: int|
                if 0 <= i < value.classes@.len() {
                    class_model(value.classes@[i])
                } else {
                    arbitrary()
                },
        ),
    }
}

/// The model of a `Class`.
pub open spec fn class_model(value: Class) -> ClassModel
{
    ClassModel {
        name: type_model(value.name),
        inherits: match value.inherits {
            Some(inner) => Some(type_model(inner)),
            None => None,
        },
        features: features_model(value.features),
    }
}

/// The model of a `Features`.
pub open spec fn features_model(value: Features) -> FeaturesModel
{
    FeaturesModel(
        Seq::new(
            value.0@.len(),
            |i: int|
                if 0 <= i < value.0@.len() {
                    feature_model(value.0@[i])
                } else {
                    arbitrary()
                },
        ),
    )
}

/// The model of a `Feature`.
pub open spec fn feature_model(value: Feature) -> FeatureModel
{
    match value {
        Feature::Attribute(attribute) => FeatureModel::Attribute(attribute_model(attribute)),
        Feature::Method(method) => FeatureModel::Method(method_model(method)),
    }
}

/// The model of an `Attribute`.
pub open spec fn attribute_model(value: Attribute) -> AttributeModel
{
    AttributeModel {
        name: ident_model(value.name),
        ty: type_model(value.ty),
        initializer: match value.initializer {
            Some(inner) => Some(expr_model(inner)),
            None => None,
        },
    }
}

/// The model of a `Method`.
pub open spec fn method_model(value: Method) -> MethodModel
{
    MethodModel {
        name: ident_model(value.name),
        params: params_model(value.params),
        return_ty: type_model(value.return_ty),
        body: expr_model(value.body),
    }
}

/// The model of a `Params`.
pub open spec fn params_model(value: Params) -> ParamsModel
{
    ParamsModel(
        Seq::new(
            value.0@.len(),
            |i: int|
                if 0 <= i < value.0@.len() {
                    param_model(value.0@[i])
                } else {
                    arbitrary()
                },
        ),
    )
}

/// The model of a `Param`.
pub open spec fn param_model(value: Param) -> ParamModel
{
    ParamModel {
        name: ident_model(value.name),
        ty: type_model(value.ty),
    }
}

/// The model of an `Expr`.
pub open spec fn expr_model(value: Expr) -> ExprModel
    decreases value,
{
    match value {
        Expr::Assignment { name, right } => ExprModel::Assignment {
            name: ident_model(name),
            right: Box::new(expr_model(*right)),
        },
        Expr::Dispatch { qualifier, method, args } => ExprModel::Dispatch {
            qualifier: match qualifier {
                Some(inner) => Some(qualifier_model(inner)),
                None => None,
            },
            method: ident_model(method),
            args: Seq::new(
                args@.len(),
                |i: int|
                    if 0 <= i < args@.len() {
                        expr_model(args@[i])
                    } else {
                        arbitrary()
                    },
            ),
        },
        Expr::Conditional { condition, consequence, alternative } => ExprModel::Conditional {
            condition: Box::new(expr_model(*condition)),
            consequence: Box::new(expr_model(*consequence)),
            alternative: Box::new(expr_model(*alternative)),
        },
        Expr::Repeat { condition, body } => ExprModel::Repeat {
            condition: Box::new(expr_model(*condition)),
            body: Box::new(expr_model(*body)),
        },
        Expr::Block { body } => ExprModel::Block {
            body: Seq::new(
                body@.len(),
                |i: int|
                    if 0 <= i < body@.len() {
                        expr_model(body@[i])
                    } else {
                        arbitrary()
                    },
            ),
        },
        Expr::Let { bindings, body } => ExprModel::Let {
            bindings: let_bindings_model(bindings),
            body: Box::new(expr_model(*body)),
        },
        Expr::Case { value, body } => ExprModel::Case {
            value: Box::new(expr_model(*value)),
            body: Seq::new(
                body@.len(),
                |i: int|
                    if 0 <= i < body@.len() {
                        case_arm_model(body@[i])
                    } else {
                        arbitrary()
                    },
            ),
        },
        Expr::New { ty } => ExprModel::New {
            ty: type_model(ty),
        },
        Expr::Unary { op, right } => ExprModel::Unary {
            op: op,
            right: Box::new(expr_model(*right)),
        },
        Expr::Binary { op, left, right } => ExprModel::Binary {
            op: op,
            left: Box::new(expr_model(*left)),
            right: Box::new(expr_model(*right)),
        },
        Expr::Paren { value } => ExprModel::Paren {
            value: Box::new(expr_model(*value)),
        },
        Expr::Ident(inner) => ExprModel::Ident(ident_model(inner)),
        Expr::String(inner) => ExprModel::String(inner@),
        Expr::Int(inner) => ExprModel::Int(inner),
        Expr::Bool(inner) => ExprModel::Bool(inner),
    }
}

/// The model of an `Arguments`.
pub open spec fn arguments_model(value: Arguments) -> ArgumentsModel {
    ArgumentsModel(
        Seq::new(
            value.0@.len(),
            |i: int|
                if 0 <= i < value.0@.len() {
                    expr_model(value.0@[i])
                } else {
                    arbitrary()
                },
        ),
    )
}

/// The model of a `Qualifier`.
pub open spec fn qualifier_model(value: Qualifier) -> QualifierModel
    decreases value,
{
    QualifierModel {
        value: Box::new(expr_model(*value.value)),
        parent: match value.parent {
            Some(inner) => Some(type_model(inner)),
            None => None,
        },
    }
}

/// The model of a `LetBindings`.
pub open spec fn let_bindings_model(value: LetBindings) -> LetBindingsModel
    decreases value,
{
    LetBindingsModel(
        Seq::new(
            value.0@.len(),
            |i: int|
                if 0 <= i < value.0@.len() {
                    let_binding_model(value.0@[i])
                } else {
                    arbitrary()
                },
        ),
    )
}

/// The model of a `LetBinding`.
pub open spec fn let_binding_model(value: LetBinding) -> LetBindingModel
    decreases value,
{
    LetBindingModel {
        name: ident_model(value.name),
        ty: type_model(value.ty),
        right: match value.right {
            Some(inner) => Some(expr_model(inner)),
            None => None,
        },
    }
}

/// The model of a `CaseArm`.
pub open spec fn case_arm_model(value: CaseArm) -> CaseArmModel
    decreases value,
{
    CaseArmModel {
        pat: case_pattern_model(value.pat),
        value: Box::new(expr_model(*value.value)),
    }
}

/// The model of a `CasePattern`.
pub open spec fn case_pattern_model(value: CasePattern) -> CasePatternModel
{
    CasePatternModel {
        name: ident_model(value.name),
        ty: type_model(value.ty),
    }
}

/// The model of a `Type`.
pub open spec fn type_model(value: Type) -> TypeModel
{
    TypeModel(ident_model(value.0))
}

/// The model of an `Ident`.
pub open spec fn ident_model(value: Ident) -> IdentModel
{
    IdentModel {
        name: value.name@,
    }
}

/// The model of an `AstNode`.
pub open spec fn ast_node_model(value: AstNode) -> AstNodeModel
{
    match value {
        AstNode::Program(inner) => AstNodeModel::Program(program_model(inner)),
        AstNode::Class(inner) => AstNodeModel::Class(class_model(inner)),
        AstNode::Features(inner) => AstNodeModel::Features(features_model(inner)),
        AstNode::Feature(inner) => AstNodeModel::Feature(feature_model(inner)),
        AstNode::Attribute(inner) => AstNodeModel::Attribute(attribute_model(inner)),
        AstNode::Method(inner) => AstNodeModel::Method(method_model(inner)),
        AstNode::Params(inner) => AstNodeModel::Params(params_model(inner)),
        AstNode::Param(inner) => AstNodeModel::Param(param_model(inner)),
        AstNode::Expr(inner) => AstNodeModel::Expr(expr_model(inner)),
        AstNode::Qualifier(inner) => AstNodeModel::Qualifier(qualifier_model(inner)),
        AstNode::Arguments(inner) => AstNodeModel::Arguments(arguments_model(inner)),
        AstNode::LetBindings(inner) => AstNodeModel::LetBindings(let_bindings_model(inner)),
        AstNode::LetBinding(inner) => AstNodeModel::LetBinding(let_binding_model(inner)),
        AstNode::CaseArm(inner) => AstNodeModel::CaseArm(case_arm_model(inner)),
        AstNode::CasePattern(inner) => AstNodeModel::CasePattern(case_pattern_model(inner)),
        AstNode::UnaryOp(inner) => AstNodeModel::UnaryOp(inner),
        AstNode::BinaryOp(inner) => AstNodeModel::BinaryOp(inner),
        AstNode::Type(inner) => AstNodeModel::Type(type_model(inner)),
        AstNode::Ident(inner) => AstNodeModel::Ident(ident_model(inner)),
    }
}

impl View for Program {
    type V = ProgramModel;

    open spec fn view(&self) -> ProgramModel {
        program_model(*self)
    }
}

impl View for Class {
    type V = ClassModel;

    open spec fn view(&self) -> ClassModel {
        class_model(*self)
    }
}

impl View for Features {
    type V = FeaturesModel;

    open spec fn view(&self) -> FeaturesModel {
        features_model(*self)
    }
}

impl View for Feature {
    type V = FeatureModel;

    open spec fn view(&self) -> FeatureModel {
        feature_model(*self)
    }
}

impl View for Attribute {
    type V = AttributeModel;

    open spec fn view(&self) -> AttributeModel {
        attribute_model(*self)
    }
}

impl View for Method {
    type V = MethodModel;

    open spec fn view(&self) -> MethodModel {
        method_model(*self)
    }
}

impl View for Params {
    type V = ParamsModel;

    open spec fn view(&self) -> ParamsModel {
        params_model(*self)
    }
}

impl View for Param {
    type V = ParamModel;

    open spec fn view(&self) -> ParamModel {
        param_model(*self)
    }
}

impl View for Expr {
    type V = ExprModel;

    open spec fn view(&self) -> ExprModel {
        expr_model(*self)
    }
}

impl View for Arguments {
    type V = ArgumentsModel;

    open spec fn view(&self) -> ArgumentsModel {
        arguments_model(*self)
    }
}

impl View for Qualifier {
    type V = QualifierModel;

    open spec fn view(&self) -> QualifierModel {
        qualifier_model(*self)
    }
}

impl View for LetBindings {
    type V = LetBindingsModel;

    open spec fn view(&self) -> LetBindingsModel {
        let_bindings_model(*self)
    }
}

impl View for LetBinding {
    type V = LetBindingModel;

    open spec fn view(&self) -> LetBindingModel {
        let_binding_model(*self)
    }
}

impl View for CaseArm {
    type V = CaseArmModel;

    open spec fn view(&self) -> CaseArmModel {
        case_arm_model(*self)
    }
}

impl View for CasePattern {
    type V = CasePatternModel;

    open spec fn view(&self) -> CasePatternModel {
        case_pattern_model(*self)
    }
}

impl View for Type {
    type V = TypeModel;

    open spec fn view(&self) -> TypeModel {
        type_model(*self)
    }
}

impl View for Ident {
    type V = IdentModel;

    open spec fn view(&self) -> IdentModel {
        ident_model(*self)
    }
}

impl View for AstNode {
    type V = AstNodeModel;

    open spec fn view(&self) -> AstNodeModel {
        ast_node_model(*self)
    }
}

impl Default for Program {
    fn default() -> (program: Program)
        ensures
            program@.classes.len() == 0,
    {
        Program { classes: Vec::new() }
    }
}

} // verus!
