//! The mathematical model of the syntax tree: the same shapes as the tree
//! itself, with sequences for lists, numbers for interned names and character
//! sequences for text. Contracts speak of these.

use super::{BinaryOp, UnaryOp};
use vstd::prelude::*;

verus! {

/// Model of a `Program`.
pub struct ProgramModel {
    pub classes: Seq<ClassModel>,
}

/// Model of a `Class`.
pub struct ClassModel {
    pub name: TypeModel,
    pub inherits: Option<TypeModel>,
    pub features: FeaturesModel,
}

/// Model of a `Features`.
pub struct FeaturesModel(pub Seq<FeatureModel>);

/// Model of an `Attribute`.
pub struct AttributeModel {
    pub name: IdentModel,
    pub ty: TypeModel,
    pub initializer: Option<ExprModel>,
}

/// Model of a `Method`.
pub struct MethodModel {
    pub name: IdentModel,
    pub params: ParamsModel,
    pub return_ty: TypeModel,
    pub body: ExprModel,
}

/// Model of a `Params`.
pub struct ParamsModel(pub Seq<ParamModel>);

/// Model of a `Param`.
pub struct ParamModel {
    pub name: IdentModel,
    pub ty: TypeModel,
}

/// Model of an `Arguments`.
pub struct ArgumentsModel(pub Seq<ExprModel>);

/// Model of a `Qualifier`.
pub struct QualifierModel {
    pub value: Box<ExprModel>,
    pub parent: Option<TypeModel>,
}

/// Model of a `LetBindings`.
pub struct LetBindingsModel(pub Seq<LetBindingModel>);

/// Model of a `LetBinding`.
pub struct LetBindingModel {
    pub name: IdentModel,
    pub ty: TypeModel,
    pub right: Option<ExprModel>,
}

/// Model of a `CaseArm`.
pub struct CaseArmModel {
    pub pat: CasePatternModel,
    pub value: Box<ExprModel>,
}

/// Model of a `CasePattern`.
pub struct CasePatternModel {
    pub name: IdentModel,
    pub ty: TypeModel,
}

/// Model of a `Type`.
pub struct TypeModel(pub IdentModel);

/// Model of an `Ident`.
pub struct IdentModel {
    pub name: nat,
}

/// Model of a `Feature`.
pub enum FeatureModel {
    Attribute(AttributeModel),
    Method(MethodModel),
}

/// Model of an `Expr`.
#[allow(inconsistent_fields)]
pub enum ExprModel {
    Assignment { name: IdentModel, right: Box<ExprModel> },
    Dispatch { qualifier: Option<QualifierModel>, method: IdentModel, args: Seq<ExprModel> },
    Conditional { condition: Box<ExprModel>, consequence: Box<ExprModel>, alternative: Box<ExprModel> },
    Repeat { condition: Box<ExprModel>, body: Box<ExprModel> },
    Block { body: Seq<ExprModel> },
    Let { bindings: LetBindingsModel, body: Box<ExprModel> },
    Case { value: Box<ExprModel>, body: Seq<CaseArmModel> },
    New { ty: TypeModel },
    Unary { op: UnaryOp, right: Box<ExprModel> },
    Binary { op: BinaryOp, left: Box<ExprModel>, right: Box<ExprModel> },
    Paren { value: Box<ExprModel> },
    Ident(IdentModel),
    String(Seq<char>),
    Int(u64),
    Bool(bool),
}

/// Model of an `AstNode`: a value of any of the kinds, tagged with its kind.
pub enum AstNodeModel {
    Program(ProgramModel),
    Class(ClassModel),
    Features(FeaturesModel),
    Feature(FeatureModel),
    Attribute(AttributeModel),
    Method(MethodModel),
    Params(ParamsModel),
    Param(ParamModel),
    Expr(ExprModel),
    Qualifier(QualifierModel),
    Arguments(ArgumentsModel),
    LetBindings(LetBindingsModel),
    LetBinding(LetBindingModel),
    CaseArm(CaseArmModel),
    CasePattern(CasePatternModel),
    UnaryOp(UnaryOp),
    BinaryOp(BinaryOp),
    Type(TypeModel),
    Ident(IdentModel),
}

} // verus!
