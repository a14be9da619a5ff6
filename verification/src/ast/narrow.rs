//! Narrowing: taking a tagged value for a value of one expected kind, and
//! giving the tagged value back unharmed when it is of another kind.

use super::model::{
    ArgumentsModel, AstNodeModel, AttributeModel, CaseArmModel, CasePatternModel, ClassModel, ExprModel,
    FeatureModel, FeaturesModel, IdentModel, LetBindingModel, LetBindingsModel, MethodModel,
    ParamModel, ParamsModel, ProgramModel, QualifierModel, TypeModel,
};
use super::{
    Arguments, AstNode, Attribute, BinaryOp, CaseArm, CasePattern, Class, Expr, Feature, Features, Ident,
    LetBinding, LetBindings, Method, Param, Params, Program, Qualifier, Type, UnaryOp,
};
use vstd::prelude::*;

verus! {

/// A kind of value that a tagged value may hold.
pub trait Narrow: Sized {
    /// The model of values of this kind.
    type Model;

    /// The model of `self`.
    spec fn model(self) -> Self::Model;

    /// What `node` holds, when it is of this kind.
    spec fn narrowed(node: AstNodeModel) -> Option<Self::Model>;

    /// A value of this kind, tagged.
    spec fn widened(value: Self::Model) -> AstNodeModel;

    /// Takes `node` for a value of this kind. A node of another kind comes
    /// back as it was.
    fn narrow(node: AstNode) -> (r: Result<Self, AstNode>)
        ensures
            (match r {
                Ok(value) => Self::narrowed(node@) == Some(value.model()),
                Err(other) => Self::narrowed(node@) is None && other == node,
            }),
    ;

    /// Tags `self` with its kind.
    fn widen(self) -> (node: AstNode)
        ensures
            node@ == Self::widened(self.model()),
    ;

    /// A tagged value narrows to what was tagged, and to nothing else.
    proof fn lemma_narrow_widen(node: AstNodeModel, value: Self::Model)
        ensures
            Self::narrowed(node) == Some(value) <==> node == Self::widened(value),
    ;
}

impl Narrow for Program {
    type Model = ProgramModel;

    open spec fn model(self) -> ProgramModel {
        self@
    }

    open spec fn narrowed(node: AstNodeModel) -> Option<ProgramModel> {
        match node {
            AstNodeModel::Program(inner) => Some(inner),
            _ => None,
        }
    }

    open spec fn widened(value: ProgramModel) -> AstNodeModel {
        AstNodeModel::Program(value)
    }

    fn narrow(node: AstNode) -> (r: Result<Program, AstNode>) {
        match node {
            AstNode::Program(inner) => Ok(inner),
            other => Err(other),
        }
    }

    fn widen(self) -> (node: AstNode) {
        AstNode::Program(self)
    }

    proof fn lemma_narrow_widen(node: AstNodeModel, value: ProgramModel) {
    }
}

impl Narrow for Class {
    type Model = ClassModel;

    open spec fn model(self) -> ClassModel {
        self@
    }

    open spec fn narrowed(node: AstNodeModel) -> Option<ClassModel> {
        match node {
            AstNodeModel::Class(inner) => Some(inner),
            _ => None,
        }
    }

    open spec fn widened(value: ClassModel) -> AstNodeModel {
        AstNodeModel::Class(value)
    }

    fn narrow(node: AstNode) -> (r: Result<Class, AstNode>) {
        match node {
            AstNode::Class(inner) => Ok(inner),
            other => Err(other),
        }
    }

    fn widen(self) -> (node: AstNode) {
        AstNode::Class(self)
    }

    proof fn lemma_narrow_widen(node: AstNodeModel, value: ClassModel) {
    }
}

impl Narrow for Features {
    type Model = FeaturesModel;

    open spec fn model(self) -> FeaturesModel {
        self@
    }

    open spec fn narrowed(node: AstNodeModel) -> Option<FeaturesModel> {
        match node {
            AstNodeModel::Features(inner) => Some(inner),
            _ => None,
        }
    }

    open spec fn widened(value: FeaturesModel) -> AstNodeModel {
        AstNodeModel::Features(value)
    }

    fn narrow(node: AstNode) -> (r: Result<Features, AstNode>) {
        match node {
            AstNode::Features(inner) => Ok(inner),
            other => Err(other),
        }
    }

    fn widen(self) -> (node: AstNode) {
        AstNode::Features(self)
    }

    proof fn lemma_narrow_widen(node: AstNodeModel, value: FeaturesModel) {
    }
}

impl Narrow for Feature {
    type Model = FeatureModel;

    open spec fn model(self) -> FeatureModel {
        self@
    }

    open spec fn narrowed(node: AstNodeModel) -> Option<FeatureModel> {
        match node {
            AstNodeModel::Feature(inner) => Some(inner),
            _ => None,
        }
    }

    open spec fn widened(value: FeatureModel) -> AstNodeModel {
        AstNodeModel::Feature(value)
    }

    fn narrow(node: AstNode) -> (r: Result<Feature, AstNode>) {
        match node {
            AstNode::Feature(inner) => Ok(inner),
            other => Err(other),
        }
    }

    fn widen(self) -> (node: AstNode) {
        AstNode::Feature(self)
    }

    proof fn lemma_narrow_widen(node: AstNodeModel, value: FeatureModel) {
    }
}

impl Narrow for Attribute {
    type Model = AttributeModel;

    open spec fn model(self) -> AttributeModel {
        self@
    }

    open spec fn narrowed(node: AstNodeModel) -> Option<AttributeModel> {
        match node {
            AstNodeModel::Attribute(inner) => Some(inner),
            _ => None,
        }
    }

    open spec fn widened(value: AttributeModel) -> AstNodeModel {
        AstNodeModel::Attribute(value)
    }

    fn narrow(node: AstNode) -> (r: Result<Attribute, AstNode>) {
        match node {
            AstNode::Attribute(inner) => Ok(inner),
            other => Err(other),
        }
    }

    fn widen(self) -> (node: AstNode) {
        AstNode::Attribute(self)
    }

    proof fn lemma_narrow_widen(node: AstNodeModel, value: AttributeModel) {
    }
}

impl Narrow for Method {
    type Model = MethodModel;

    open spec fn model(self) -> MethodModel {
        self@
    }

    open spec fn narrowed(node: AstNodeModel) -> Option<MethodModel> {
        match node {
            AstNodeModel::Method(inner) => Some(inner),
            _ => None,
        }
    }

    open spec fn widened(value: MethodModel) -> AstNodeModel {
        AstNodeModel::Method(value)
    }

    fn narrow(node: AstNode) -> (r: Result<Method, AstNode>) {
        match node {
            AstNode::Method(inner) => Ok(inner),
            other => Err(other),
        }
    }

    fn widen(self) -> (node: AstNode) {
        AstNode::Method(self)
    }

    proof fn lemma_narrow_widen(node: AstNodeModel, value: MethodModel) {
    }
}

impl Narrow for Params {
    type Model = ParamsModel;

    open spec fn model(self) -> ParamsModel {
        self@
    }

    open spec fn narrowed(node: AstNodeModel) -> Option<ParamsModel> {
        match node {
            AstNodeModel::Params(inner) => Some(inner),
            _ => None,
        }
    }

    open spec fn widened(value: ParamsModel) -> AstNodeModel {
        AstNodeModel::Params(value)
    }

    fn narrow(node: AstNode) -> (r: Result<Params, AstNode>) {
        match node {
            AstNode::Params(inner) => Ok(inner),
            other => Err(other),
        }
    }

    fn widen(self) -> (node: AstNode) {
        AstNode::Params(self)
    }

    proof fn lemma_narrow_widen(node: AstNodeModel, value: ParamsModel) {
    }
}

impl Narrow for Param {
    type Model = ParamModel;

    open spec fn model(self) -> ParamModel {
        self@
    }

    open spec fn narrowed(node: AstNodeModel) -> Option<ParamModel> {
        match node {
            AstNodeModel::Param(inner) => Some(inner),
            _ => None,
        }
    }

    open spec fn widened(value: ParamModel) -> AstNodeModel {
        AstNodeModel::Param(value)
    }

    fn narrow(node: AstNode) -> (r: Result<Param, AstNode>) {
        match node {
            AstNode::Param(inner) => Ok(inner),
            other => Err(other),
        }
    }

    fn widen(self) -> (node: AstNode) {
        AstNode::Param(self)
    }

    proof fn lemma_narrow_widen(node: AstNodeModel, value: ParamModel) {
    }
}

impl Narrow for Expr {
    type Model = ExprModel;

    open spec fn model(self) -> ExprModel {
        self@
    }

    open spec fn narrowed(node: AstNodeModel) -> Option<ExprModel> {
        match node {
            AstNodeModel::Expr(inner) => Some(inner),
            _ => None,
        }
    }

    open spec fn widened(value: ExprModel) -> AstNodeModel {
        AstNodeModel::Expr(value)
    }

    fn narrow(node: AstNode) -> (r: Result<Expr, AstNode>) {
        match node {
            AstNode::Expr(inner) => Ok(inner),
            other => Err(other),
        }
    }

    fn widen(self) -> (node: AstNode) {
        AstNode::Expr(self)
    }

    proof fn lemma_narrow_widen(node: AstNodeModel, value: ExprModel) {
    }
}

impl Narrow for Qualifier {
    type Model = QualifierModel;

    open spec fn model(self) -> QualifierModel {
        self@
    }

    open spec fn narrowed(node: AstNodeModel) -> Option<QualifierModel> {
        match node {
            AstNodeModel::Qualifier(inner) => Some(inner),
            _ => None,
        }
    }

    open spec fn widened(value: QualifierModel) -> AstNodeModel {
        AstNodeModel::Qualifier(value)
    }

    fn narrow(node: AstNode) -> (r: Result<Qualifier, AstNode>) {
        match node {
            AstNode::Qualifier(inner) => Ok(inner),
            other => Err(other),
        }
    }

    fn widen(self) -> (node: AstNode) {
        AstNode::Qualifier(self)
    }

    proof fn lemma_narrow_widen(node: AstNodeModel, value: QualifierModel) {
    }
}

impl Narrow for Arguments {
    type Model = ArgumentsModel;

    open spec fn model(self) -> ArgumentsModel {
        self@
    }

    open spec fn narrowed(node: AstNodeModel) -> Option<ArgumentsModel> {
        match node {
            AstNodeModel::Arguments(inner) => Some(inner),
            _ => None,
        }
    }

    open spec fn widened(value: ArgumentsModel) -> AstNodeModel {
        AstNodeModel::Arguments(value)
    }

    fn narrow(node: AstNode) -> (r: Result<Arguments, AstNode>) {
        match node {
            AstNode::Arguments(inner) => Ok(inner),
            other => Err(other),
        }
    }

    fn widen(self) -> (node: AstNode) {
        AstNode::Arguments(self)
    }

    proof fn lemma_narrow_widen(node: AstNodeModel, value: ArgumentsModel) {
    }
}

impl Narrow for LetBindings {
    type Model = LetBindingsModel;

    open spec fn model(self) -> LetBindingsModel {
        self@
    }

    open spec fn narrowed(node: AstNodeModel) -> Option<LetBindingsModel> {
        match node {
            AstNodeModel::LetBindings(inner) => Some(inner),
            _ => None,
        }
    }

    open spec fn widened(value: LetBindingsModel) -> AstNodeModel {
        AstNodeModel::LetBindings(value)
    }

    fn narrow(node: AstNode) -> (r: Result<LetBindings, AstNode>) {
        match node {
            AstNode::LetBindings(inner) => Ok(inner),
            other => Err(other),
        }
    }

    fn widen(self) -> (node: AstNode) {
        AstNode::LetBindings(self)
    }

    proof fn lemma_narrow_widen(node: AstNodeModel, value: LetBindingsModel) {
    }
}

impl Narrow for LetBinding {
    type Model = LetBindingModel;

    open spec fn model(self) -> LetBindingModel {
        self@
    }

    open spec fn narrowed(node: AstNodeModel) -> Option<LetBindingModel> {
        match node {
            AstNodeModel::LetBinding(inner) => Some(inner),
            _ => None,
        }
    }

    open spec fn widened(value: LetBindingModel) -> AstNodeModel {
        AstNodeModel::LetBinding(value)
    }

    fn narrow(node: AstNode) -> (r: Result<LetBinding, AstNode>) {
        match node {
            AstNode::LetBinding(inner) => Ok(inner),
            other => Err(other),
        }
    }

    fn widen(self) -> (node: AstNode) {
        AstNode::LetBinding(self)
    }

    proof fn lemma_narrow_widen(node: AstNodeModel, value: LetBindingModel) {
    }
}

impl Narrow for CaseArm {
    type Model = CaseArmModel;

    open spec fn model(self) -> CaseArmModel {
        self@
    }

    open spec fn narrowed(node: AstNodeModel) -> Option<CaseArmModel> {
        match node {
            AstNodeModel::CaseArm(inner) => Some(inner),
            _ => None,
        }
    }

    open spec fn widened(value: CaseArmModel) -> AstNodeModel {
        AstNodeModel::CaseArm(value)
    }

    fn narrow(node: AstNode) -> (r: Result<CaseArm, AstNode>) {
        match node {
            AstNode::CaseArm(inner) => Ok(inner),
            other => Err(other),
        }
    }

    fn widen(self) -> (node: AstNode) {
        AstNode::CaseArm(self)
    }

    proof fn lemma_narrow_widen(node: AstNodeModel, value: CaseArmModel) {
    }
}

impl Narrow for CasePattern {
    type Model = CasePatternModel;

    open spec fn model(self) -> CasePatternModel {
        self@
    }

    open spec fn narrowed(node: AstNodeModel) -> Option<CasePatternModel> {
        match node {
            AstNodeModel::CasePattern(inner) => Some(inner),
            _ => None,
        }
    }

    open spec fn widened(value: CasePatternModel) -> AstNodeModel {
        AstNodeModel::CasePattern(value)
    }

    fn narrow(node: AstNode) -> (r: Result<CasePattern, AstNode>) {
        match node {
            AstNode::CasePattern(inner) => Ok(inner),
            other => Err(other),
        }
    }

    fn widen(self) -> (node: AstNode) {
        AstNode::CasePattern(self)
    }

    proof fn lemma_narrow_widen(node: AstNodeModel, value: CasePatternModel) {
    }
}

impl Narrow for UnaryOp {
    type Model = UnaryOp;

    open spec fn model(self) -> UnaryOp {
        self
    }

    open spec fn narrowed(node: AstNodeModel) -> Option<UnaryOp> {
        match node {
            AstNodeModel::UnaryOp(inner) => Some(inner),
            _ => None,
        }
    }

    open spec fn widened(value: UnaryOp) -> AstNodeModel {
        AstNodeModel::UnaryOp(value)
    }

    fn narrow(node: AstNode) -> (r: Result<UnaryOp, AstNode>) {
        match node {
            AstNode::UnaryOp(inner) => Ok(inner),
            other => Err(other),
        }
    }

    fn widen(self) -> (node: AstNode) {
        AstNode::UnaryOp(self)
    }

    proof fn lemma_narrow_widen(node: AstNodeModel, value: UnaryOp) {
    }
}

impl Narrow for BinaryOp {
    type Model = BinaryOp;

    open spec fn model(self) -> BinaryOp {
        self
    }

    open spec fn narrowed(node: AstNodeModel) -> Option<BinaryOp> {
        match node {
            AstNodeModel::BinaryOp(inner) => Some(inner),
            _ => None,
        }
    }

    open spec fn widened(value: BinaryOp) -> AstNodeModel {
        AstNodeModel::BinaryOp(value)
    }

    fn narrow(node: AstNode) -> (r: Result<BinaryOp, AstNode>) {
        match node {
            AstNode::BinaryOp(inner) => Ok(inner),
            other => Err(other),
        }
    }

    fn widen(self) -> (node: AstNode) {
        AstNode::BinaryOp(self)
    }

    proof fn lemma_narrow_widen(node: AstNodeModel, value: BinaryOp) {
    }
}

impl Narrow for Type {
    type Model = TypeModel;

    open spec fn model(self) -> TypeModel {
        self@
    }

    open spec fn narrowed(node: AstNodeModel) -> Option<TypeModel> {
        match node {
            AstNodeModel::Type(inner) => Some(inner),
            _ => None,
        }
    }

    open spec fn widened(value: TypeModel) -> AstNodeModel {
        AstNodeModel::Type(value)
    }

    fn narrow(node: AstNode) -> (r: Result<Type, AstNode>) {
        match node {
            AstNode::Type(inner) => Ok(inner),
            other => Err(other),
        }
    }

    fn widen(self) -> (node: AstNode) {
        AstNode::Type(self)
    }

    proof fn lemma_narrow_widen(node: AstNodeModel, value: TypeModel) {
    }
}

impl Narrow for Ident {
    type Model = IdentModel;

    open spec fn model(self) -> IdentModel {
        self@
    }

    open spec fn narrowed(node: AstNodeModel) -> Option<IdentModel> {
        match node {
            AstNodeModel::Ident(inner) => Some(inner),
            _ => None,
        }
    }

    open spec fn widened(value: IdentModel) -> AstNodeModel {
        AstNodeModel::Ident(value)
    }

    fn narrow(node: AstNode) -> (r: Result<Ident, AstNode>) {
        match node {
            AstNode::Ident(inner) => Ok(inner),
            other => Err(other),
        }
    }

    fn widen(self) -> (node: AstNode) {
        AstNode::Ident(self)
    }

    proof fn lemma_narrow_widen(node: AstNodeModel, value: IdentModel) {
    }
}

} // verus!
