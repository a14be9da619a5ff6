//! The vocabulary of the concrete syntax tree: one kind for every token and
//! rule of the Cool grammar.

use vstd::prelude::*;
use vstd::std_specs::convert::FromSpecImpl;

verus! {

/// The kind of a node of the concrete syntax tree. The grammar numbers its
/// kinds from zero, in the order in which they are listed here.
#[derive(Clone, Copy, Debug, PartialEq, Eq, Structural)]
pub enum Cool {
    End,
    Class,
    Inherits,
    Semi,
    LBrace,
    RBrace,
    Colon,
    LtDash,
    LParen,
    Comma,
    RParen,
    Bool,
    Int,
    Io,
    Object,
    String,
    SelfType,
    At,
    Dot,
    If,
    Then,
    Else,
    Fi,
    While,
    Loop,
    Pool,
    Let,
    In,
    Case,
    Of,
    Esac,
    EqGt,
    New,
    Isvoid,
    Not,
    Tilde,
    Lte,
    Lt,
    Eq,
    Plus,
    Dash,
    Star,
    Slash,
    True,
    False,
    IntegerLiteral,
    DQuote,
    DQuote2,
    EscapeSequence,
    DashDash,
    InlineCommentToken1,
    LParenStar,
    BlockCommentToken1,
    BlockCommentToken2,
    StarRparen,
    Identifier,
    TypeIdentifier,
    SelfIdentifier,
    StringContent,
    Error,
    SourceFile,
    ClassItem,
    FieldDeclarationList,
    AttributeDeclaration,
    MethodDeclaration,
    Parameters,
    Parameter,
    Type,
    Expression,
    AssignmentExpression,
    DispatchExpression,
    Arguments,
    IfExpression,
    WhileExpression,
    Block,
    LetExpression,
    Bindings,
    Binding,
    CaseExpression,
    CaseArm,
    CasePattern,
    NewExpression,
    IsvoidExpression,
    NotExpression,
    UnaryExpression,
    BinaryExpression,
    ParenthesizedExpression,
    Literal,
    BooleanLiteral,
    StringLiteral,
    InlineComment,
    BlockComment,
    SourceFileRepeat1,
    FieldDeclarationListRepeat1,
    ParametersRepeat1,
    ArgumentsRepeat1,
    BlockRepeat1,
    LetExpressionRepeat1,
    CaseExpressionRepeat1,
    StringLiteralRepeat1,
    BlockCommentRepeat1,
    FieldIdentifier,
}

impl Cool {
    /// The number that the grammar gives this kind.
    pub open spec fn code(self) -> int {
        match self {
            Cool::End => 0,
            Cool::Class => 1,
            Cool::Inherits => 2,
            Cool::Semi => 3,
            Cool::LBrace => 4,
            Cool::RBrace => 5,
            Cool::Colon => 6,
            Cool::LtDash => 7,
            Cool::LParen => 8,
            Cool::Comma => 9,
            Cool::RParen => 10,
            Cool::Bool => 11,
            Cool::Int => 12,
            Cool::Io => 13,
            Cool::Object => 14,
            Cool::String => 15,
            Cool::SelfType => 16,
            Cool::At => 17,
            Cool::Dot => 18,
            Cool::If => 19,
            Cool::Then => 20,
            Cool::Else => 21,
            Cool::Fi => 22,
            Cool::While => 23,
            Cool::Loop => 24,
            Cool::Pool => 25,
            Cool::Let => 26,
            Cool::In => 27,
            Cool::Case => 28,
            Cool::Of => 29,
            Cool::Esac => 30,
            Cool::EqGt => 31,
            Cool::New => 32,
            Cool::Isvoid => 33,
            Cool::Not => 34,
            Cool::Tilde => 35,
            Cool::Lte => 36,
            Cool::Lt => 37,
            Cool::Eq => 38,
            Cool::Plus => 39,
            Cool::Dash => 40,
            Cool::Star => 41,
            Cool::Slash => 42,
            Cool::True => 43,
            Cool::False => 44,
            Cool::IntegerLiteral => 45,
            Cool::DQuote => 46,
            Cool::DQuote2 => 47,
            Cool::EscapeSequence => 48,
            Cool::DashDash => 49,
            Cool::InlineCommentToken1 => 50,
            Cool::LParenStar => 51,
            Cool::BlockCommentToken1 => 52,
            Cool::BlockCommentToken2 => 53,
            Cool::StarRparen => 54,
            Cool::Identifier => 55,
            Cool::TypeIdentifier => 56,
            Cool::SelfIdentifier => 57,
            Cool::StringContent => 58,
            Cool::Error => 59,
            Cool::SourceFile => 60,
            Cool::ClassItem => 61,
            Cool::FieldDeclarationList => 62,
            Cool::AttributeDeclaration => 63,
            Cool::MethodDeclaration => 64,
            Cool::Parameters => 65,
            Cool::Parameter => 66,
            Cool::Type => 67,
            Cool::Expression => 68,
            Cool::AssignmentExpression => 69,
            Cool::DispatchExpression => 70,
            Cool::Arguments => 71,
            Cool::IfExpression => 72,
            Cool::WhileExpression => 73,
            Cool::Block => 74,
            Cool::LetExpression => 75,
            Cool::Bindings => 76,
            Cool::Binding => 77,
            Cool::CaseExpression => 78,
            Cool::CaseArm => 79,
            Cool::CasePattern => 80,
            Cool::NewExpression => 81,
            Cool::IsvoidExpression => 82,
            Cool::NotExpression => 83,
            Cool::UnaryExpression => 84,
            Cool::BinaryExpression => 85,
            Cool::ParenthesizedExpression => 86,
            Cool::Literal => 87,
            Cool::BooleanLiteral => 88,
            Cool::StringLiteral => 89,
            Cool::InlineComment => 90,
            Cool::BlockComment => 91,
            Cool::SourceFileRepeat1 => 92,
            Cool::FieldDeclarationListRepeat1 => 93,
            Cool::ParametersRepeat1 => 94,
            Cool::ArgumentsRepeat1 => 95,
            Cool::BlockRepeat1 => 96,
            Cool::LetExpressionRepeat1 => 97,
            Cool::CaseExpressionRepeat1 => 98,
            Cool::StringLiteralRepeat1 => 99,
            Cool::BlockCommentRepeat1 => 100,
            Cool::FieldIdentifier => 101,
        }
    }

    /// The kind that the grammar numbers `code`; a number that the grammar
    /// does not use stands for an error.
    pub open spec fn of_code(code: int) -> Cool {
        if exists|kind: Cool| kind.code() == code {
            choose|kind: Cool| kind.code() == code
        } else {
            Cool::Error
        }
    }

    /// Whether a node of this kind is an expression, so that an identifier
    /// directly below it is built as an expression.
    pub open spec fn expr_like(self) -> bool {
        matches!(
            self,
            Cool::IntegerLiteral
                | Cool::Expression
                | Cool::AssignmentExpression
                | Cool::DispatchExpression
                | Cool::IfExpression
                | Cool::WhileExpression
                | Cool::Block
                | Cool::LetExpression
                | Cool::CaseExpression
                | Cool::NewExpression
                | Cool::IsvoidExpression
                | Cool::NotExpression
                | Cool::UnaryExpression
                | Cool::BinaryExpression
                | Cool::ParenthesizedExpression
                | Cool::Literal
                | Cool::BooleanLiteral
                | Cool::StringLiteral
        )
    }

    /// Whether a node of this kind is an expression.
    pub fn is_expr(&self) -> (r: bool)
        ensures
            r == self.expr_like(),
    {
        matches!(
            self,
            Cool::IntegerLiteral
                | Cool::Expression
                | Cool::AssignmentExpression
                | Cool::DispatchExpression
                | Cool::IfExpression
                | Cool::WhileExpression
                | Cool::Block
                | Cool::LetExpression
                | Cool::CaseExpression
                | Cool::NewExpression
                | Cool::IsvoidExpression
                | Cool::NotExpression
                | Cool::UnaryExpression
                | Cool::BinaryExpression
                | Cool::ParenthesizedExpression
                | Cool::Literal
                | Cool::BooleanLiteral
                | Cool::StringLiteral
        )
    }

    /// Two kinds with the same number are the same kind.
    pub proof fn lemma_code_injective(a: Cool, b: Cool)
        requires
            a.code() == b.code(),
        ensures
            a == b,
    {
    }

    /// Every kind is found again from its number.
    pub proof fn lemma_of_code(kind: Cool)
        ensures
            0 <= kind.code() <= 101,
            Cool::of_code(kind.code()) == kind,
    {
        let found = Cool::of_code(kind.code());
        Cool::lemma_code_injective(found, kind);
    }
}

impl From<u16> for Cool {
    fn from(x: u16) -> (kind: Cool) {
        let kind = match x {
            0 => Cool::End,
            1 => Cool::Class,
            2 => Cool::Inherits,
            3 => Cool::Semi,
            4 => Cool::LBrace,
            5 => Cool::RBrace,
            6 => Cool::Colon,
            7 => Cool::LtDash,
            8 => Cool::LParen,
            9 => Cool::Comma,
            10 => Cool::RParen,
            11 => Cool::Bool,
            12 => Cool::Int,
            13 => Cool::Io,
            14 => Cool::Object,
            15 => Cool::String,
            16 => Cool::SelfType,
            17 => Cool::At,
            18 => Cool::Dot,
            19 => Cool::If,
            20 => Cool::Then,
            21 => Cool::Else,
            22 => Cool::Fi,
            23 => Cool::While,
            24 => Cool::Loop,
            25 => Cool::Pool,
            26 => Cool::Let,
            27 => Cool::In,
            28 => Cool::Case,
            29 => Cool::Of,
            30 => Cool::Esac,
            31 => Cool::EqGt,
            32 => Cool::New,
            33 => Cool::Isvoid,
            34 => Cool::Not,
            35 => Cool::Tilde,
            36 => Cool::Lte,
            37 => Cool::Lt,
            38 => Cool::Eq,
            39 => Cool::Plus,
            40 => Cool::Dash,
            41 => Cool::Star,
            42 => Cool::Slash,
            43 => Cool::True,
            44 => Cool::False,
            45 => Cool::IntegerLiteral,
            46 => Cool::DQuote,
            47 => Cool::DQuote2,
            48 => Cool::EscapeSequence,
            49 => Cool::DashDash,
            50 => Cool::InlineCommentToken1,
            51 => Cool::LParenStar,
            52 => Cool::BlockCommentToken1,
            53 => Cool::BlockCommentToken2,
            54 => Cool::StarRparen,
            55 => Cool::Identifier,
            56 => Cool::TypeIdentifier,
            57 => Cool::SelfIdentifier,
            58 => Cool::StringContent,
            59 => Cool::Error,
            60 => Cool::SourceFile,
            61 => Cool::ClassItem,
            62 => Cool::FieldDeclarationList,
            63 => Cool::AttributeDeclaration,
            64 => Cool::MethodDeclaration,
            65 => Cool::Parameters,
            66 => Cool::Parameter,
            67 => Cool::Type,
            68 => Cool::Expression,
            69 => Cool::AssignmentExpression,
            70 => Cool::DispatchExpression,
            71 => Cool::Arguments,
            72 => Cool::IfExpression,
            73 => Cool::WhileExpression,
            74 => Cool::Block,
            75 => Cool::LetExpression,
            76 => Cool::Bindings,
            77 => Cool::Binding,
            78 => Cool::CaseExpression,
            79 => Cool::CaseArm,
            80 => Cool::CasePattern,
            81 => Cool::NewExpression,
            82 => Cool::IsvoidExpression,
            83 => Cool::NotExpression,
            84 => Cool::UnaryExpression,
            85 => Cool::BinaryExpression,
            86 => Cool::ParenthesizedExpression,
            87 => Cool::Literal,
            88 => Cool::BooleanLiteral,
            89 => Cool::StringLiteral,
            90 => Cool::InlineComment,
            91 => Cool::BlockComment,
            92 => Cool::SourceFileRepeat1,
            93 => Cool::FieldDeclarationListRepeat1,
            94 => Cool::ParametersRepeat1,
            95 => Cool::ArgumentsRepeat1,
            96 => Cool::BlockRepeat1,
            97 => Cool::LetExpressionRepeat1,
            98 => Cool::CaseExpressionRepeat1,
            99 => Cool::StringLiteralRepeat1,
            100 => Cool::BlockCommentRepeat1,
            101 => Cool::FieldIdentifier,
            _ => Cool::Error,
        };
        proof {
            if x <= 101 {
                Cool::lemma_of_code(kind);
            } else {
                assert forall|other: Cool| other.code() != x by {
                    Cool::lemma_of_code(other);
                }
            }
        }
        kind
    }
}

impl FromSpecImpl<u16> for Cool {
    open spec fn obeys_from_spec() -> bool {
        true
    }

    open spec fn from_spec(x: u16) -> Cool {
        Cool::of_code(x as int)
    }
}

} // verus!
