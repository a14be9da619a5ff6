//! The tokens of the Cool language.

use crate::util::text::same_text;
use vstd::prelude::*;

verus! {

/// The kind of a token.
#[derive(Debug, PartialEq, Eq, Clone, Copy, Structural)]
pub enum TokenKind {
    Class,
    Else,
    If,
    Fi,
    In,
    Inherits,
    IsVoid,
    Let,
    While,
    Loop,
    Pool,
    Then,
    Case,
    Esac,
    New,
    Of,
    Not,
    True,
    False,
    Plus,
    Minus,
    Star,
    Slash,
    Tilde,
    Eq,
    Less,
    LessEq,
    GreaterEq,
    Greater,
    Assign,
    DoubleArrow,
    Colon,
    Semicolon,
    Comma,
    Dot,
    LeftParen,
    RightParen,
    LeftBrace,
    RightBrace,
    At,
    Identifer,
    String,
    EscapedString,
    Number,
    InlineComment,
    MultiComment,
    Whitespace,
    Eof,
}

/// The kind of the keyword that `text` spells, if it spells one.
pub open spec fn keyword_named(text: Seq<char>) -> Option<TokenKind> {
    if text == "class"@ {
        Some(TokenKind::Class)
    } else if text == "else"@ {
        Some(TokenKind::Else)
    } else if text == "false"@ {
        Some(TokenKind::False)
    } else if text == "fi"@ {
        Some(TokenKind::Fi)
    } else if text == "if"@ {
        Some(TokenKind::If)
    } else if text == "in"@ {
        Some(TokenKind::In)
    } else if text == "inherits"@ {
        Some(TokenKind::Inherits)
    } else if text == "isvoid"@ {
        Some(TokenKind::IsVoid)
    } else if text == "let"@ {
        Some(TokenKind::Let)
    } else if text == "loop"@ {
        Some(TokenKind::Loop)
    } else if text == "pool"@ {
        Some(TokenKind::Pool)
    } else if text == "then"@ {
        Some(TokenKind::Then)
    } else if text == "while"@ {
        Some(TokenKind::While)
    } else if text == "case"@ {
        Some(TokenKind::Case)
    } else if text == "esac"@ {
        Some(TokenKind::Esac)
    } else if text == "new"@ {
        Some(TokenKind::New)
    } else if text == "of"@ {
        Some(TokenKind::Of)
    } else if text == "not"@ {
        Some(TokenKind::Not)
    } else if text == "true"@ {
        Some(TokenKind::True)
    } else {
        None
    }
}

impl TokenKind {
    /// The kind of the keyword that `text` spells, if it spells one.
    pub fn keyword(text: &str) -> (kind: Option<TokenKind>)
        ensures
            kind == keyword_named(text@),
    {
        if same_text(text, "class") {
            Some(TokenKind::Class)
        } else if same_text(text, "else") {
            Some(TokenKind::Else)
        } else if same_text(text, "false") {
            Some(TokenKind::False)
        } else if same_text(text, "fi") {
            Some(TokenKind::Fi)
        } else if same_text(text, "if") {
            Some(TokenKind::If)
        } else if same_text(text, "in") {
            Some(TokenKind::In)
        } else if same_text(text, "inherits") {
            Some(TokenKind::Inherits)
        } else if same_text(text, "isvoid") {
            Some(TokenKind::IsVoid)
        } else if same_text(text, "let") {
            Some(TokenKind::Let)
        } else if same_text(text, "loop") {
            Some(TokenKind::Loop)
        } else if same_text(text, "pool") {
            Some(TokenKind::Pool)
        } else if same_text(text, "then") {
            Some(TokenKind::Then)
        } else if same_text(text, "while") {
            Some(TokenKind::While)
        } else if same_text(text, "case") {
            Some(TokenKind::Case)
        } else if same_text(text, "esac") {
            Some(TokenKind::Esac)
        } else if same_text(text, "new") {
            Some(TokenKind::New)
        } else if same_text(text, "of") {
            Some(TokenKind::Of)
        } else if same_text(text, "not") {
            Some(TokenKind::Not)
        } else if same_text(text, "true") {
            Some(TokenKind::True)
        } else {
            None
        }
    }

    /// Whether this is the kind of the token that ends the source.
    pub fn is_eof(&self) -> (eof: bool)
        ensures
            eof == (*self == TokenKind::Eof),
    {
        *self == TokenKind::Eof
    }
}

/// A token: its kind and the bytes of the source that it covers.
#[derive(Debug)]
pub struct Token {
    pos: usize,
    len: usize,
    pub kind: TokenKind,
}

impl Token {
    /// The kind of the token.
    pub closed spec fn tag(&self) -> TokenKind {
        self.kind
    }

    /// The byte at which the token starts.
    pub closed spec fn start(&self) -> usize {
        self.pos
    }

    /// The number of bytes that the token covers.
    pub closed spec fn length(&self) -> usize {
        self.len
    }

    /// A token of kind `kind` that covers `len` bytes from byte `pos` on.
    pub fn new(kind: TokenKind, pos: usize, len: usize) -> (token: Token)
        ensures
            token.tag() == kind,
            token.start() == pos,
            token.length() == len,
    {
        Token { pos, len, kind }
    }

    /// The kind of the token.
    pub fn kind(&self) -> (kind: TokenKind)
        ensures
            kind == self.tag(),
    {
        self.kind
    }

    /// The byte at which the token starts.
    pub fn pos(&self) -> (pos: usize)
        ensures
            pos == self.start(),
    {
        self.pos
    }

    /// The number of bytes that the token covers.
    pub fn len(&self) -> (len: usize)
        ensures
            len == self.length(),
    {
        self.len
    }
}

} // verus!
