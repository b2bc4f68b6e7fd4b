//! Tokens: what the scanner hands to the parser.
use vstd::prelude::*;
use crate::location::CodeLocation;

verus! {

/// The kinds of token.
#[derive(Debug, Copy, Clone, PartialEq, Eq, Hash, Structural)]
pub enum TokenType {
    // single-character tokens
    LeftParenthesis,
    RightParenthesis,
    LeftBrace,
    RightBrace,
    Comma,
    Dot,
    Minus,
    Plus,
    Semicolon,
    Slash,
    Star,
    // one or two character tokens
    Bang,
    BangEqual,
    Equal,
    EqualEqual,
    Greater,
    GreaterEqual,
    Less,
    LessEqual,
    // literals
    Identifier,
    String,
    Number,
    // keywords
    And,
    Class,
    Else,
    False,
    Fun,
    For,
    If,
    Nil,
    Or,
    Print,
    Return,
    Super,
    This,
    True,
    Var,
    While,
    // end of input
    Eof,
}

/// A constant written in the source.
///
/// A number keeps its digits as they were written: which floating-point
/// value they denote is for the host to say when the literal is evaluated.
#[derive(Debug, Hash)]
pub enum Literal {
    Nil,
    Bool(bool),
    Number(String),
    Text(String),
}

/// The mathematical model of a [`Literal`].
pub enum LiteralView {
    Nil,
    Bool(bool),
    Number(Seq<char>),
    Text(Seq<char>),
}

impl View for Literal {
    type V = LiteralView;

    open spec fn view(&self) -> LiteralView {
        match self {
            Literal::Nil => LiteralView::Nil,
            Literal::Bool(value) => LiteralView::Bool(*value),
            Literal::Number(digits) => LiteralView::Number(digits@),
            Literal::Text(text) => LiteralView::Text(text@),
        }
    }
}

impl Clone for Literal {
    fn clone(&self) -> (copy: Self)
        ensures
            copy@ == self@,
    {
        match self {
            Literal::Nil => Literal::Nil,
            Literal::Bool(value) => Literal::Bool(*value),
            Literal::Number(digits) => Literal::Number(digits.clone()),
            Literal::Text(text) => Literal::Text(text.clone()),
        }
    }
}

impl PartialEq for Literal {
    fn eq(&self, other: &Self) -> (equal: bool) {
        match (self, other) {
            (Literal::Nil, Literal::Nil) => true,
            (Literal::Bool(left), Literal::Bool(right)) => *left == *right,
            (Literal::Number(left), Literal::Number(right)) => *left == *right,
            (Literal::Text(left), Literal::Text(right)) => *left == *right,
            _ => false,
        }
    }
}

impl vstd::std_specs::cmp::PartialEqSpecImpl for Literal {
    open spec fn obeys_eq_spec() -> bool {
        true
    }

    open spec fn eq_spec(&self, other: &Self) -> bool {
        self@ == other@
    }
}

impl Eq for Literal {

}

/// A token: its kind, the characters it was read from, the constant it
/// denotes if it is a string or a number, and the place where it ends.
#[derive(Debug, Hash)]
pub struct Token {
    pub token_type: TokenType,
    pub lexeme: String,
    pub literal: Literal,
    pub code_location: CodeLocation,
}

/// The mathematical model of a [`Token`].
pub struct TokenView {
    pub token_type: TokenType,
    pub lexeme: Seq<char>,
    pub literal: LiteralView,
    pub code_location: CodeLocation,
}

impl View for Token {
    type V = TokenView;

    open spec fn view(&self) -> TokenView {
        TokenView {
            token_type: self.token_type,
            lexeme: self.lexeme@,
            literal: self.literal@,
            code_location: self.code_location,
        }
    }
}

impl Clone for Token {
    fn clone(&self) -> (copy: Self)
        ensures
            copy@ == self@,
    {
        Token {
            token_type: self.token_type,
            lexeme: self.lexeme.clone(),
            literal: self.literal.clone(),
            code_location: self.code_location,
        }
    }
}

impl PartialEq for Token {
    fn eq(&self, other: &Self) -> (equal: bool) {
        self.token_type == other.token_type && self.lexeme == other.lexeme && self.literal == other.literal
            && self.code_location == other.code_location
    }
}

impl vstd::std_specs::cmp::PartialEqSpecImpl for Token {
    open spec fn obeys_eq_spec() -> bool {
        true
    }

    open spec fn eq_spec(&self, other: &Self) -> bool {
        self@ == other@
    }
}

impl Eq for Token {

}

impl Token {
    pub fn new(token_type: TokenType, lexeme: &str, literal: Literal, code_location: CodeLocation) -> (token: Self)
        ensures
            token@ == (TokenView {
                token_type,
                lexeme: lexeme@,
                literal: literal@,
                code_location,
            }),
    {
        Token { token_type, lexeme: String::from_str(lexeme), literal, code_location }
    }

    /// Whether this is the token that ends the input.
    pub fn is_eof(&self) -> (eof: bool)
        ensures
            eof == (self@.token_type == TokenType::Eof),
    {
        self.token_type == TokenType::Eof
    }
}

/// The models of a sequence of tokens, in order.
pub open spec fn token_views(tokens: Seq<Token>) -> Seq<TokenView> {
    Seq::new(tokens.len(), |i: int| tokens[i]@)
}

} // verus!
