//! Tokens, their kinds, and the errors that stop a scan.
use vstd::prelude::*;

verus! {

#[derive(Clone, Copy, Debug, PartialEq, Eq, Structural)]
pub enum TokenType {
    Keyword,
    Identifier,
    Operator,
    Separator,
    IntegerLiteral,
    DecimalLiteral,
    StringLiteral,
    CharLiteral,
}

/// One lexeme of the source with its kind. Created once, in scan order.
#[derive(Clone, Debug, PartialEq, Eq)]
pub struct Token {
    pub token_type: TokenType,
    pub value: String,
}

impl View for Token {
    type V = (TokenType, Seq<char>);

    open spec fn view(&self) -> (TokenType, Seq<char>) {
        (self.token_type, self.value@)
    }
}

/// Why a scan stopped. Positions count characters from the start of the source.
#[derive(Clone, Copy, Debug, PartialEq, Eq, Structural)]
pub enum ScanError {
    /// The character at `position` starts no token.
    InvalidCharacter { position: usize },
    /// The string literal opened at `start_position` is never closed.
    UnterminatedStringLiteral { start_position: usize },
    /// The character literal opened at `start_position` is never closed.
    UnterminatedCharLiteral { start_position: usize },
}

} // verus!
