//! A lexical scanner for a small toy language: source text in, an ordered
//! sequence of keyword, identifier, operator, separator and literal tokens out.

pub mod chars;
pub mod token;
pub mod machine;
pub mod tokenizer;
pub mod laws;

pub use crate::machine::{next_action, Action, State};
pub use crate::token::{ScanError, Token, TokenType};
pub use crate::tokenizer::Tokenizer;
