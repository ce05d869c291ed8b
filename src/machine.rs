//! The scanning automaton: one pure transition per step, and the whole scan
//! as the repeated application of that transition.
use vstd::prelude::*;
use crate::chars::{
    alnum_char, alpha_char, blank_char, digit_char, is_alpha, is_alphanumeric, is_blank, is_keyword,
    is_number, is_operator, is_seperator, keyword_text, operator_char, separator_char,
    strip_newlines,
};
use crate::token::{ScanError, TokenType};

verus! {

#[derive(Clone, Copy, Debug, PartialEq, Eq, Structural)]
pub enum State {
    Start,
    Final,
    Operator,
    Separator,
    Identifier,
    Keyword,
    Integer,
    Decimal,
    StringLit,
    CharLit,
}

impl State {
    pub fn transition(&mut self, transition_state: State)
        ensures
            *final(self) == transition_state,
    {
        *self = transition_state;
    }
}

/// What one step of the scan does.
#[derive(Clone, Copy, Debug, PartialEq, Eq, Structural)]
pub enum Action {
    /// Take the lookahead character into the window and move to the state.
    Advance(State),
    /// Move to the state without consuming input.
    Enter(State),
    /// Emit the window as a token of this kind and move to `Final`.
    Emit(TokenType),
    /// Start a new, empty window at the cursor and move to `Start`.
    Reset,
    /// Stop the scan with this error.
    Fail(ScanError),
    /// The input is used up and no token is in progress.
    Halt,
}

/// The transition table. `window` is the text of the token being built,
/// `start` where it begins, `lookahead` the next character (`None` at the end).
/// A quoted literal closes at the first matching quote after the opening one;
/// a character literal may hold any number of characters.
pub open spec fn action_spec(
    state: State,
    window: Seq<char>,
    start: usize,
    lookahead: Option<char>,
) -> Action {
    match state {
        State::Start => match lookahead {
            None => Action::Halt,
            Some(c) => if operator_char(c) {
                Action::Advance(State::Operator)
            } else if separator_char(c) {
                Action::Advance(State::Separator)
            } else if alpha_char(c) {
                Action::Advance(State::Identifier)
            } else if digit_char(c) {
                Action::Advance(State::Integer)
            } else if c == '"' {
                Action::Advance(State::StringLit)
            } else if c == '\'' {
                Action::Advance(State::CharLit)
            } else if blank_char(c) {
                Action::Advance(State::Final)
            } else {
                Action::Fail(ScanError::InvalidCharacter { position: start })
            },
        },
        State::Final => Action::Reset,
        State::Operator => if lookahead is Some && operator_char(lookahead->0) {
            Action::Advance(State::Operator)
        } else {
            Action::Emit(TokenType::Operator)
        },
        State::Separator => Action::Emit(TokenType::Separator),
        State::Identifier => if lookahead is Some && alnum_char(lookahead->0) {
            Action::Advance(State::Identifier)
        } else if keyword_text(window) {
            Action::Enter(State::Keyword)
        } else {
            Action::Emit(TokenType::Identifier)
        },
        State::Keyword => Action::Emit(TokenType::Keyword),
        State::Integer => if lookahead is Some && digit_char(lookahead->0) {
            Action::Advance(State::Integer)
        } else if lookahead == Some('.') {
            Action::Advance(State::Decimal)
        } else {
            Action::Emit(TokenType::IntegerLiteral)
        },
        State::Decimal => if lookahead is Some && digit_char(lookahead->0) {
            Action::Advance(State::Decimal)
        } else {
            Action::Emit(TokenType::DecimalLiteral)
        },
        State::StringLit => if window.len() >= 2 && window.last() == '"' {
            Action::Emit(TokenType::StringLiteral)
        } else if lookahead is None {
            Action::Fail(ScanError::UnterminatedStringLiteral { start_position: start })
        } else {
            Action::Advance(State::StringLit)
        },
        State::CharLit => if window.len() >= 2 && window.last() == '\'' {
            Action::Emit(TokenType::CharLiteral)
        } else if lookahead is None {
            Action::Fail(ScanError::UnterminatedCharLiteral { start_position: start })
        } else {
            Action::Advance(State::CharLit)
        },
    }
}

/// The transition table as a function, usable on its own.
pub fn next_action(state: State, window: &[char], start: usize, lookahead: Option<char>) -> (r:
    Action)
    ensures
        r == action_spec(state, window@, start, lookahead),
{
    match state {
        State::Start => match lookahead {
            None => Action::Halt,
            Some(c) => if is_operator(c) {
                Action::Advance(State::Operator)
            } else if is_seperator(c) {
                Action::Advance(State::Separator)
            } else if is_alpha(c) {
                Action::Advance(State::Identifier)
            } else if is_number(c) {
                Action::Advance(State::Integer)
            } else if c == '"' {
                Action::Advance(State::StringLit)
            } else if c == '\'' {
                Action::Advance(State::CharLit)
            } else if is_blank(c) {
                Action::Advance(State::Final)
            } else {
                Action::Fail(ScanError::InvalidCharacter { position: start })
            },
        },
        State::Final => Action::Reset,
        State::Operator => match lookahead {
            Some(c) if is_operator(c) => Action::Advance(State::Operator),
            _ => Action::Emit(TokenType::Operator),
        },
        State::Separator => Action::Emit(TokenType::Separator),
        State::Identifier => match lookahead {
            Some(c) if is_alphanumeric(c) => Action::Advance(State::Identifier),
            _ => if is_keyword(window) {
                Action::Enter(State::Keyword)
            } else {
                Action::Emit(TokenType::Identifier)
            },
        },
        State::Keyword => Action::Emit(TokenType::Keyword),
        State::Integer => match lookahead {
            Some(c) if is_number(c) => Action::Advance(State::Integer),
            Some(c) if c == '.' => Action::Advance(State::Decimal),
            _ => Action::Emit(TokenType::IntegerLiteral),
        },
        State::Decimal => match lookahead {
            Some(c) if is_number(c) => Action::Advance(State::Decimal),
            _ => Action::Emit(TokenType::DecimalLiteral),
        },
        State::StringLit => if window.len() >= 2 && window[window.len() - 1] == '"' {
            Action::Emit(TokenType::StringLiteral)
        } else if lookahead.is_none() {
            Action::Fail(ScanError::UnterminatedStringLiteral { start_position: start })
        } else {
            Action::Advance(State::StringLit)
        },
        State::CharLit => if window.len() >= 2 && window[window.len() - 1] == '\'' {
            Action::Emit(TokenType::CharLiteral)
        } else if lookahead.is_none() {
            Action::Fail(ScanError::UnterminatedCharLiteral { start_position: start })
        } else {
            Action::Advance(State::CharLit)
        },
    }
}

/// The text stored for a token of kind `k` whose window is `w`: quotes are
/// stripped from string and character literals, and newlines from every lexeme.
pub open spec fn lexeme(k: TokenType, w: Seq<char>) -> Seq<char> {
    if k == TokenType::StringLiteral || k == TokenType::CharLiteral {
        strip_newlines(w.subrange(1, w.len() - 1))
    } else {
        strip_newlines(w)
    }
}

/// Orders the states so that each step that consumes no input lowers it.
pub open spec fn rank(s: State) -> int {
    match s {
        State::Start => 0,
        State::Final => 1,
        State::Keyword => 2,
        _ => 3,
    }
}

/// The scan is over once the input is used up with no token in progress.
pub open spec fn more_to_scan(src: Seq<char>, state: State, current: int) -> bool {
    !(state == State::Start && current >= src.len())
}

pub open spec fn lookahead_at(src: Seq<char>, current: int) -> Option<char> {
    if 0 <= current < src.len() {
        Some(src[current])
    } else {
        None
    }
}

/// The rest of a scan of `src` from state `state` with window `start..current`,
/// after `toks` were emitted: every token in order, or the error that stops it.
pub open spec fn run(
    src: Seq<char>,
    state: State,
    start: int,
    current: int,
    toks: Seq<(TokenType, Seq<char>)>,
) -> Result<Seq<(TokenType, Seq<char>)>, ScanError>
    decreases (src.len() - current) * 4 + rank(state),
{
    if !(0 <= start <= current <= src.len()) || start > usize::MAX || !more_to_scan(
        src,
        state,
        current,
    ) {
        Ok(toks)
    } else {
        let w = src.subrange(start, current);
        match action_spec(state, w, start as usize, lookahead_at(src, current)) {
            Action::Advance(s) => if current < src.len() {
                run(src, s, start, current + 1, toks)
            } else {
                Ok(toks)
            },
            Action::Enter(s) => if rank(s) < rank(state) {
                run(src, s, start, current, toks)
            } else {
                Ok(toks)
            },
            Action::Emit(k) => if rank(state) > rank(State::Final) {
                run(src, State::Final, start, current, toks.push((k, lexeme(k, w))))
            } else {
                Ok(toks)
            },
            Action::Reset => if rank(state) > rank(State::Start) {
                run(src, State::Start, current, current, toks)
            } else {
                Ok(toks)
            },
            Action::Fail(e) => Err(e),
            Action::Halt => Ok(toks),
        }
    }
}

/// The whole scan of `src`: the tokens in source order, or the error that stops it.
pub open spec fn scan(src: Seq<char>) -> Result<Seq<(TokenType, Seq<char>)>, ScanError> {
    run(src, State::Start, 0, 0, Seq::empty())
}

} // verus!
