//! The scanner that owns a source text and runs the automaton over it.
use vstd::prelude::*;
use vstd::string::*;
use crate::chars::clean;
use crate::machine::{
    action_spec, lexeme, lookahead_at, more_to_scan, next_action, rank, run, Action, State,
};
use crate::token::{ScanError, Token, TokenType};

verus! {

/// Scanner over one source text: the current state, the window
/// `start_char..current_char` of the token being built, and the tokens so far.
pub struct Tokenizer {
    state: State,
    tokens: Vec<Token>,
    current_char: usize,
    start_char: usize,
    contents: Vec<char>,
}

impl Tokenizer {
    /// The source text.
    pub closed spec fn source(&self) -> Seq<char> {
        self.contents@
    }

    pub closed spec fn scan_state(&self) -> State {
        self.state
    }

    /// Where the window of the token being built begins.
    pub closed spec fn window_start(&self) -> int {
        self.start_char as int
    }

    /// The cursor: how many characters have been consumed.
    pub closed spec fn position(&self) -> int {
        self.current_char as int
    }

    /// The tokens emitted so far, in order.
    pub closed spec fn emitted(&self) -> Seq<(TokenType, Seq<char>)> {
        self.tokens@.map_values(|t: Token| t@)
    }

    /// The window lies within the source, and is empty whenever no token is in progress.
    pub closed spec fn wf(&self) -> bool {
        &&& self.start_char <= self.current_char <= self.contents@.len()
        &&& self.contents@.len() <= usize::MAX
        &&& self.state == State::Start ==> self.start_char == self.current_char
    }

    /// A scanner at the start of `contents`, in state `Start`, with no tokens.
    pub fn create_tokenizer(contents: String) -> (r: Tokenizer)
        ensures
            r.wf(),
            r.source() == contents@,
            r.scan_state() == State::Start,
            r.window_start() == 0,
            r.position() == 0,
            r.emitted() == Seq::<(TokenType, Seq<char>)>::empty(),
    {
        let text = contents.as_str();
        let n = text.unicode_len();
        let mut chars: Vec<char> = Vec::new();
        let mut i: usize = 0;
        while i < n
            invariant
                n == text@.len(),
                text@ == contents@,
                i <= n,
                chars@ == text@.subrange(0, i as int),
            decreases n - i,
        {
            chars.push(text.get_char(i));
            i = i + 1;
            assert(chars@ =~= text@.subrange(0, i as int));
        }
        assert(chars@ =~= contents@);
        let tokens: Vec<Token> = Vec::new();
        let r = Tokenizer {
            state: State::Start,
            tokens: tokens,
            current_char: 0,
            start_char: 0,
            contents: chars,
        };
        assert(r.emitted() =~= Seq::<(TokenType, Seq<char>)>::empty());
        r
    }

    /// Runs the scan to completion. On success every token is in the scanner;
    /// on failure the error says where the scan stopped.
    pub fn tokenize(&mut self) -> (r: Result<(), ScanError>)
        requires
            old(self).wf(),
        ensures
            final(self).wf(),
            final(self).source() == old(self).source(),
            match run(
                old(self).source(),
                old(self).scan_state(),
                old(self).window_start(),
                old(self).position(),
                old(self).emitted(),
            ) {
                Ok(ts) => r is Ok && final(self).emitted() == ts,
                Err(e) => r == Err::<(), ScanError>(e),
            },
    {
        let ghost src = self.contents@;
        let ghost target = run(
            src,
            self.state,
            self.start_char as int,
            self.current_char as int,
            self.emitted(),
        );
        while self.tokens_exist()
            invariant
                self.wf(),
                self.contents@ == src,
                src == old(self).source(),
                target == run(
                    old(self).source(),
                    old(self).scan_state(),
                    old(self).window_start(),
                    old(self).position(),
                    old(self).emitted(),
                ),
                run(
                    src,
                    self.state,
                    self.start_char as int,
                    self.current_char as int,
                    self.emitted(),
                ) == target,
            decreases (src.len() - self.current_char) * 4 + rank(self.state),
        {
            let action = next_action(self.state, self.get_window(), self.start_char, self.look_ahead());
            match action {
                Action::Advance(s) => {
                    self.next_character();
                    self.transition(s);
                },
                Action::Enter(s) => {
                    self.transition(s);
                },
                Action::Emit(k) => {
                    let token = self.create_token(k, self.get_window());
                    let ghost before = self.emitted();
                    self.tokens.push(token);
                    assert(self.emitted() =~= before.push(token@));
                    self.transition(State::Final);
                },
                Action::Reset => {
                    self.start_char = self.current_char;
                    self.transition(State::Start);
                },
                Action::Fail(e) => {
                    return Err(e);
                },
                Action::Halt => {
                    return Ok(());
                },
            }
        }
        Ok(())
    }

    /// Whether the scan has more to do: input is left, or a token is in progress.
    pub fn tokens_exist(&self) -> (r: bool)
        ensures
            r == more_to_scan(self.source(), self.scan_state(), self.position()),
    {
        self.current_char < self.contents.len() || self.state != State::Start
    }

    /// Consumes one character.
    pub fn next_character(&mut self)
        requires
            old(self).wf(),
            old(self).position() < old(self).source().len(),
        ensures
            final(self).position() == old(self).position() + 1,
            final(self).source() == old(self).source(),
            final(self).scan_state() == old(self).scan_state(),
            final(self).window_start() == old(self).window_start(),
            final(self).emitted() == old(self).emitted(),
    {
        self.current_char = self.current_char + 1;
    }

    /// The character after the cursor, or `None` at the end of the source.
    pub fn look_ahead(&self) -> (r: Option<char>)
        ensures
            r == lookahead_at(self.source(), self.position()),
    {
        if self.current_char < self.contents.len() {
            Some(self.contents[self.current_char])
        } else {
            None
        }
    }

    /// The tokens emitted, in order.
    pub fn get_tokens(self) -> (r: Vec<Token>)
        ensures
            r@.map_values(|t: Token| t@) == self.emitted(),
    {
        self.tokens
    }

    pub fn transition(&mut self, state: State)
        ensures
            final(self).scan_state() == state,
            final(self).source() == old(self).source(),
            final(self).position() == old(self).position(),
            final(self).window_start() == old(self).window_start(),
            final(self).emitted() == old(self).emitted(),
    {
        self.state.transition(state);
    }

    /// The character just consumed, if any.
    pub fn get_current_char(&self) -> (r: Option<char>)
        ensures
            r == (if 0 < self.position() <= self.source().len() {
                Some(self.source()[self.position() - 1])
            } else {
                None
            }),
    {
        if 0 < self.current_char && self.current_char <= self.contents.len() {
            Some(self.contents[self.current_char - 1])
        } else {
            None
        }
    }

    /// The text of the token being built.
    pub fn get_window(&self) -> (r: &[char])
        requires
            self.wf(),
        ensures
            r@ == self.source().subrange(self.window_start(), self.position()),
    {
        self.get_char_at(self.start_char, self.current_char)
    }

    /// The characters `start..end` of the source, or none where that range
    /// does not lie within it.
    pub fn get_char_at(&self, start: usize, end: usize) -> (r: &[char])
        ensures
            r@ == (if start <= end <= self.source().len() {
                self.source().subrange(start as int, end as int)
            } else {
                Seq::empty()
            }),
    {
        if start <= end && end <= self.contents.len() {
            &self.contents.as_slice()[start..end]
        } else {
            assert(self.contents@.subrange(0, 0) =~= Seq::<char>::empty());
            &self.contents.as_slice()[0..0]
        }
    }

    /// A token of kind `token_type` from the window `value`.
    pub fn create_token(&self, token_type: TokenType, value: &[char]) -> (r: Token)
        requires
            token_type == TokenType::StringLiteral || token_type == TokenType::CharLiteral
                ==> value@.len() >= 2,
        ensures
            r@ == (token_type, lexeme(token_type, value@)),
    {
        let text = if token_type == TokenType::StringLiteral || token_type
            == TokenType::CharLiteral {
            clean(&value[1..value.len() - 1])
        } else {
            clean(value)
        };
        Token { token_type: token_type, value: text }
    }
}

} // verus!
