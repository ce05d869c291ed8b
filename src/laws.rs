//! What holds of every scan.
use vstd::prelude::*;
use crate::chars::{
    alnum_char, alpha_char, digit_char, keyword_text, operator_char, separator_char,
    strip_newlines,
};
use crate::machine::{action_spec, lexeme, lookahead_at, more_to_scan, rank, run, scan, Action, State};
use crate::token::TokenType;

verus! {

/// Digits with exactly one `.` after the first digit, as in `3.14` or `3.`.
pub open spec fn decimal_text(w: Seq<char>) -> bool {
    &&& w.len() >= 2
    &&& digit_char(w[0])
    &&& forall|i: int| 0 <= i < w.len() ==> digit_char(#[trigger] w[i]) || w[i] == '.'
    &&& forall|i: int, j: int| 0 <= i < j < w.len() && #[trigger] w[i] == '.' ==> #[trigger] w[j] != '.'
    &&& !(forall|i: int| 0 <= i < w.len() ==> digit_char(#[trigger] w[i]))
}

/// A token whose text belongs to its kind's character class alone.
pub open spec fn token_pure(t: (TokenType, Seq<char>)) -> bool {
    let w = t.1;
    match t.0 {
        TokenType::Keyword => keyword_text(w),
        TokenType::Identifier => w.len() > 0 && alpha_char(w[0]) && (forall|i: int|
            0 <= i < w.len() ==> alnum_char(#[trigger] w[i])) && !keyword_text(w),
        TokenType::Operator => w.len() > 0 && forall|i: int|
            0 <= i < w.len() ==> operator_char(#[trigger] w[i]),
        TokenType::Separator => w.len() == 1 && separator_char(w[0]),
        TokenType::IntegerLiteral => w.len() > 0 && forall|i: int|
            0 <= i < w.len() ==> digit_char(#[trigger] w[i]),
        TokenType::DecimalLiteral => decimal_text(w),
        TokenType::StringLiteral => forall|i: int|
            0 <= i < w.len() ==> #[trigger] w[i] != '"' && w[i] != '\n',
        TokenType::CharLiteral => forall|i: int|
            0 <= i < w.len() ==> #[trigger] w[i] != '\'' && w[i] != '\n',
    }
}

/// What the window `w` holds in each state of the automaton.
pub open spec fn window_ok(state: State, w: Seq<char>) -> bool {
    match state {
        State::Start => w.len() == 0,
        State::Final => true,
        State::Operator => w.len() > 0 && forall|i: int|
            0 <= i < w.len() ==> operator_char(#[trigger] w[i]),
        State::Separator => w.len() == 1 && separator_char(w[0]),
        State::Identifier => w.len() > 0 && alpha_char(w[0]) && forall|i: int|
            0 <= i < w.len() ==> alnum_char(#[trigger] w[i]),
        State::Keyword => keyword_text(w),
        State::Integer => w.len() > 0 && forall|i: int|
            0 <= i < w.len() ==> digit_char(#[trigger] w[i]),
        State::Decimal => decimal_text(w),
        State::StringLit => w.len() >= 1 && w[0] == '"' && forall|i: int|
            1 <= i < w.len() - 1 ==> #[trigger] w[i] != '"',
        State::CharLit => w.len() >= 1 && w[0] == '\'' && forall|i: int|
            1 <= i < w.len() - 1 ==> #[trigger] w[i] != '\'',
    }
}

proof fn lemma_strip_keeps(s: Seq<char>, p: spec_fn(char) -> bool)
    requires
        forall|j: int| 0 <= j < s.len() ==> p(#[trigger] s[j]),
    ensures
        forall|i: int|
            0 <= i < strip_newlines(s).len() ==> p(#[trigger] strip_newlines(s)[i])
                && strip_newlines(s)[i] != '\n',
    decreases s.len(),
{
    if s.len() > 0 {
        let d = s.drop_last();
        assert forall|j: int| 0 <= j < d.len() implies p(#[trigger] d[j]) by {
            assert(d[j] == s[j]);
        }
        lemma_strip_keeps(d, p);
        assert(p(s[s.len() - 1]));
        let r = strip_newlines(s);
        let rd = strip_newlines(d);
        assert forall|i: int| 0 <= i < r.len() implies p(#[trigger] r[i]) && r[i] != '\n' by {
            if i < rd.len() {
                assert(r[i] == rd[i]);
            }
        }
    }
}

proof fn lemma_strip_without_newline(s: Seq<char>)
    requires
        forall|j: int| 0 <= j < s.len() ==> #[trigger] s[j] != '\n',
    ensures
        strip_newlines(s) == s,
    decreases s.len(),
{
    if s.len() > 0 {
        let d = s.drop_last();
        assert forall|j: int| 0 <= j < d.len() implies #[trigger] d[j] != '\n' by {
            assert(d[j] == s[j]);
        }
        lemma_strip_without_newline(d);
        assert(s[s.len() - 1] != '\n');
        assert(d.push(s.last()) =~= s);
    }
}

/// The token emitted from a window that fits its state has pure text.
proof fn lemma_emit_pure(state: State, k: TokenType, w: Seq<char>)
    requires
        window_ok(state, w),
        state != State::Start,
        state != State::Final,
        k == TokenType::StringLiteral || k == TokenType::CharLiteral ==> w.len() >= 2,
        k == TokenType::StringLiteral ==> state == State::StringLit && w.last() == '"',
        k == TokenType::CharLiteral ==> state == State::CharLit && w.last() == '\'',
        k == TokenType::Keyword ==> state == State::Keyword,
        k == TokenType::Identifier ==> state == State::Identifier && !keyword_text(w),
        k == TokenType::Operator ==> state == State::Operator,
        k == TokenType::Separator ==> state == State::Separator,
        k == TokenType::IntegerLiteral ==> state == State::Integer,
        k == TokenType::DecimalLiteral ==> state == State::Decimal,
    ensures
        token_pure((k, lexeme(k, w))),
{
    if k == TokenType::StringLiteral {
        let inner = w.subrange(1, w.len() - 1);
        let p = |c: char| c != '"';
        assert forall|j: int| 0 <= j < inner.len() implies p(#[trigger] inner[j]) by {
            assert(inner[j] == w[j + 1]);
        }
        lemma_strip_keeps(inner, p);
    } else if k == TokenType::CharLiteral {
        let inner = w.subrange(1, w.len() - 1);
        let p = |c: char| c != '\'';
        assert forall|j: int| 0 <= j < inner.len() implies p(#[trigger] inner[j]) by {
            assert(inner[j] == w[j + 1]);
        }
        lemma_strip_keeps(inner, p);
    } else {
        assert(forall|j: int| 0 <= j < w.len() ==> #[trigger] w[j] != '\n');
        lemma_strip_without_newline(w);
    }
}

proof fn lemma_run_pure(
    src: Seq<char>,
    state: State,
    start: int,
    current: int,
    toks: Seq<(TokenType, Seq<char>)>,
)
    requires
        0 <= start <= current <= src.len() ==> window_ok(state, src.subrange(start, current)),
        forall|i: int| 0 <= i < toks.len() ==> token_pure(#[trigger] toks[i]),
    ensures
        run(src, state, start, current, toks) is Ok ==> forall|i: int|
            0 <= i < run(src, state, start, current, toks)->Ok_0.len() ==> token_pure(
                #[trigger] run(src, state, start, current, toks)->Ok_0[i],
            ),
    decreases (src.len() - current) * 4 + rank(state),
{
    if !(0 <= start <= current <= src.len()) || start > usize::MAX || !more_to_scan(
        src,
        state,
        current,
    ) {
    } else {
        let w = src.subrange(start, current);
        let la = lookahead_at(src, current);
        match action_spec(state, w, start as usize, la) {
            Action::Advance(s) => if current < src.len() {
                let c = src[current];
                let w2 = src.subrange(start, current + 1);
                assert(w2 =~= w.push(c));
                lemma_advance_ok(state, s, w, c, start as usize);
                lemma_run_pure(src, s, start, current + 1, toks);
            },
            Action::Enter(s) => if rank(s) < rank(state) {
                lemma_run_pure(src, s, start, current, toks);
            },
            Action::Emit(k) => if rank(state) > rank(State::Final) {
                lemma_emit_pure(state, k, w);
                let t2 = toks.push((k, lexeme(k, w)));
                assert forall|i: int| 0 <= i < t2.len() implies token_pure(#[trigger] t2[i]) by {
                    if i < toks.len() {
                        assert(t2[i] == toks[i]);
                    }
                }
                lemma_run_pure(src, State::Final, start, current, t2);
            },
            Action::Reset => if rank(state) > rank(State::Start) {
                lemma_run_pure(src, State::Start, current, current, toks);
            },
            Action::Fail(e) => {},
            Action::Halt => {},
        }
    }
}

/// Taking one more character into the window keeps the window fitting its state.
proof fn lemma_advance_ok(state: State, next: State, w: Seq<char>, c: char, start: usize)
    requires
        window_ok(state, w),
        action_spec(state, w, start, Some(c)) == Action::Advance(next),
    ensures
        window_ok(next, w.push(c)),
{
    let w2 = w.push(c);
    assert(forall|i: int| 0 <= i < w.len() ==> w2[i] == w[i]);
    assert(w2[w.len() as int] == c);
    if next == State::Decimal && state == State::Integer {
        assert(!digit_char(w2[w.len() as int]));
        assert forall|i: int, j: int|
            0 <= i < j < w2.len() && #[trigger] w2[i] == '.' implies #[trigger] w2[j] != '.' by {
            assert(digit_char(w2[i]));
        }
    } else if next == State::Decimal {
        assert(!digit_char(w2[w.len() as int]) ==> false);
        assert(exists|i: int| 0 <= i < w.len() && !digit_char(#[trigger] w[i]));
        let k = choose|i: int| 0 <= i < w.len() && !digit_char(#[trigger] w[i]);
        assert(!digit_char(w2[k]));
        assert forall|i: int, j: int|
            0 <= i < j < w2.len() && #[trigger] w2[i] == '.' implies #[trigger] w2[j] != '.' by {
            if j == w.len() {
                assert(digit_char(c));
            }
        }
    }
}

/// Every token of a successful scan is made of one character class: keywords
/// are reserved words, identifiers start with a letter, hold only letters and
/// digits and are no reserved word, operators hold only operator characters,
/// a separator is one separator character, integer literals are digits,
/// decimal literals are digits around one point, and string and character
/// literals hold neither their closing quote nor a newline.
pub proof fn lemma_tokens_are_pure(src: Seq<char>)
    ensures
        scan(src) is Ok ==> forall|i: int|
            0 <= i < scan(src)->Ok_0.len() ==> token_pure(#[trigger] scan(src)->Ok_0[i]),
{
    lemma_run_pure(src, State::Start, 0, 0, Seq::empty());
}

/// Scanning the same text twice gives the same tokens, or the same error.
pub proof fn lemma_scan_deterministic(a: Seq<char>, b: Seq<char>)
    requires
        a == b,
    ensures
        scan(a) == scan(b),
{
}

} // verus!
