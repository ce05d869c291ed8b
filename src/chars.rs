//! Character classes of the language and the cleanup applied to lexemes.
use vstd::prelude::*;

verus! {

/// Characters that make up operators (`=`, `==`, `<`, `>`, `<=`, `>=`, `!=`,
/// `+`, `-`, `*`, `=>`). Adjacent operator characters form one operator token.
pub open spec fn operator_char(c: char) -> bool {
    c == '=' || c == '<' || c == '>' || c == '!' || c == '+' || c == '-' || c == '*'
}

/// Characters emitted as one-character separator tokens. Whitespace is not
/// among them: it only ends a token and is never emitted (see `blank_char`).
pub open spec fn separator_char(c: char) -> bool {
    c == '(' || c == ')' || c == '{' || c == '}' || c == ';'
}

pub open spec fn digit_char(c: char) -> bool {
    '0' <= c && c <= '9'
}

pub open spec fn alpha_char(c: char) -> bool {
    ('a' <= c && c <= 'z') || ('A' <= c && c <= 'Z')
}

pub open spec fn alnum_char(c: char) -> bool {
    alpha_char(c) || digit_char(c)
}

/// Characters that close a token: space, newline and `;`.
pub open spec fn end_of_token_char(c: char) -> bool {
    c == ' ' || c == '\n' || c == ';'
}

/// Whitespace between tokens, consumed without producing a token.
pub open spec fn blank_char(c: char) -> bool {
    (end_of_token_char(c) && c != ';') || c == '\t' || c == '\r'
}

/// The reserved words `int`, `double`, `char` and `str`, matched on the whole text.
pub open spec fn keyword_text(w: Seq<char>) -> bool {
    w == seq!['i', 'n', 't'] || w == seq!['d', 'o', 'u', 'b', 'l', 'e']
        || w == seq!['c', 'h', 'a', 'r'] || w == seq!['s', 't', 'r']
}

/// `s` with every newline removed.
pub open spec fn strip_newlines(s: Seq<char>) -> Seq<char>
    decreases s.len(),
{
    if s.len() == 0 {
        Seq::empty()
    } else if s.last() == '\n' {
        strip_newlines(s.drop_last())
    } else {
        strip_newlines(s.drop_last()).push(s.last())
    }
}

pub fn is_operator(c: char) -> (r: bool)
    ensures
        r == operator_char(c),
{
    c == '=' || c == '<' || c == '>' || c == '!' || c == '+' || c == '-' || c == '*'
}

pub fn is_seperator(c: char) -> (r: bool)
    ensures
        r == separator_char(c),
{
    c == '(' || c == ')' || c == '{' || c == '}' || c == ';'
}

pub fn is_number(c: char) -> (r: bool)
    ensures
        r == digit_char(c),
{
    '0' <= c && c <= '9'
}

pub fn is_alpha(c: char) -> (r: bool)
    ensures
        r == alpha_char(c),
{
    ('a' <= c && c <= 'z') || ('A' <= c && c <= 'Z')
}

pub fn is_alphanumeric(c: char) -> (r: bool)
    ensures
        r == alnum_char(c),
{
    is_alpha(c) || is_number(c)
}

pub fn is_end_of_token(c: char) -> (r: bool)
    ensures
        r == end_of_token_char(c),
{
    c == ' ' || c == '\n' || c == ';'
}

/// Whitespace between tokens: space, newline, tab or carriage return.
pub fn is_blank(c: char) -> (r: bool)
    ensures
        r == blank_char(c),
{
    (is_end_of_token(c) && c != ';') || c == '\t' || c == '\r'
}

pub fn is_keyword(w: &[char]) -> (r: bool)
    ensures
        r == keyword_text(w@),
{
    let n = w.len();
    if n == 3 {
        let int_kw = w[0] == 'i' && w[1] == 'n' && w[2] == 't';
        let str_kw = w[0] == 's' && w[1] == 't' && w[2] == 'r';
        assert(int_kw ==> w@ =~= seq!['i', 'n', 't']);
        assert(str_kw ==> w@ =~= seq!['s', 't', 'r']);
        int_kw || str_kw
    } else if n == 4 {
        let r = w[0] == 'c' && w[1] == 'h' && w[2] == 'a' && w[3] == 'r';
        assert(r ==> w@ =~= seq!['c', 'h', 'a', 'r']);
        r
    } else if n == 6 {
        let r = w[0] == 'd' && w[1] == 'o' && w[2] == 'u' && w[3] == 'b' && w[4] == 'l'
            && w[5] == 'e';
        assert(r ==> w@ =~= seq!['d', 'o', 'u', 'b', 'l', 'e']);
        r
    } else {
        false
    }
}

/// Relies on `String::push`: appends `c` to the end of `s`.
#[verifier::external_body]
fn push_char(s: &mut String, c: char)
    ensures
        final(s)@ == old(s)@.push(c),
{
    s.push(c);
}

/// Copies `value` into a string, leaving out every newline.
pub fn clean(value: &[char]) -> (r: String)
    ensures
        r@ == strip_newlines(value@),
{
    let mut r = String::new();
    let mut i: usize = 0;
    while i < value.len()
        invariant
            i <= value@.len(),
            r@ == strip_newlines(value@.subrange(0, i as int)),
        decreases value@.len() - i,
    {
        let c = value[i];
        assert(value@.subrange(0, i + 1).drop_last() =~= value@.subrange(0, i as int));
        if c != '\n' {
            push_char(&mut r, c);
        }
        i = i + 1;
    }
    assert(value@.subrange(0, i as int) =~= value@);
    r
}

} // verus!
