use tokenizer::chars::{clean, is_keyword, is_operator, is_seperator};
use tokenizer::{next_action, Action, ScanError, State, Token, TokenType, Tokenizer};

fn tok(token_type: TokenType, value: &str) -> Token {
    Token { token_type, value: String::from(value) }
}

fn scan(source: &str) -> Result<Vec<Token>, ScanError> {
    let mut t = Tokenizer::create_tokenizer(String::from(source));
    t.tokenize()?;
    Ok(t.get_tokens())
}

#[test]
fn empty_input_gives_no_tokens() {
    assert_eq!(scan(""), Ok(vec![]));
}

#[test]
fn declaration_statement() {
    assert_eq!(
        scan("int x = 5;"),
        Ok(vec![
            tok(TokenType::Keyword, "int"),
            tok(TokenType::Identifier, "x"),
            tok(TokenType::Operator, "="),
            tok(TokenType::IntegerLiteral, "5"),
            tok(TokenType::Separator, ";"),
        ])
    );
}

#[test]
fn two_character_operator_is_one_token() {
    assert_eq!(
        scan("a <= b"),
        Ok(vec![
            tok(TokenType::Identifier, "a"),
            tok(TokenType::Operator, "<="),
            tok(TokenType::Identifier, "b"),
        ])
    );
}

#[test]
fn other_two_character_operators() {
    assert_eq!(
        scan("a!=b==c>=d=>e"),
        Ok(vec![
            tok(TokenType::Identifier, "a"),
            tok(TokenType::Operator, "!="),
            tok(TokenType::Identifier, "b"),
            tok(TokenType::Operator, "=="),
            tok(TokenType::Identifier, "c"),
            tok(TokenType::Operator, ">="),
            tok(TokenType::Identifier, "d"),
            tok(TokenType::Operator, "=>"),
            tok(TokenType::Identifier, "e"),
        ])
    );
}

#[test]
fn decimal_literal_is_one_token() {
    assert_eq!(scan("3.14"), Ok(vec![tok(TokenType::DecimalLiteral, "3.14")]));
}

#[test]
fn decimal_point_without_fraction() {
    assert_eq!(scan("3."), Ok(vec![tok(TokenType::DecimalLiteral, "3.")]));
}

#[test]
fn string_literal_loses_its_quotes() {
    assert_eq!(scan("\"hello\""), Ok(vec![tok(TokenType::StringLiteral, "hello")]));
}

#[test]
fn empty_string_literal() {
    assert_eq!(scan("\"\""), Ok(vec![tok(TokenType::StringLiteral, "")]));
}

#[test]
fn string_literal_keeps_spaces_and_loses_newlines() {
    assert_eq!(scan("\"a b\nc\""), Ok(vec![tok(TokenType::StringLiteral, "a bc")]));
}

#[test]
fn unterminated_string_reports_opening_quote() {
    assert_eq!(
        scan("\"unterminated"),
        Err(ScanError::UnterminatedStringLiteral { start_position: 0 })
    );
}

#[test]
fn unterminated_string_after_other_tokens() {
    assert_eq!(
        scan("x = \"abc"),
        Err(ScanError::UnterminatedStringLiteral { start_position: 4 })
    );
}

#[test]
fn char_literal_loses_its_quotes() {
    assert_eq!(scan("'a'"), Ok(vec![tok(TokenType::CharLiteral, "a")]));
}

#[test]
fn unterminated_char_literal() {
    assert_eq!(scan("c = 'a"), Err(ScanError::UnterminatedCharLiteral { start_position: 4 }));
}

#[test]
fn invalid_character_reports_its_position() {
    assert_eq!(scan("a # b"), Err(ScanError::InvalidCharacter { position: 2 }));
}

#[test]
fn scanning_twice_gives_the_same_tokens() {
    let source = "double y = 2.5; str s = \"hi\";";
    let first = scan(source);
    let second = scan(source);
    assert!(first.is_ok());
    assert_eq!(first, second);
}

#[test]
fn keyword_needs_the_whole_word() {
    assert_eq!(scan("strint"), Ok(vec![tok(TokenType::Identifier, "strint")]));
}

#[test]
fn every_keyword() {
    assert_eq!(
        scan("int double char str"),
        Ok(vec![
            tok(TokenType::Keyword, "int"),
            tok(TokenType::Keyword, "double"),
            tok(TokenType::Keyword, "char"),
            tok(TokenType::Keyword, "str"),
        ])
    );
}

#[test]
fn identifier_holds_digits_after_a_letter() {
    assert_eq!(
        scan("12abc3"),
        Ok(vec![
            tok(TokenType::IntegerLiteral, "12"),
            tok(TokenType::Identifier, "abc3"),
        ])
    );
}

#[test]
fn separators_are_single_tokens() {
    assert_eq!(
        scan("(){};"),
        Ok(vec![
            tok(TokenType::Separator, "("),
            tok(TokenType::Separator, ")"),
            tok(TokenType::Separator, "{"),
            tok(TokenType::Separator, "}"),
            tok(TokenType::Separator, ";"),
        ])
    );
}

#[test]
fn whitespace_only_gives_no_tokens() {
    assert_eq!(scan(" \n\t\r\n "), Ok(vec![]));
}

#[test]
fn newlines_separate_tokens() {
    assert_eq!(
        scan("x\n==\ny\n"),
        Ok(vec![
            tok(TokenType::Identifier, "x"),
            tok(TokenType::Operator, "=="),
            tok(TokenType::Identifier, "y"),
        ])
    );
}

#[test]
fn adjacent_operator_characters_extend_one_token() {
    assert_eq!(
        scan("a+-b"),
        Ok(vec![
            tok(TokenType::Identifier, "a"),
            tok(TokenType::Operator, "+-"),
            tok(TokenType::Identifier, "b"),
        ])
    );
}

#[test]
fn transition_table_entries() {
    assert_eq!(next_action(State::Start, &[], 0, Some('=')), Action::Advance(State::Operator));
    assert_eq!(next_action(State::Start, &[], 3, None), Action::Halt);
    assert_eq!(
        next_action(State::Start, &[], 3, Some('@')),
        Action::Fail(ScanError::InvalidCharacter { position: 3 })
    );
    assert_eq!(next_action(State::Start, &[], 0, Some(' ')), Action::Advance(State::Final));
    assert_eq!(
        next_action(State::Identifier, &['i', 'n', 't'], 0, Some(' ')),
        Action::Enter(State::Keyword)
    );
    assert_eq!(
        next_action(State::Identifier, &['i', 'n', 't'], 0, Some('s')),
        Action::Advance(State::Identifier)
    );
    assert_eq!(
        next_action(State::Integer, &['3'], 0, Some('.')),
        Action::Advance(State::Decimal)
    );
    assert_eq!(next_action(State::Final, &['x'], 0, None), Action::Reset);
    assert_eq!(
        next_action(State::StringLit, &['"'], 5, None),
        Action::Fail(ScanError::UnterminatedStringLiteral { start_position: 5 })
    );
    assert_eq!(
        next_action(State::StringLit, &['"', 'a', '"'], 0, None),
        Action::Emit(TokenType::StringLiteral)
    );
}

#[test]
fn character_classes() {
    assert!(is_keyword(&['s', 't', 'r']));
    assert!(is_keyword(&['d', 'o', 'u', 'b', 'l', 'e']));
    assert!(!is_keyword(&['s', 't', 'r', 'i', 'n', 't']));
    assert!(!is_keyword(&[]));
    assert!(is_operator('!'));
    assert!(!is_operator('.'));
    assert!(is_seperator(';'));
    assert!(!is_seperator(' '));
}

#[test]
fn clean_removes_newlines() {
    assert_eq!(clean(&['a', '\n', 'b', '\n']), String::from("ab"));
    assert_eq!(clean(&[]), String::new());
}

#[test]
fn tokens_come_out_in_source_order() {
    let mut t = Tokenizer::create_tokenizer(String::from("x=1"));
    assert!(t.look_ahead() == Some('x'));
    assert_eq!(t.tokenize(), Ok(()));
    let tokens = t.get_tokens();
    assert_eq!(tokens.len(), 3);
    assert_eq!(tokens[0], tok(TokenType::Identifier, "x"));
    assert_eq!(tokens[2], tok(TokenType::IntegerLiteral, "1"));
}
