use cmm::compiler::lexer::errors::LexerError;
use cmm::compiler::lexer::tokens::{Token, TokenType};
use cmm::compiler::lexer::{
    next_token, parse_constant, parse_identifier_or_keyword, parse_punctuation, tokenize,
    trim_start,
};

#[test]
fn tokenize_reads_a_whole_function() {
    let tokens = tokenize("int main(void) { return 1; }");
    assert_eq!(
        tokens,
        Ok(vec![
            Token::IntKeyword,
            Token::Identifier("main".to_string()),
            Token::OpenParen,
            Token::VoidKeyword,
            Token::CloseParen,
            Token::OpenBrace,
            Token::ReturnKeyword,
            Token::Constant(1),
            Token::Semicolon,
            Token::CloseBrace,
        ])
    );
}

#[test]
fn tokenize_empty_input_gives_no_tokens() {
    assert_eq!(tokenize(""), Ok(vec![]));
}

#[test]
fn tokenize_white_space_only_gives_no_tokens() {
    assert_eq!(tokenize(" \t\r\n\x0C  "), Ok(vec![]));
}

#[test]
fn tokenize_skips_white_space_between_tokens() {
    assert_eq!(
        tokenize("\n\treturn\t\t2 ;\n"),
        Ok(vec![Token::ReturnKeyword, Token::Constant(2), Token::Semicolon])
    );
}

#[test]
fn tokenize_reads_every_operator() {
    assert_eq!(
        tokenize("~ - -- + * / % ! && || == != < > <= >="),
        Ok(vec![
            Token::Tilde,
            Token::Hyphen,
            Token::DoubleHyphen,
            Token::Plus,
            Token::Asterisk,
            Token::ForwardSlash,
            Token::Percent,
            Token::ExclamationMark,
            Token::DoubleAmpersand,
            Token::DoublePipe,
            Token::DoubleEqual,
            Token::ExclamationEqual,
            Token::LessThan,
            Token::GreaterThan,
            Token::LessThanEqual,
            Token::GreaterThanEqual,
        ])
    );
}

#[test]
fn tokenize_prefers_the_longer_punctuation() {
    assert_eq!(tokenize("--"), Ok(vec![Token::DoubleHyphen]));
    assert_eq!(tokenize("---"), Ok(vec![Token::DoubleHyphen, Token::Hyphen]));
    assert_eq!(tokenize("!<="), Ok(vec![Token::ExclamationMark, Token::LessThanEqual]));
    assert_eq!(tokenize("!=="), Err(LexerError::UnknownCharacter { found: '=', byte_offset: 2 }));
}

#[test]
fn tokenize_needs_no_white_space_between_tokens() {
    assert_eq!(
        tokenize("return-x1;"),
        Ok(vec![
            Token::ReturnKeyword,
            Token::Hyphen,
            Token::Identifier("x1".to_string()),
            Token::Semicolon,
        ])
    );
}

#[test]
fn tokenize_keywords_are_whole_words() {
    assert_eq!(
        tokenize("int integer return_ _void voided"),
        Ok(vec![
            Token::IntKeyword,
            Token::Identifier("integer".to_string()),
            Token::Identifier("return_".to_string()),
            Token::Identifier("_void".to_string()),
            Token::Identifier("voided".to_string()),
        ])
    );
}

#[test]
fn tokenize_largest_constant() {
    assert_eq!(tokenize("2147483647"), Ok(vec![Token::Constant(2147483647)]));
    assert_eq!(tokenize("0002147483647"), Ok(vec![Token::Constant(2147483647)]));
    assert_eq!(tokenize("0"), Ok(vec![Token::Constant(0)]));
}

#[test]
fn tokenize_constant_too_large() {
    assert_eq!(
        tokenize("2147483648"),
        Err(LexerError::InvalidConstant { found: "2147483648".to_string() })
    );
    assert_eq!(
        tokenize("return 99999999999999999999999999;"),
        Err(LexerError::InvalidConstant { found: "99999999999999999999999999".to_string() })
    );
}

#[test]
fn tokenize_digit_before_letter_is_refused() {
    assert_eq!(
        tokenize("  123abc"),
        Err(LexerError::UnknownCharacter { found: '1', byte_offset: 2 })
    );
    assert_eq!(tokenize("1_"), Err(LexerError::UnknownCharacter { found: '1', byte_offset: 0 }));
}

#[test]
fn tokenize_unknown_character() {
    assert_eq!(
        tokenize("int main @"),
        Err(LexerError::UnknownCharacter { found: '@', byte_offset: 9 })
    );
    assert_eq!(tokenize("&"), Err(LexerError::UnknownCharacter { found: '&', byte_offset: 0 }));
    assert_eq!(tokenize("a = 1"), Err(LexerError::UnknownCharacter { found: '=', byte_offset: 2 }));
}

#[test]
fn tokenize_character_outside_ascii() {
    assert_eq!(
        tokenize("return \u{e9};"),
        Err(LexerError::UnknownCharacter { found: '\u{e9}', byte_offset: 7 })
    );
    assert_eq!(
        tokenize("a\u{e9}"),
        Err(LexerError::UnknownCharacter { found: '\u{e9}', byte_offset: 1 })
    );
    assert_eq!(
        tokenize("12\u{e9}"),
        Err(LexerError::UnknownCharacter { found: '\u{e9}', byte_offset: 2 })
    );
    assert_eq!(
        tokenize("\u{a0}1"),
        Err(LexerError::UnknownCharacter { found: '\u{a0}', byte_offset: 0 })
    );
}

#[test]
fn tokenize_vertical_tab_is_no_white_space() {
    assert_eq!(
        tokenize("1\x0B2"),
        Err(LexerError::UnknownCharacter { found: '\x0B', byte_offset: 1 })
    );
}

#[test]
fn identifier_pattern_takes_the_longest_word() {
    assert_eq!(
        parse_identifier_or_keyword("abc_9Z+1"),
        Ok(("+1".to_string(), Token::Identifier("abc_9Z".to_string())))
    );
    assert_eq!(
        parse_identifier_or_keyword("_"),
        Ok(("".to_string(), Token::Identifier("_".to_string())))
    );
    assert_eq!(
        parse_identifier_or_keyword("x\u{3b1}"),
        Ok(("\u{3b1}".to_string(), Token::Identifier("x".to_string())))
    );
}

#[test]
fn identifier_pattern_refuses_other_starts() {
    assert_eq!(
        parse_identifier_or_keyword(""),
        Err(LexerError::NonmatchingPattern { found: "".to_string() })
    );
    assert_eq!(
        parse_identifier_or_keyword(" a"),
        Err(LexerError::NonmatchingPattern { found: " a".to_string() })
    );
    assert_eq!(
        parse_identifier_or_keyword("9a"),
        Err(LexerError::NonmatchingPattern { found: "9a".to_string() })
    );
    assert_eq!(
        parse_identifier_or_keyword("\u{3b1}x"),
        Err(LexerError::NonmatchingPattern { found: "\u{3b1}x".to_string() })
    );
}

#[test]
fn constant_pattern_takes_the_longest_number() {
    assert_eq!(parse_constant("42)"), Ok((")".to_string(), Token::Constant(42))));
    assert_eq!(parse_constant("7 8"), Ok((" 8".to_string(), Token::Constant(7))));
    assert_eq!(parse_constant("12\u{3b1}"), Ok(("\u{3b1}".to_string(), Token::Constant(12))));
}

#[test]
fn constant_pattern_refuses_a_word_character_after_the_digits() {
    assert_eq!(
        parse_constant("12_"),
        Err(LexerError::NonmatchingPattern { found: "12_".to_string() })
    );
    assert_eq!(parse_constant("x"), Err(LexerError::NonmatchingPattern { found: "x".to_string() }));
    assert_eq!(parse_constant(""), Err(LexerError::NonmatchingPattern { found: "".to_string() }));
}

#[test]
fn constant_pattern_reports_overflow() {
    assert_eq!(
        parse_constant("4294967296;"),
        Err(LexerError::InvalidConstant { found: "4294967296".to_string() })
    );
}

#[test]
fn punctuation_refuses_other_text() {
    assert_eq!(
        parse_punctuation("a"),
        Err(LexerError::NonmatchingPattern { found: "a".to_string() })
    );
    assert_eq!(parse_punctuation(""), Err(LexerError::NonmatchingPattern { found: "".to_string() }));
    assert_eq!(
        parse_punctuation("=1"),
        Err(LexerError::NonmatchingPattern { found: "=1".to_string() })
    );
}

#[test]
fn punctuation_reads_one_or_two_characters() {
    assert_eq!(parse_punctuation(">=1"), Ok(("1".to_string(), Token::GreaterThanEqual)));
    assert_eq!(parse_punctuation(">1"), Ok(("1".to_string(), Token::GreaterThan)));
    assert_eq!(parse_punctuation("&&"), Ok(("".to_string(), Token::DoubleAmpersand)));
    assert_eq!(parse_punctuation("||x"), Ok(("x".to_string(), Token::DoublePipe)));
    assert_eq!(parse_punctuation("}"), Ok(("".to_string(), Token::CloseBrace)));
}

#[test]
fn next_token_tries_word_number_punctuation() {
    assert_eq!(next_token("void)", 0), Ok((")".to_string(), Token::VoidKeyword)));
    assert_eq!(next_token("5;", 0), Ok((";".to_string(), Token::Constant(5))));
    assert_eq!(next_token("{5", 0), Ok(("5".to_string(), Token::OpenBrace)));
    assert_eq!(next_token("#", 11), Err(LexerError::UnknownCharacter { found: '#', byte_offset: 11 }));
}

#[test]
fn trim_start_drops_leading_white_space_only() {
    assert_eq!(trim_start("  \t\n a b "), "a b ".to_string());
    assert_eq!(trim_start("a "), "a ".to_string());
    assert_eq!(trim_start(" \r\x0C"), "".to_string());
}

#[test]
fn token_kinds() {
    assert_eq!(Token::Identifier("variable".to_string()).kind(), TokenType::Identifier);
    assert_eq!(Token::Constant(3).kind(), TokenType::Constant);
    assert_eq!(Token::IntKeyword.kind(), TokenType::IntKeyword);
    assert_eq!(Token::GreaterThanEqual.kind(), TokenType::GreaterThanEqual);
}

#[test]
fn binary_operator_precedences() {
    assert!(Token::Plus.is_binary_operator());
    assert!(Token::Hyphen.is_binary_operator());
    assert!(!Token::IntKeyword.is_binary_operator());
    assert!(!Token::Tilde.is_binary_operator());
    assert!(!Token::ExclamationMark.is_binary_operator());
    assert!(!Token::DoubleHyphen.is_binary_operator());
    assert_eq!(Token::Asterisk.get_binary_operator_precedence(), Ok(50));
    assert_eq!(Token::ForwardSlash.get_binary_operator_precedence(), Ok(50));
    assert_eq!(Token::Percent.get_binary_operator_precedence(), Ok(50));
    assert_eq!(Token::Plus.get_binary_operator_precedence(), Ok(45));
    assert_eq!(Token::Hyphen.get_binary_operator_precedence(), Ok(45));
    assert_eq!(Token::LessThan.get_binary_operator_precedence(), Ok(35));
    assert_eq!(Token::GreaterThan.get_binary_operator_precedence(), Ok(35));
    assert_eq!(Token::LessThanEqual.get_binary_operator_precedence(), Ok(35));
    assert_eq!(Token::GreaterThanEqual.get_binary_operator_precedence(), Ok(35));
    assert_eq!(Token::DoubleEqual.get_binary_operator_precedence(), Ok(30));
    assert_eq!(Token::ExclamationEqual.get_binary_operator_precedence(), Ok(30));
    assert_eq!(Token::DoubleAmpersand.get_binary_operator_precedence(), Ok(10));
    assert_eq!(Token::DoublePipe.get_binary_operator_precedence(), Ok(5));
}

#[test]
fn precedence_of_other_tokens_is_an_explanation() {
    assert_eq!(
        Token::IntKeyword.get_binary_operator_precedence(),
        Err("Token IntKeyword is not a binary operator".to_string())
    );
    assert_eq!(
        Token::Constant(-12).get_binary_operator_precedence(),
        Err("Token Constant(-12) is not a binary operator".to_string())
    );
    assert_eq!(
        Token::Identifier("a\"b".to_string()).get_binary_operator_precedence(),
        Err("Token Identifier(\"a\\\"b\") is not a binary operator".to_string())
    );
}

#[test]
fn token_debug_text_matches_debug_formatting() {
    for token in [
        Token::Identifier("main".to_string()),
        Token::Constant(2147483647),
        Token::Constant(-2147483648),
        Token::Constant(0),
        Token::Semicolon,
        Token::DoublePipe,
    ] {
        assert_eq!(token.debug_text(), format!("{:?}", token));
    }
}
