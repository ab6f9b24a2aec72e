use cmm::compiler::lexer::errors::LexerError;
use cmm::compiler::lexer::tokens::Token;
use cmm::compiler::lexer::{parse_constant, parse_identifier_or_keyword, parse_punctuation};

#[test]
fn test_parse_valid_constant_only() {
    let input = "123";
    let result = parse_constant(input);
    assert!(result.is_ok());
    assert_eq!(result.unwrap(), (String::from(""), Token::Constant(123)));
}

#[test]
fn test_parse_invalid_constant() {
    let input = "123;abc";
    let result = parse_constant(input);
    assert!(result.is_ok());
    assert_eq!(
        result.unwrap(),
        (String::from(";abc"), Token::Constant(123))
    );
}

#[test]
fn test_parse_valid_constant_with_trailing_characters() {
    let input = "123abc";
    let result = parse_constant(input);
    assert!(result.is_err());
    assert_eq!(
        result.unwrap_err(),
        LexerError::NonmatchingPattern {
            found: "123abc".to_string()
        }
    );
}

#[test]
fn parse_valid_single_hyphen() {
    let input = "-a";
    let result = parse_punctuation(input);
    assert!(result.is_ok());
    assert_eq!(result.unwrap(), (String::from("a"), Token::Hyphen));
}

#[test]
fn parse_valid_double_hyphen() {
    let input = "--a";
    let result = parse_punctuation(input);
    assert!(result.is_ok());
    assert_eq!(result.unwrap(), (String::from("a"), Token::DoubleHyphen));
}

#[test]
fn parse_valid_return_keyword() {
    let input = "return 2;";
    let result = parse_identifier_or_keyword(input);
    assert!(result.is_ok());
    assert_eq!(result.unwrap(), (String::from(" 2;"), Token::ReturnKeyword));
}

#[test]
fn parse_valid_void_keyword() {
    let input = "void";
    let result = parse_identifier_or_keyword(input);
    assert!(result.is_ok());
    assert_eq!(result.unwrap(), (String::from(""), Token::VoidKeyword));
}

#[test]
fn parse_valid_int_keyword() {
    let input = "int";
    let result = parse_identifier_or_keyword(input);
    assert!(result.is_ok());
    assert_eq!(result.unwrap(), (String::from(""), Token::IntKeyword));
}

#[test]
fn parse_valid_identifier() {
    let input = "main";
    let result = parse_identifier_or_keyword(input);
    assert!(result.is_ok());
    assert_eq!(
        result.unwrap(),
        (String::from(""), Token::Identifier(input.to_string()))
    );
}

#[test]
fn parse_invalid_identifier() {
    assert!(parse_identifier_or_keyword("1_number_first_not_allowed").is_err());
}
