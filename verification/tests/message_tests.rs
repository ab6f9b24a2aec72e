use cmm::compiler::code_gen::errors::CodegenError;
use cmm::compiler::ir_gen::errors::IRConversionError;
use cmm::compiler::ir_gen::tacky_ast::TackyBinaryOperator;
use cmm::compiler::lexer::errors::LexerError;
use cmm::compiler::lexer::tokens::{kinds_debug_text, tokens_debug_text, Token, TokenType};
use cmm::compiler::parser::cmm_ast::CmmBinaryOperator;
use cmm::compiler::parser::errors::{ParserError, TokenTypeOption};
use cmm::compiler::CompilerError;

#[test]
fn token_messages() {
    assert_eq!(Token::Identifier("main".to_string()).to_string(), "Identifier: main");
    assert_eq!(Token::Constant(42).to_string(), "Constant: 42");
    assert_eq!(Token::Constant(-42).to_string(), "Constant: -42");
    assert_eq!(Token::DoubleAmpersand.to_string(), "DoubleAmpersand");
    assert_eq!(TokenType::Identifier.to_string(), "Identifier");
    assert_eq!(TokenType::GreaterThanEqual.to_string(), "GreaterThanEqual");
}

#[test]
fn every_kind_is_named_as_debug_formatting_names_it() {
    let kinds = [
        TokenType::Identifier,
        TokenType::Constant,
        TokenType::IntKeyword,
        TokenType::VoidKeyword,
        TokenType::ReturnKeyword,
        TokenType::OpenParen,
        TokenType::CloseParen,
        TokenType::OpenBrace,
        TokenType::CloseBrace,
        TokenType::Semicolon,
        TokenType::Tilde,
        TokenType::Hyphen,
        TokenType::DoubleHyphen,
        TokenType::Plus,
        TokenType::Asterisk,
        TokenType::ForwardSlash,
        TokenType::Percent,
        TokenType::ExclamationMark,
        TokenType::DoubleAmpersand,
        TokenType::DoublePipe,
        TokenType::DoubleEqual,
        TokenType::ExclamationEqual,
        TokenType::LessThan,
        TokenType::GreaterThan,
        TokenType::LessThanEqual,
        TokenType::GreaterThanEqual,
    ];
    for kind in kinds {
        assert_eq!(kind.name(), format!("{:?}", kind));
    }
    assert_eq!(kinds_debug_text(&kinds.to_vec()), format!("{:?}", kinds));
    assert_eq!(kinds_debug_text(&vec![]), "[]");
    assert_eq!(kinds_debug_text(&vec![TokenType::Plus]), "[Plus]");
}

#[test]
fn token_lists_are_printed_as_debug_formatting_prints_them() {
    let tokens = vec![
        Token::Semicolon,
        Token::Identifier("x\ty".to_string()),
        Token::Constant(7),
    ];
    assert_eq!(tokens_debug_text(&tokens), format!("{:?}", tokens));
    assert_eq!(tokens_debug_text(&tokens), "[Semicolon, Identifier(\"x\\ty\"), Constant(7)]");
}

#[test]
fn operators_are_named_as_debug_formatting_names_them() {
    let source = [
        CmmBinaryOperator::Add,
        CmmBinaryOperator::Subtract,
        CmmBinaryOperator::Multiply,
        CmmBinaryOperator::Divide,
        CmmBinaryOperator::Remainder,
        CmmBinaryOperator::And,
        CmmBinaryOperator::Or,
        CmmBinaryOperator::Equal,
        CmmBinaryOperator::NotEqual,
        CmmBinaryOperator::GreaterThan,
        CmmBinaryOperator::LessThan,
        CmmBinaryOperator::GreaterThanEqual,
        CmmBinaryOperator::LessThanEqual,
    ];
    for operator in source {
        assert_eq!(operator.name(), format!("{:?}", operator));
    }
    let tacky = [
        TackyBinaryOperator::Add,
        TackyBinaryOperator::Subtract,
        TackyBinaryOperator::Multiply,
        TackyBinaryOperator::Divide,
        TackyBinaryOperator::Remainder,
        TackyBinaryOperator::Equal,
        TackyBinaryOperator::NotEqual,
        TackyBinaryOperator::LessThan,
        TackyBinaryOperator::GreaterThan,
        TackyBinaryOperator::LessThanEqual,
        TackyBinaryOperator::GreaterThanEqual,
    ];
    for operator in tacky {
        assert_eq!(operator.name(), format!("{:?}", operator));
    }
}

#[test]
fn lexer_error_messages() {
    assert_eq!(
        LexerError::UnknownCharacter { found: '@', byte_offset: 12 }.to_string(),
        "Lexer error: Unknown character '@' at byte offset 12"
    );
    assert_eq!(
        LexerError::NonmatchingPattern { found: "123abc".to_string() }.to_string(),
        "Lexer error: The string did not match the expected pattern: '123abc'"
    );
    assert_eq!(
        LexerError::InvalidConstant { found: "2147483648".to_string() }.to_string(),
        "Lexer error: The constant could not be parsed: 2147483648"
    );
}

#[test]
fn parser_error_messages() {
    assert_eq!(
        ParserError::UnexpectedEndOfInput.to_string(),
        "Parser error: Unexpected end of input"
    );
    assert_eq!(
        ParserError::UnexpectedToken {
            expected: TokenTypeOption::One(TokenType::CloseBrace),
            actual: TokenType::Semicolon,
        }
        .to_string(),
        "Parser error: Unexpected token Semicolon, expected CloseBrace"
    );
    assert_eq!(
        ParserError::UnexpectedToken {
            expected: TokenTypeOption::Many(vec![
                TokenType::Constant,
                TokenType::Hyphen,
                TokenType::Tilde,
                TokenType::OpenParen,
            ]),
            actual: TokenType::VoidKeyword,
        }
        .to_string(),
        "Parser error: Unexpected token VoidKeyword, expected one of [Constant, Hyphen, Tilde, OpenParen]"
    );
    assert_eq!(
        ParserError::UnexpectedTrailingTokens {
            found: vec![Token::Semicolon, Token::Identifier("x".to_string())],
        }
        .to_string(),
        "Parser error: Unexpected trailing tokens found [Semicolon, Identifier(\"x\")]"
    );
}

#[test]
fn later_stage_error_messages() {
    assert_eq!(
        IRConversionError::UnsupportedBinaryOperatorConversion { operator: CmmBinaryOperator::And }
            .to_string(),
        "IR conversion error: Unsupported C-- binary operator conversion And"
    );
    assert_eq!(
        CodegenError::UnsupportedConditionCodeConversion { operator: TackyBinaryOperator::Add }
            .to_string(),
        "Codegen error: Unsupported condition code conversion 'Add'"
    );
    assert_eq!(
        CompilerError::Parser(ParserError::UnexpectedEndOfInput).to_string(),
        "Parser error: Unexpected end of input"
    );
    assert_eq!(
        CompilerError::ProgramTooLarge { instructions: 67108864 }.to_string(),
        "Codegen error: The function has too many instructions: 67108864"
    );
    assert_eq!(
        CompilerError::Lexer(LexerError::UnknownCharacter { found: '\u{e9}', byte_offset: 0 })
            .to_string(),
        "Lexer error: Unknown character '\u{e9}' at byte offset 0"
    );
}
