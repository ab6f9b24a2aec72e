use crate::common::text::bracketed_list;
use crate::compiler::lexer::tokens::{
    kind_names, kinds_debug_text, token_debug_texts, tokens_debug_text, Token, TokenType,
    TokenView,
};
use vstd::prelude::*;
use vstd::string::*;

verus! {

/// What the parser expected: one kind of token, or one of several.
#[derive(Debug, PartialEq)]
pub enum TokenTypeOption {
    One(TokenType),
    Many(Vec<TokenType>),
}

/// The errors of parsing.
#[derive(Debug, PartialEq)]
pub enum ParserError {
    /// The tokens ran out where one was expected.
    UnexpectedEndOfInput,
    /// A token of another kind stood where `expected` was expected.
    UnexpectedToken { expected: TokenTypeOption, actual: TokenType },
    /// Tokens were left after the program.
    UnexpectedTrailingTokens { found: Vec<Token> },
}

/// The mathematical value of a [`TokenTypeOption`].
pub enum TokenTypeOptionView {
    One(TokenType),
    Many(Seq<TokenType>),
}

/// The mathematical value of a [`ParserError`].
pub enum ParserErrorView {
    UnexpectedEndOfInput,
    UnexpectedToken { expected: TokenTypeOptionView, actual: TokenType },
    UnexpectedTrailingTokens { found: Seq<TokenView> },
}

impl DeepView for TokenTypeOption {
    type V = TokenTypeOptionView;

    open spec fn deep_view(&self) -> TokenTypeOptionView {
        match self {
            TokenTypeOption::One(kind) => TokenTypeOptionView::One(*kind),
            TokenTypeOption::Many(kinds) => TokenTypeOptionView::Many(kinds@),
        }
    }
}

impl DeepView for ParserError {
    type V = ParserErrorView;

    open spec fn deep_view(&self) -> ParserErrorView {
        match self {
            ParserError::UnexpectedEndOfInput => ParserErrorView::UnexpectedEndOfInput,
            ParserError::UnexpectedToken { expected, actual } => ParserErrorView::UnexpectedToken {
                expected: expected.deep_view(),
                actual: *actual,
            },
            ParserError::UnexpectedTrailingTokens { found } => {
                ParserErrorView::UnexpectedTrailingTokens { found: found.deep_view() }
            },
        }
    }
}

impl ParserErrorView {
    /// The message of the error.
    pub open spec fn message(self) -> Seq<char> {
        match self {
            ParserErrorView::UnexpectedEndOfInput => "Parser error: Unexpected end of input"@,
            ParserErrorView::UnexpectedToken { expected, actual } => match expected {
                TokenTypeOptionView::One(kind) => "Parser error: Unexpected token "@
                    + actual.spec_name() + ", expected "@ + kind.spec_name(),
                TokenTypeOptionView::Many(kinds) => "Parser error: Unexpected token "@
                    + actual.spec_name() + ", expected one of "@ + bracketed_list(
                    kind_names(kinds),
                ),
            },
            ParserErrorView::UnexpectedTrailingTokens { found } => {
                "Parser error: Unexpected trailing tokens found "@ + bracketed_list(
                    token_debug_texts(found),
                )
            },
        }
    }
}

impl ParserError {
    /// Returns the message of the error: the stage, what went wrong, and the tokens
    /// concerned.
    pub fn to_string(&self) -> (text: String)
        ensures
            text@ == self.deep_view().message(),
    {
        let mut text = String::new();
        match self {
            ParserError::UnexpectedEndOfInput => {
                text.append("Parser error: Unexpected end of input");
            },
            ParserError::UnexpectedToken { expected, actual } => {
                text.append("Parser error: Unexpected token ");
                text.append(actual.name());
                match expected {
                    TokenTypeOption::One(kind) => {
                        text.append(", expected ");
                        text.append(kind.name());
                    },
                    TokenTypeOption::Many(kinds) => {
                        text.append(", expected one of ");
                        text.append(kinds_debug_text(kinds).as_str());
                    },
                }
            },
            ParserError::UnexpectedTrailingTokens { found } => {
                text.append("Parser error: Unexpected trailing tokens found ");
                text.append(tokens_debug_text(found).as_str());
            },
        }
        assert(text@ =~= self.deep_view().message());
        text
    }
}

} // verus!
