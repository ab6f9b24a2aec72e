pub mod cmm_ast;
pub mod errors;
pub mod grammar;

use crate::compiler::lexer::tokens::{Token, TokenType};
use cmm_ast::{
    CmmAst, CmmBinaryOperator, CmmExpression, CmmFunction, CmmStatement, CmmUnaryOperator,
};
use errors::{ParserError, TokenTypeOption};
use grammar::{
    binary_operator_kinds, factor_starters, lemma_expression_progress, lemma_factor_progress,
    lemma_parse_consumes_every_token, spec_climb, spec_consume, spec_expect, spec_expect_all,
    spec_parse_ast, spec_parse_binary_operator, spec_parse_constant_integer_factor,
    spec_parse_expression, spec_parse_factor, spec_parse_function, spec_parse_identifier,
    spec_parse_parenthesized_expression, spec_parse_statement, spec_parse_unary_factor,
    spec_parse_unary_operator, spec_peek, unary_operator_kinds, Step,
};
use vstd::prelude::*;

verus! {

/// Whether what a method of the parser returned, and where it left the parser, is what the
/// grammar says of the step.
pub open spec fn agrees<T>(result: Result<T, ParserError>, position: usize, step: Step<T>) -> bool {
    &&& position == step.position
    &&& match step.outcome {
        Ok(value) => result == Ok::<T, ParserError>(value),
        Err(error) => result is Err && result->Err_0.deep_view() == error,
    }
}

/// The same as [`agrees`], for a result that is compared by its mathematical value.
pub open spec fn agrees_in_value<T: DeepView>(
    result: Result<T, ParserError>,
    position: usize,
    step: Step<T::V>,
) -> bool {
    &&& position == step.position
    &&& match step.outcome {
        Ok(value) => result is Ok && result->Ok_0.deep_view() == value,
        Err(error) => result is Err && result->Err_0.deep_view() == error,
    }
}

/// A parser over a sequence of tokens: the tokens and the position of the next one.
pub struct Parser {
    pub tokens: Vec<Token>,
    pub position: usize,
}

impl Parser {
    /// Creates a parser that stands before the first token.
    pub fn new(tokens: Vec<Token>) -> (parser: Self)
        ensures
            parser.tokens == tokens,
            parser.position == 0,
    {
        Self { tokens, position: 0 }
    }

    /// Parses a whole program. Success means that every token was read: tokens that are
    /// left after the function are an error.
    pub fn parse_ast(&mut self) -> (parsed: Result<CmmAst, ParserError>)
        ensures
            final(self).tokens == old(self).tokens,
            agrees_in_value(
                parsed,
                final(self).position,
                spec_parse_ast(old(self).tokens.deep_view(), old(self).position as int),
            ),
            parsed is Ok ==> final(self).position == final(self).tokens.len(),
    {
        proof {
            lemma_parse_consumes_every_token(
                self.tokens.deep_view(),
                self.position as int,
            );
        }
        let function = match self.parse_function() {
            Ok(function) => function,
            Err(error) => {
                return Err(error);
            },
        };
        if self.position < self.tokens.len() {
            let mut found: Vec<Token> = Vec::new();
            let mut index: usize = self.position;
            while index < self.tokens.len()
                invariant
                    self.position <= index <= self.tokens.len(),
                    found@ =~= self.tokens@.subrange(self.position as int, index as int),
                decreases self.tokens.len() - index,
            {
                found.push(self.tokens[index].clone());
                index += 1;
            }
            assert(found.deep_view() =~= self.tokens.deep_view().subrange(
                self.position as int,
                self.tokens.len() as int,
            ));
            return Err(ParserError::UnexpectedTrailingTokens { found });
        }
        Ok(CmmAst::Program { function })
    }

    /// Parses a function: `int`, a name, `(void)`, and a statement between braces.
    pub fn parse_function(&mut self) -> (parsed: Result<CmmFunction, ParserError>)
        ensures
            final(self).tokens == old(self).tokens,
            agrees_in_value(
                parsed,
                final(self).position,
                spec_parse_function(old(self).tokens.deep_view(), old(self).position as int),
            ),
    {
        match self.expect_token(TokenType::IntKeyword) {
            Ok(_) => {},
            Err(error) => {
                return Err(error);
            },
        }
        let identifier = match self.parse_identifier() {
            Ok(identifier) => identifier,
            Err(error) => {
                return Err(error);
            },
        };
        proof {
            reveal_with_fuel(spec_expect_all, 5);
        }
        match self.expect_token(TokenType::OpenParen) {
            Ok(_) => {},
            Err(error) => {
                return Err(error);
            },
        }
        match self.expect_token(TokenType::VoidKeyword) {
            Ok(_) => {},
            Err(error) => {
                return Err(error);
            },
        }
        match self.expect_token(TokenType::CloseParen) {
            Ok(_) => {},
            Err(error) => {
                return Err(error);
            },
        }
        match self.expect_token(TokenType::OpenBrace) {
            Ok(_) => {},
            Err(error) => {
                return Err(error);
            },
        }
        let statement = match self.parse_statement() {
            Ok(statement) => statement,
            Err(error) => {
                return Err(error);
            },
        };
        match self.expect_token(TokenType::CloseBrace) {
            Ok(_) => {},
            Err(error) => {
                return Err(error);
            },
        }
        Ok(CmmFunction::Function { identifier, body: statement })
    }

    /// Parses a statement: `return`, an expression, a semicolon.
    pub fn parse_statement(&mut self) -> (parsed: Result<CmmStatement, ParserError>)
        ensures
            final(self).tokens == old(self).tokens,
            agrees(
                parsed,
                final(self).position,
                spec_parse_statement(old(self).tokens.deep_view(), old(self).position as int),
            ),
    {
        match self.expect_token(TokenType::ReturnKeyword) {
            Ok(_) => {},
            Err(error) => {
                return Err(error);
            },
        }
        let expression = match self.parse_expression(0) {
            Ok(expression) => expression,
            Err(error) => {
                return Err(error);
            },
        };
        match self.expect_token(TokenType::Semicolon) {
            Ok(_) => {},
            Err(error) => {
                return Err(error);
            },
        }
        Ok(CmmStatement::Return { expression })
    }

    /// Takes an identifier and returns its name.
    pub fn parse_identifier(&mut self) -> (parsed: Result<String, ParserError>)
        ensures
            final(self).tokens == old(self).tokens,
            agrees_in_value(
                parsed,
                final(self).position,
                spec_parse_identifier(old(self).tokens.deep_view(), old(self).position as int),
            ),
    {
        let token = match self.consume_token() {
            Ok(token) => token,
            Err(error) => {
                return Err(error);
            },
        };
        match token {
            Token::Identifier(identifier) => Ok(identifier),
            _ => Err(
                ParserError::UnexpectedToken {
                    expected: TokenTypeOption::One(TokenType::Identifier),
                    actual: token.kind(),
                },
            ),
        }
    }

    /// Parses an expression by precedence climbing: a factor, then every binary operator
    /// that binds at least as tightly as `min_precedence`, each with the expression of the
    /// tighter operators as its right operand.
    pub fn parse_expression(&mut self, min_precedence: u32) -> (parsed: Result<
        CmmExpression,
        ParserError,
    >)
        ensures
            final(self).tokens == old(self).tokens,
            agrees(
                parsed,
                final(self).position,
                spec_parse_expression(
                    old(self).tokens.deep_view(),
                    old(self).position as int,
                    min_precedence as nat,
                ),
            ),
        decreases old(self).tokens.len() - old(self).position, 3nat,
    {
        let ghost tokens = self.tokens.deep_view();
        let ghost start = self.position as int;
        proof {
            lemma_factor_progress(tokens, start);
        }
        let mut left = match self.parse_factor() {
            Ok(left) => left,
            Err(error) => {
                return Err(error);
            },
        };
        let mut next_token = match self.peek_token() {
            Ok(token) => token,
            Err(error) => {
                return Err(error);
            },
        };
        let mut climbing = true;
        while climbing
            invariant
                self.tokens == old(self).tokens,
                tokens == self.tokens.deep_view(),
                tokens.len() == self.tokens.len(),
                start == old(self).position,
                start < self.position < tokens.len(),
                next_token.deep_view() == tokens[self.position as int],
                spec_parse_expression(tokens, start, min_precedence as nat) == spec_climb(
                    tokens,
                    self.position as int,
                    left,
                    min_precedence as nat,
                ),
                !climbing ==> spec_climb(tokens, self.position as int, left, min_precedence as nat)
                    == grammar::read(left, self.position as int),
            decreases tokens.len() - self.position, (if climbing { 1nat } else { 0nat }),
        {
            let precedence = match next_token.get_binary_operator_precedence() {
                Ok(precedence) => precedence,
                Err(_) => {
                    climbing = false;
                    continue ;
                },
            };
            if precedence < min_precedence {
                climbing = false;
                continue ;
            }
            let ghost at_operator = self.position as int;
            let operator = match self.parse_binary_operator() {
                Ok(operator) => operator,
                Err(error) => {
                    return Err(error);
                },
            };
            proof {
                lemma_expression_progress(tokens, at_operator + 1, (precedence + 1) as nat);
            }
            let right = match self.parse_expression(precedence + 1) {
                Ok(right) => right,
                Err(error) => {
                    return Err(error);
                },
            };
            left = CmmExpression::Binary { operator, left: Box::new(left), right: Box::new(right) };
            next_token = match self.peek_token() {
                Ok(token) => token,
                Err(error) => {
                    return Err(error);
                },
            };
        }
        Ok(left)
    }

    /// Parses a factor: an integer constant, a unary operator before a factor, or an
    /// expression in parentheses.
    pub fn parse_factor(&mut self) -> (parsed: Result<CmmExpression, ParserError>)
        ensures
            final(self).tokens == old(self).tokens,
            agrees(
                parsed,
                final(self).position,
                spec_parse_factor(old(self).tokens.deep_view(), old(self).position as int),
            ),
        decreases old(self).tokens.len() - old(self).position, 2nat,
    {
        let token = match self.peek_token() {
            Ok(token) => token,
            Err(error) => {
                return Err(error);
            },
        };
        match token {
            Token::Constant(_) => self.parse_constant_integer_factor(),
            Token::Hyphen | Token::Tilde | Token::ExclamationMark => self.parse_unary_factor(),
            Token::OpenParen => self.parse_parenthesized_expression(),
            _ => {
                let mut expected: Vec<TokenType> = Vec::new();
                expected.push(TokenType::Constant);
                expected.push(TokenType::Hyphen);
                expected.push(TokenType::Tilde);
                expected.push(TokenType::OpenParen);
                assert(expected@ =~= factor_starters());
                Err(
                    ParserError::UnexpectedToken {
                        expected: TokenTypeOption::Many(expected),
                        actual: token.kind(),
                    },
                )
            },
        }
    }

    /// Takes an integer constant.
    pub fn parse_constant_integer_factor(&mut self) -> (parsed: Result<
        CmmExpression,
        ParserError,
    >)
        ensures
            final(self).tokens == old(self).tokens,
            agrees(
                parsed,
                final(self).position,
                spec_parse_constant_integer_factor(
                    old(self).tokens.deep_view(),
                    old(self).position as int,
                ),
            ),
    {
        let token = match self.consume_token() {
            Ok(token) => token,
            Err(error) => {
                return Err(error);
            },
        };
        match token {
            Token::Constant(value) => Ok(CmmExpression::IntegerConstant { value }),
            _ => Err(
                ParserError::UnexpectedToken {
                    expected: TokenTypeOption::One(TokenType::Constant),
                    actual: token.kind(),
                },
            ),
        }
    }

    /// Parses a unary operator and the factor it applies to.
    pub fn parse_unary_factor(&mut self) -> (parsed: Result<CmmExpression, ParserError>)
        ensures
            final(self).tokens == old(self).tokens,
            agrees(
                parsed,
                final(self).position,
                spec_parse_unary_factor(old(self).tokens.deep_view(), old(self).position as int),
            ),
        decreases old(self).tokens.len() - old(self).position, 1nat,
    {
        let operator = match self.parse_unary_operator() {
            Ok(operator) => operator,
            Err(error) => {
                return Err(error);
            },
        };
        let inner_factor = match self.parse_factor() {
            Ok(factor) => factor,
            Err(error) => {
                return Err(error);
            },
        };
        Ok(CmmExpression::Unary { operator, expression: Box::new(inner_factor) })
    }

    /// Takes a unary operator.
    pub fn parse_unary_operator(&mut self) -> (parsed: Result<CmmUnaryOperator, ParserError>)
        ensures
            final(self).tokens == old(self).tokens,
            agrees(
                parsed,
                final(self).position,
                spec_parse_unary_operator(old(self).tokens.deep_view(), old(self).position as int),
            ),
    {
        let token = match self.consume_token() {
            Ok(token) => token,
            Err(error) => {
                return Err(error);
            },
        };
        match token {
            Token::Hyphen => Ok(CmmUnaryOperator::Negate),
            Token::Tilde => Ok(CmmUnaryOperator::Complement),
            Token::ExclamationMark => Ok(CmmUnaryOperator::Not),
            _ => {
                let mut expected: Vec<TokenType> = Vec::new();
                expected.push(TokenType::Hyphen);
                expected.push(TokenType::Tilde);
                expected.push(TokenType::ExclamationMark);
                assert(expected@ =~= unary_operator_kinds());
                Err(
                    ParserError::UnexpectedToken {
                        expected: TokenTypeOption::Many(expected),
                        actual: token.kind(),
                    },
                )
            },
        }
    }

    /// Takes a binary operator.
    pub fn parse_binary_operator(&mut self) -> (parsed: Result<CmmBinaryOperator, ParserError>)
        ensures
            final(self).tokens == old(self).tokens,
            agrees(
                parsed,
                final(self).position,
                spec_parse_binary_operator(old(self).tokens.deep_view(), old(self).position as int),
            ),
    {
        let token = match self.consume_token() {
            Ok(token) => token,
            Err(error) => {
                return Err(error);
            },
        };
        match token {
            Token::Plus => Ok(CmmBinaryOperator::Add),
            Token::Hyphen => Ok(CmmBinaryOperator::Subtract),
            Token::Asterisk => Ok(CmmBinaryOperator::Multiply),
            Token::ForwardSlash => Ok(CmmBinaryOperator::Divide),
            Token::Percent => Ok(CmmBinaryOperator::Remainder),
            Token::DoubleAmpersand => Ok(CmmBinaryOperator::And),
            Token::DoublePipe => Ok(CmmBinaryOperator::Or),
            Token::DoubleEqual => Ok(CmmBinaryOperator::Equal),
            Token::ExclamationEqual => Ok(CmmBinaryOperator::NotEqual),
            Token::LessThan => Ok(CmmBinaryOperator::LessThan),
            Token::GreaterThan => Ok(CmmBinaryOperator::GreaterThan),
            Token::LessThanEqual => Ok(CmmBinaryOperator::LessThanEqual),
            Token::GreaterThanEqual => Ok(CmmBinaryOperator::GreaterThanEqual),
            _ => {
                let mut expected: Vec<TokenType> = Vec::new();
                expected.push(TokenType::Plus);
                expected.push(TokenType::Hyphen);
                expected.push(TokenType::Asterisk);
                expected.push(TokenType::ForwardSlash);
                expected.push(TokenType::Percent);
                expected.push(TokenType::DoubleAmpersand);
                expected.push(TokenType::DoublePipe);
                expected.push(TokenType::DoubleEqual);
                expected.push(TokenType::ExclamationEqual);
                expected.push(TokenType::LessThan);
                expected.push(TokenType::GreaterThan);
                expected.push(TokenType::LessThanEqual);
                expected.push(TokenType::GreaterThanEqual);
                assert(expected@ =~= binary_operator_kinds());
                Err(
                    ParserError::UnexpectedToken {
                        expected: TokenTypeOption::Many(expected),
                        actual: token.kind(),
                    },
                )
            },
        }
    }

    /// Parses an expression between parentheses.
    pub fn parse_parenthesized_expression(&mut self) -> (parsed: Result<
        CmmExpression,
        ParserError,
    >)
        ensures
            final(self).tokens == old(self).tokens,
            agrees(
                parsed,
                final(self).position,
                spec_parse_parenthesized_expression(
                    old(self).tokens.deep_view(),
                    old(self).position as int,
                ),
            ),
        decreases old(self).tokens.len() - old(self).position, 1nat,
    {
        match self.expect_token(TokenType::OpenParen) {
            Ok(_) => {},
            Err(error) => {
                return Err(error);
            },
        }
        let expression = match self.parse_expression(0) {
            Ok(expression) => expression,
            Err(error) => {
                return Err(error);
            },
        };
        match self.expect_token(TokenType::CloseParen) {
            Ok(_) => {},
            Err(error) => {
                return Err(error);
            },
        }
        Ok(expression)
    }

    /// Takes the next token and checks its kind. A token of another kind is passed and
    /// reported.
    pub fn expect_token(&mut self, expected_type: TokenType) -> (taken: Result<(), ParserError>)
        ensures
            final(self).tokens == old(self).tokens,
            agrees(
                taken,
                final(self).position,
                spec_expect(old(self).tokens.deep_view(), old(self).position as int, expected_type),
            ),
    {
        let actual = match self.consume_token() {
            Ok(token) => token,
            Err(error) => {
                return Err(error);
            },
        };
        let actual_type = actual.kind();
        if actual_type != expected_type {
            return Err(
                ParserError::UnexpectedToken {
                    expected: TokenTypeOption::One(expected_type),
                    actual: actual_type,
                },
            );
        }
        Ok(())
    }

    /// Takes the next token and passes it.
    pub fn consume_token(&mut self) -> (taken: Result<Token, ParserError>)
        ensures
            final(self).tokens == old(self).tokens,
            agrees_in_value(
                taken,
                final(self).position,
                spec_consume(old(self).tokens.deep_view(), old(self).position as int),
            ),
    {
        if self.position >= self.tokens.len() {
            return Err(ParserError::UnexpectedEndOfInput);
        }
        let token = self.tokens[self.position].clone();
        self.position += 1;
        Ok(token)
    }

    /// Returns the next token without passing it.
    pub fn peek_token(&self) -> (seen: Result<Token, ParserError>)
        ensures
            agrees_in_value(
                seen,
                self.position,
                spec_peek(self.tokens.deep_view(), self.position as int),
            ),
    {
        if self.position >= self.tokens.len() {
            return Err(ParserError::UnexpectedEndOfInput);
        }
        Ok(self.tokens[self.position].clone())
    }
}

} // verus!
