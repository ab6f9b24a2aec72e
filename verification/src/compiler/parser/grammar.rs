use crate::compiler::lexer::tokens::{TokenType, TokenView};
use crate::compiler::parser::cmm_ast::{
    CmmAstView, CmmBinaryOperator, CmmExpression, CmmFunctionView, CmmStatement, CmmUnaryOperator,
};
use crate::compiler::parser::errors::{ParserErrorView, TokenTypeOptionView};
use vstd::prelude::*;

verus! {

/// What one step of the parser leaves: the value it read or the error it met, and the
/// position of the next token.
pub struct Step<T> {
    pub outcome: Result<T, ParserErrorView>,
    pub position: int,
}

/// The step that read `value` and stands at `position`.
pub open spec fn read<T>(value: T, position: int) -> Step<T> {
    Step { outcome: Ok(value), position }
}

/// The step that met `error` and stands at `position`.
pub open spec fn failed<T>(error: ParserErrorView, position: int) -> Step<T> {
    Step { outcome: Err(error), position }
}

/// The kinds of token that can start a factor, as the error of a factor names them.
pub open spec fn factor_starters() -> Seq<TokenType> {
    seq![TokenType::Constant, TokenType::Hyphen, TokenType::Tilde, TokenType::OpenParen]
}

/// The kinds of token that are unary operators.
pub open spec fn unary_operator_kinds() -> Seq<TokenType> {
    seq![TokenType::Hyphen, TokenType::Tilde, TokenType::ExclamationMark]
}

/// The kinds of token that are binary operators.
pub open spec fn binary_operator_kinds() -> Seq<TokenType> {
    seq![
        TokenType::Plus,
        TokenType::Hyphen,
        TokenType::Asterisk,
        TokenType::ForwardSlash,
        TokenType::Percent,
        TokenType::DoubleAmpersand,
        TokenType::DoublePipe,
        TokenType::DoubleEqual,
        TokenType::ExclamationEqual,
        TokenType::LessThan,
        TokenType::GreaterThan,
        TokenType::LessThanEqual,
        TokenType::GreaterThanEqual,
    ]
}

/// The unary operator that a kind of token denotes.
pub open spec fn unary_operator_of(kind: TokenType) -> Option<CmmUnaryOperator> {
    match kind {
        TokenType::Hyphen => Some(CmmUnaryOperator::Negate),
        TokenType::Tilde => Some(CmmUnaryOperator::Complement),
        TokenType::ExclamationMark => Some(CmmUnaryOperator::Not),
        _ => None,
    }
}

/// The binary operator that a kind of token denotes.
pub open spec fn binary_operator_of(kind: TokenType) -> Option<CmmBinaryOperator> {
    match kind {
        TokenType::Plus => Some(CmmBinaryOperator::Add),
        TokenType::Hyphen => Some(CmmBinaryOperator::Subtract),
        TokenType::Asterisk => Some(CmmBinaryOperator::Multiply),
        TokenType::ForwardSlash => Some(CmmBinaryOperator::Divide),
        TokenType::Percent => Some(CmmBinaryOperator::Remainder),
        TokenType::DoubleAmpersand => Some(CmmBinaryOperator::And),
        TokenType::DoublePipe => Some(CmmBinaryOperator::Or),
        TokenType::DoubleEqual => Some(CmmBinaryOperator::Equal),
        TokenType::ExclamationEqual => Some(CmmBinaryOperator::NotEqual),
        TokenType::LessThan => Some(CmmBinaryOperator::LessThan),
        TokenType::GreaterThan => Some(CmmBinaryOperator::GreaterThan),
        TokenType::LessThanEqual => Some(CmmBinaryOperator::LessThanEqual),
        TokenType::GreaterThanEqual => Some(CmmBinaryOperator::GreaterThanEqual),
        _ => None,
    }
}

/// Taking the next token: it is read and passed, or the tokens have run out.
pub open spec fn spec_consume(tokens: Seq<TokenView>, position: int) -> Step<TokenView> {
    if 0 <= position < tokens.len() {
        read(tokens[position], position + 1)
    } else {
        failed(ParserErrorView::UnexpectedEndOfInput, position)
    }
}

/// Looking at the next token without passing it.
pub open spec fn spec_peek(tokens: Seq<TokenView>, position: int) -> Step<TokenView> {
    if 0 <= position < tokens.len() {
        read(tokens[position], position)
    } else {
        failed(ParserErrorView::UnexpectedEndOfInput, position)
    }
}

/// Taking a token of a given kind. A token of another kind is passed and reported.
pub open spec fn spec_expect(tokens: Seq<TokenView>, position: int, expected: TokenType) -> Step<
    (),
> {
    if 0 <= position < tokens.len() {
        if tokens[position].kind() == expected {
            read((), position + 1)
        } else {
            failed(
                ParserErrorView::UnexpectedToken {
                    expected: TokenTypeOptionView::One(expected),
                    actual: tokens[position].kind(),
                },
                position + 1,
            )
        }
    } else {
        failed(ParserErrorView::UnexpectedEndOfInput, position)
    }
}

/// Taking an identifier.
pub open spec fn spec_parse_identifier(tokens: Seq<TokenView>, position: int) -> Step<Seq<char>> {
    if 0 <= position < tokens.len() {
        match tokens[position] {
            TokenView::Identifier(name) => read(name, position + 1),
            _ => failed(
                ParserErrorView::UnexpectedToken {
                    expected: TokenTypeOptionView::One(TokenType::Identifier),
                    actual: tokens[position].kind(),
                },
                position + 1,
            ),
        }
    } else {
        failed(ParserErrorView::UnexpectedEndOfInput, position)
    }
}

/// Taking an integer constant.
pub open spec fn spec_parse_constant_integer_factor(
    tokens: Seq<TokenView>,
    position: int,
) -> Step<CmmExpression> {
    if 0 <= position < tokens.len() {
        match tokens[position] {
            TokenView::Constant(value) => read(
                CmmExpression::IntegerConstant { value },
                position + 1,
            ),
            _ => failed(
                ParserErrorView::UnexpectedToken {
                    expected: TokenTypeOptionView::One(TokenType::Constant),
                    actual: tokens[position].kind(),
                },
                position + 1,
            ),
        }
    } else {
        failed(ParserErrorView::UnexpectedEndOfInput, position)
    }
}

/// Taking a unary operator.
pub open spec fn spec_parse_unary_operator(tokens: Seq<TokenView>, position: int) -> Step<
    CmmUnaryOperator,
> {
    if 0 <= position < tokens.len() {
        match unary_operator_of(tokens[position].kind()) {
            Some(operator) => read(operator, position + 1),
            None => failed(
                ParserErrorView::UnexpectedToken {
                    expected: TokenTypeOptionView::Many(unary_operator_kinds()),
                    actual: tokens[position].kind(),
                },
                position + 1,
            ),
        }
    } else {
        failed(ParserErrorView::UnexpectedEndOfInput, position)
    }
}

/// Taking a binary operator.
pub open spec fn spec_parse_binary_operator(tokens: Seq<TokenView>, position: int) -> Step<
    CmmBinaryOperator,
> {
    if 0 <= position < tokens.len() {
        match binary_operator_of(tokens[position].kind()) {
            Some(operator) => read(operator, position + 1),
            None => failed(
                ParserErrorView::UnexpectedToken {
                    expected: TokenTypeOptionView::Many(binary_operator_kinds()),
                    actual: tokens[position].kind(),
                },
                position + 1,
            ),
        }
    } else {
        failed(ParserErrorView::UnexpectedEndOfInput, position)
    }
}

/// A factor: an integer constant, a unary operator before a factor, or an expression in
/// parentheses.
pub open spec fn spec_parse_factor(tokens: Seq<TokenView>, position: int) -> Step<CmmExpression>
    decreases tokens.len() - position, 2nat,
{
    if 0 <= position < tokens.len() {
        match tokens[position] {
            TokenView::Constant(_) => spec_parse_constant_integer_factor(tokens, position),
            TokenView::Hyphen | TokenView::Tilde | TokenView::ExclamationMark => {
                spec_parse_unary_factor(tokens, position)
            },
            TokenView::OpenParen => spec_parse_parenthesized_expression(tokens, position),
            _ => failed(
                ParserErrorView::UnexpectedToken {
                    expected: TokenTypeOptionView::Many(factor_starters()),
                    actual: tokens[position].kind(),
                },
                position,
            ),
        }
    } else {
        failed(ParserErrorView::UnexpectedEndOfInput, position)
    }
}

/// A unary operator and the factor it applies to.
pub open spec fn spec_parse_unary_factor(tokens: Seq<TokenView>, position: int) -> Step<
    CmmExpression,
>
    decreases tokens.len() - position, 1nat,
{
    let operator = spec_parse_unary_operator(tokens, position);
    match operator.outcome {
        Ok(operator) => {
            if 0 <= position < tokens.len() {
                let inner = spec_parse_factor(tokens, position + 1);
                match inner.outcome {
                    Ok(expression) => read(
                        CmmExpression::Unary { operator, expression: Box::new(expression) },
                        inner.position,
                    ),
                    Err(error) => failed(error, inner.position),
                }
            } else {
                failed(ParserErrorView::UnexpectedEndOfInput, position)
            }
        },
        Err(error) => failed(error, operator.position),
    }
}

/// An expression between parentheses.
pub open spec fn spec_parse_parenthesized_expression(
    tokens: Seq<TokenView>,
    position: int,
) -> Step<CmmExpression>
    decreases tokens.len() - position, 1nat,
{
    let open = spec_expect(tokens, position, TokenType::OpenParen);
    match open.outcome {
        Ok(_) => {
            if 0 <= position < tokens.len() {
                let inner = spec_parse_expression(tokens, position + 1, 0);
                match inner.outcome {
                    Ok(expression) => {
                        let close = spec_expect(tokens, inner.position, TokenType::CloseParen);
                        match close.outcome {
                            Ok(_) => read(expression, close.position),
                            Err(error) => failed(error, close.position),
                        }
                    },
                    Err(error) => failed(error, inner.position),
                }
            } else {
                failed(ParserErrorView::UnexpectedEndOfInput, position)
            }
        },
        Err(error) => failed(error, open.position),
    }
}

/// An expression whose binary operators all bind at least as tightly as `min_precedence`:
/// a factor, then as many operators with their right operands as follow.
pub open spec fn spec_parse_expression(
    tokens: Seq<TokenView>,
    position: int,
    min_precedence: nat,
) -> Step<CmmExpression>
    decreases tokens.len() - position, 3nat,
{
    let factor = spec_parse_factor(tokens, position);
    match factor.outcome {
        Ok(left) => {
            if position < factor.position <= tokens.len() {
                spec_climb(tokens, factor.position, left, min_precedence)
            } else {
                failed(ParserErrorView::UnexpectedEndOfInput, position)
            }
        },
        Err(error) => failed(error, factor.position),
    }
}

/// The rest of an expression once its left operand `left` has been read. A binary
/// operator that binds at least as tightly as `min_precedence` takes as its right operand
/// the expression of the operators that bind tighter than itself, which makes every
/// operator associate to the left. Any other token ends the expression. The end of the
/// tokens is an error: an expression is always followed by a token.
pub open spec fn spec_climb(
    tokens: Seq<TokenView>,
    position: int,
    left: CmmExpression,
    min_precedence: nat,
) -> Step<CmmExpression>
    decreases tokens.len() - position, 0nat,
{
    if 0 <= position < tokens.len() {
        match tokens[position].kind().binary_precedence() {
            Some(precedence) => {
                if precedence >= min_precedence {
                    let operator = binary_operator_of(tokens[position].kind()).unwrap();
                    let operand = spec_parse_expression(
                        tokens,
                        position + 1,
                        (precedence + 1) as nat,
                    );
                    match operand.outcome {
                        Ok(right) => {
                            if position < operand.position <= tokens.len() {
                                spec_climb(
                                    tokens,
                                    operand.position,
                                    CmmExpression::Binary {
                                        operator,
                                        left: Box::new(left),
                                        right: Box::new(right),
                                    },
                                    min_precedence,
                                )
                            } else {
                                failed(ParserErrorView::UnexpectedEndOfInput, position)
                            }
                        },
                        Err(error) => failed(error, operand.position),
                    }
                } else {
                    read(left, position)
                }
            },
            None => read(left, position),
        }
    } else {
        failed(ParserErrorView::UnexpectedEndOfInput, position)
    }
}

/// A statement: `return`, an expression, a semicolon.
pub open spec fn spec_parse_statement(tokens: Seq<TokenView>, position: int) -> Step<
    CmmStatement,
> {
    let keyword = spec_expect(tokens, position, TokenType::ReturnKeyword);
    match keyword.outcome {
        Ok(_) => {
            let value = spec_parse_expression(tokens, keyword.position, 0);
            match value.outcome {
                Ok(expression) => {
                    let end = spec_expect(tokens, value.position, TokenType::Semicolon);
                    match end.outcome {
                        Ok(_) => read(CmmStatement::Return { expression }, end.position),
                        Err(error) => failed(error, end.position),
                    }
                },
                Err(error) => failed(error, value.position),
            }
        },
        Err(error) => failed(error, keyword.position),
    }
}

/// The kinds of token that stand between the name of a function and its statement.
pub open spec fn function_header() -> Seq<TokenType> {
    seq![
        TokenType::OpenParen,
        TokenType::VoidKeyword,
        TokenType::CloseParen,
        TokenType::OpenBrace,
    ]
}

/// Taking the tokens of the given kinds, one after the other, from the `done`-th on.
pub open spec fn spec_expect_all(
    tokens: Seq<TokenView>,
    position: int,
    kinds: Seq<TokenType>,
    done: int,
) -> Step<()>
    decreases kinds.len() - done,
{
    if 0 <= done < kinds.len() {
        let first = spec_expect(tokens, position, kinds[done]);
        match first.outcome {
            Ok(_) => spec_expect_all(tokens, first.position, kinds, done + 1),
            Err(error) => failed(error, first.position),
        }
    } else {
        read((), position)
    }
}

/// A function: `int`, its name, `(void)`, and one statement between braces.
pub open spec fn spec_parse_function(tokens: Seq<TokenView>, position: int) -> Step<
    CmmFunctionView,
> {
    let keyword = spec_expect(tokens, position, TokenType::IntKeyword);
    match keyword.outcome {
        Ok(_) => {
            let name = spec_parse_identifier(tokens, keyword.position);
            match name.outcome {
                Ok(identifier) => {
                    let header = spec_expect_all(tokens, name.position, function_header(), 0);
                    match header.outcome {
                        Ok(_) => {
                            let statement = spec_parse_statement(tokens, header.position);
                            match statement.outcome {
                                Ok(body) => {
                                    let close = spec_expect(
                                        tokens,
                                        statement.position,
                                        TokenType::CloseBrace,
                                    );
                                    match close.outcome {
                                        Ok(_) => read(
                                            CmmFunctionView { identifier, body },
                                            close.position,
                                        ),
                                        Err(error) => failed(error, close.position),
                                    }
                                },
                                Err(error) => failed(error, statement.position),
                            }
                        },
                        Err(error) => failed(error, header.position),
                    }
                },
                Err(error) => failed(error, name.position),
            }
        },
        Err(error) => failed(error, keyword.position),
    }
}

/// A program: one function and nothing after it.
pub open spec fn spec_parse_ast(tokens: Seq<TokenView>, position: int) -> Step<CmmAstView> {
    let parsed = spec_parse_function(tokens, position);
    match parsed.outcome {
        Ok(function) => {
            if parsed.position < tokens.len() {
                failed(
                    ParserErrorView::UnexpectedTrailingTokens {
                        found: tokens.subrange(parsed.position, tokens.len() as int),
                    },
                    parsed.position,
                )
            } else {
                read(CmmAstView { function }, parsed.position)
            }
        },
        Err(error) => failed(error, parsed.position),
    }
}

/// Every expression that is read takes at least one token for each of its operators and
/// operands, and ends before the last token. So the tests on the position in the grammar
/// above never fail.
pub proof fn lemma_expression_progress(tokens: Seq<TokenView>, position: int, min_precedence: nat)
    requires
        0 <= position,
    ensures
        spec_parse_factor(tokens, position).outcome matches Ok(e) ==> position
            < spec_parse_factor(tokens, position).position <= tokens.len()
            && e.least_token_count() <= spec_parse_factor(tokens, position).position - position,
        spec_parse_expression(tokens, position, min_precedence).outcome matches Ok(e) ==> position
            < spec_parse_expression(tokens, position, min_precedence).position < tokens.len()
            && e.least_token_count() <= spec_parse_expression(
            tokens,
            position,
            min_precedence,
        ).position - position,
    decreases tokens.len() - position, 3nat,
{
    lemma_factor_progress(tokens, position);
    let factor = spec_parse_factor(tokens, position);
    if factor.outcome is Ok {
        lemma_climb_progress(tokens, factor.position, factor.outcome->Ok_0, min_precedence);
    }
}

/// The part of `lemma_expression_progress` that speaks of a factor.
pub proof fn lemma_factor_progress(tokens: Seq<TokenView>, position: int)
    requires
        0 <= position,
    ensures
        spec_parse_factor(tokens, position).outcome matches Ok(e) ==> position
            < spec_parse_factor(tokens, position).position <= tokens.len()
            && e.least_token_count() <= spec_parse_factor(tokens, position).position - position,
    decreases tokens.len() - position, 2nat,
{
    if position < tokens.len() {
        match tokens[position] {
            TokenView::Hyphen | TokenView::Tilde | TokenView::ExclamationMark => {
                lemma_factor_progress(tokens, position + 1);
            },
            TokenView::OpenParen => {
                lemma_expression_progress(tokens, position + 1, 0);
            },
            _ => {},
        }
    }
}

/// The rest of an expression ends before the last token, and takes at least one token for
/// each operator and operand that it adds.
pub proof fn lemma_climb_progress(
    tokens: Seq<TokenView>,
    position: int,
    left: CmmExpression,
    min_precedence: nat,
)
    requires
        0 <= position,
    ensures
        spec_climb(tokens, position, left, min_precedence).outcome matches Ok(e) ==> position
            <= spec_climb(tokens, position, left, min_precedence).position < tokens.len()
            && e.least_token_count() <= left.least_token_count() + spec_climb(
            tokens,
            position,
            left,
            min_precedence,
        ).position - position,
    decreases tokens.len() - position, 0nat,
{
    if position < tokens.len() {
        match tokens[position].kind().binary_precedence() {
            Some(precedence) => {
                if precedence >= min_precedence {
                    lemma_expression_progress(tokens, position + 1, (precedence + 1) as nat);
                    let operand = spec_parse_expression(
                        tokens,
                        position + 1,
                        (precedence + 1) as nat,
                    );
                    if operand.outcome is Ok {
                        let operator = binary_operator_of(tokens[position].kind()).unwrap();
                        lemma_climb_progress(
                            tokens,
                            operand.position,
                            CmmExpression::Binary {
                                operator,
                                left: Box::new(left),
                                right: Box::new(operand.outcome->Ok_0),
                            },
                            min_precedence,
                        );
                    }
                }
            },
            None => {},
        }
    }
}

/// A program that is read holds fewer operators and operands than there are tokens.
pub proof fn lemma_program_size(tokens: Seq<TokenView>)
    ensures
        spec_parse_ast(tokens, 0).outcome matches Ok(program)
            ==> program.function.body->expression.least_token_count() < tokens.len(),
{
    reveal_with_fuel(spec_expect_all, 5);
    let keyword = spec_expect(tokens, 0, TokenType::IntKeyword);
    let name = spec_parse_identifier(tokens, keyword.position);
    let header = spec_expect_all(tokens, name.position, function_header(), 0);
    let returning = spec_expect(tokens, header.position, TokenType::ReturnKeyword);
    if spec_parse_ast(tokens, 0).outcome is Ok {
        lemma_expression_progress(tokens, returning.position, 0);
    }
}

/// A program that is read leaves no token: the parser stands behind the last one.
pub proof fn lemma_parse_consumes_every_token(tokens: Seq<TokenView>, position: int)
    requires
        0 <= position,
    ensures
        spec_parse_ast(tokens, position).outcome is Ok ==> spec_parse_ast(
            tokens,
            position,
        ).position == tokens.len(),
{
}

} // verus!
