use crate::common::text::{decimal_value, is_digit};
use crate::compiler::lexer::errors::LexerErrorView;
use crate::compiler::lexer::tokens::TokenView;
use vstd::prelude::*;

verus! {

/// The white space of ASCII: space, tab, line feed, form feed, carriage return.
pub open spec fn is_whitespace(character: char) -> bool {
    character == ' ' || character == '\t' || character == '\n' || character == '\x0C'
        || character == '\r'
}

/// Whether a character can start an identifier: a letter of ASCII or an underscore.
pub open spec fn is_identifier_start(character: char) -> bool {
    ('a' <= character <= 'z') || ('A' <= character <= 'Z') || character == '_'
}

/// Whether a character can stand in a word: a letter or a digit of ASCII or an underscore.
pub open spec fn is_word_character(character: char) -> bool {
    is_identifier_start(character) || is_digit(character)
}

/// The end of the longest run of white space that starts at `from`.
pub open spec fn whitespace_run(text: Seq<char>, from: int) -> int
    decreases text.len() - from,
{
    if 0 <= from < text.len() && is_whitespace(text[from]) {
        whitespace_run(text, from + 1)
    } else {
        from
    }
}

/// The end of the longest run of word characters that starts at `from`.
pub open spec fn word_run(text: Seq<char>, from: int) -> int
    decreases text.len() - from,
{
    if 0 <= from < text.len() && is_word_character(text[from]) {
        word_run(text, from + 1)
    } else {
        from
    }
}

/// The end of the longest run of digits that starts at `from`.
pub open spec fn digit_run(text: Seq<char>, from: int) -> int
    decreases text.len() - from,
{
    if 0 <= from < text.len() && is_digit(text[from]) {
        digit_run(text, from + 1)
    } else {
        from
    }
}

/// Where the word at the start of the text ends: the text starts with a letter or an
/// underscore, and the word is the longest run of word characters. `None` where the text
/// starts otherwise.
pub open spec fn identifier_end(text: Seq<char>) -> Option<int> {
    if text.len() > 0 && is_identifier_start(text[0]) {
        Some(word_run(text, 0))
    } else {
        None
    }
}

/// Where the number at the start of the text ends: the text starts with a digit, the
/// number is the longest run of digits, and no word character follows it. `None` where the
/// text starts otherwise.
pub open spec fn constant_end(text: Seq<char>) -> Option<int> {
    if text.len() > 0 && is_digit(text[0]) {
        let end = digit_run(text, 0);
        if end < text.len() && is_word_character(text[end]) {
            None
        } else {
            Some(end)
        }
    } else {
        None
    }
}

/// The token of a word: a keyword where the word is one, else an identifier.
pub open spec fn word_token(word: Seq<char>) -> TokenView {
    if word == "int"@ {
        TokenView::IntKeyword
    } else if word == "void"@ {
        TokenView::VoidKeyword
    } else if word == "return"@ {
        TokenView::ReturnKeyword
    } else {
        TokenView::Identifier(word)
    }
}

/// The token that two characters spell together.
pub open spec fn two_character_token(first: char, second: char) -> Option<TokenView> {
    if first == '-' && second == '-' {
        Some(TokenView::DoubleHyphen)
    } else if first == '&' && second == '&' {
        Some(TokenView::DoubleAmpersand)
    } else if first == '|' && second == '|' {
        Some(TokenView::DoublePipe)
    } else if first == '=' && second == '=' {
        Some(TokenView::DoubleEqual)
    } else if first == '!' && second == '=' {
        Some(TokenView::ExclamationEqual)
    } else if first == '<' && second == '=' {
        Some(TokenView::LessThanEqual)
    } else if first == '>' && second == '=' {
        Some(TokenView::GreaterThanEqual)
    } else {
        None
    }
}

/// The token that one character spells.
pub open spec fn one_character_token(character: char) -> Option<TokenView> {
    if character == '-' {
        Some(TokenView::Hyphen)
    } else if character == '~' {
        Some(TokenView::Tilde)
    } else if character == '(' {
        Some(TokenView::OpenParen)
    } else if character == ')' {
        Some(TokenView::CloseParen)
    } else if character == '{' {
        Some(TokenView::OpenBrace)
    } else if character == '}' {
        Some(TokenView::CloseBrace)
    } else if character == ';' {
        Some(TokenView::Semicolon)
    } else if character == '+' {
        Some(TokenView::Plus)
    } else if character == '*' {
        Some(TokenView::Asterisk)
    } else if character == '/' {
        Some(TokenView::ForwardSlash)
    } else if character == '%' {
        Some(TokenView::Percent)
    } else if character == '!' {
        Some(TokenView::ExclamationMark)
    } else if character == '<' {
        Some(TokenView::LessThan)
    } else if character == '>' {
        Some(TokenView::GreaterThan)
    } else {
        None
    }
}

/// What is left of `text` after its first `taken` characters.
pub open spec fn rest_after(text: Seq<char>, taken: int) -> Seq<char> {
    text.subrange(taken, text.len() as int)
}

/// One token read from the start of a text: what is left, and the token.
pub type Lexeme = Result<(Seq<char>, TokenView), LexerErrorView>;

/// The identifier or keyword at the start of the text.
pub open spec fn spec_parse_identifier_or_keyword(text: Seq<char>) -> Lexeme {
    match identifier_end(text) {
        Some(end) => Ok((rest_after(text, end), word_token(text.subrange(0, end)))),
        None => Err(LexerErrorView::NonmatchingPattern { found: text }),
    }
}

/// The integer constant at the start of the text. A number that does not fit 32 bits is an
/// invalid constant.
pub open spec fn spec_parse_constant(text: Seq<char>) -> Lexeme {
    match constant_end(text) {
        Some(end) => {
            let digits = text.subrange(0, end);
            if decimal_value(digits) <= i32::MAX {
                Ok((rest_after(text, end), TokenView::Constant(decimal_value(digits) as i32)))
            } else {
                Err(LexerErrorView::InvalidConstant { found: digits })
            }
        },
        None => Err(LexerErrorView::NonmatchingPattern { found: text }),
    }
}

/// The punctuation at the start of the text. Two characters that spell a token together
/// are read as that token, not as two.
pub open spec fn spec_parse_punctuation(text: Seq<char>) -> Lexeme {
    if text.len() >= 2 && two_character_token(text[0], text[1]) is Some {
        Ok((rest_after(text, 2), two_character_token(text[0], text[1]).unwrap()))
    } else if text.len() >= 1 && one_character_token(text[0]) is Some {
        Ok((rest_after(text, 1), one_character_token(text[0]).unwrap()))
    } else {
        Err(LexerErrorView::NonmatchingPattern { found: text })
    }
}

/// The token at the start of a text that is not empty and does not start with white
/// space, where `offset` characters of the source stand before the text. A word is tried
/// first, then a number, then punctuation. A number that does not fit 32 bits ends the
/// lexing, and so does a character that starts none of the three.
pub open spec fn spec_next_token(text: Seq<char>, offset: int) -> Lexeme {
    match spec_parse_identifier_or_keyword(text) {
        Ok(lexeme) => Ok(lexeme),
        Err(_) => match spec_parse_constant(text) {
            Ok(lexeme) => Ok(lexeme),
            Err(LexerErrorView::InvalidConstant { found }) => Err(
                LexerErrorView::InvalidConstant { found },
            ),
            Err(_) => match spec_parse_punctuation(text) {
                Ok(lexeme) => Ok(lexeme),
                Err(_) => Err(
                    LexerErrorView::UnknownCharacter {
                        found: text[0],
                        byte_offset: offset as usize,
                    },
                ),
            },
        },
    }
}

/// The tokens of `text`, where `total` is the length of the whole source: white space is
/// skipped, a token is read, and so on until nothing is left. A token takes at least one
/// character, so the test on the lengths, which shows that the recursion ends, never
/// fails.
pub open spec fn spec_tokenize_rest(text: Seq<char>, total: int) -> Result<
    Seq<TokenView>,
    LexerErrorView,
>
    decreases text.len(),
{
    let trimmed = rest_after(text, whitespace_run(text, 0));
    if trimmed.len() == 0 {
        Ok(Seq::empty())
    } else {
        match spec_next_token(trimmed, total - trimmed.len()) {
            Ok((rest, token)) => {
                if rest.len() < trimmed.len() <= text.len() {
                    match spec_tokenize_rest(rest, total) {
                        Ok(tokens) => Ok(seq![token] + tokens),
                        Err(error) => Err(error),
                    }
                } else {
                    Ok(Seq::empty())
                }
            },
            Err(error) => Err(error),
        }
    }
}

/// The tokens of a source text.
pub open spec fn spec_tokenize(source: Seq<char>) -> Result<Seq<TokenView>, LexerErrorView> {
    spec_tokenize_rest(source, source.len() as int)
}

/// A run ends within the text, at or after its start.
pub proof fn lemma_runs_end_within(text: Seq<char>, from: int)
    requires
        0 <= from <= text.len(),
    ensures
        from <= whitespace_run(text, from) <= text.len(),
        from <= word_run(text, from) <= text.len(),
        from <= digit_run(text, from) <= text.len(),
        digit_run(text, from) <= word_run(text, from),
        forall|i: int| from <= i < whitespace_run(text, from) ==> is_whitespace(#[trigger] text[i]),
        forall|i: int| from <= i < word_run(text, from) ==> is_word_character(#[trigger] text[i]),
        forall|i: int| from <= i < digit_run(text, from) ==> is_digit(#[trigger] text[i]),
    decreases text.len() - from,
{
    if from < text.len() {
        lemma_runs_end_within(text, from + 1);
    }
}

/// A token that is read takes at least one character of the text: what is left is
/// shorter.
pub proof fn lemma_next_token_progress(text: Seq<char>, offset: int)
    requires
        text.len() > 0,
    ensures
        spec_next_token(text, offset) matches Ok((rest, _)) ==> rest.len() < text.len(),
{
    lemma_runs_end_within(text, 0);
    if is_identifier_start(text[0]) {
        lemma_runs_end_within(text, 1);
    }
    if is_digit(text[0]) {
        lemma_runs_end_within(text, 1);
    }
}

} // verus!
