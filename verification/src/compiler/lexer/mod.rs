pub mod errors;
pub mod grammar;
pub mod laws;
pub mod tokens;

use crate::common::text::{decimal_value, is_digit};
use errors::{LexerError, LexerErrorView};
use grammar::{
    constant_end, digit_run, identifier_end, is_whitespace, lemma_next_token_progress,
    lemma_runs_end_within, one_character_token, rest_after, spec_next_token, spec_parse_constant,
    spec_parse_identifier_or_keyword, spec_parse_punctuation, spec_tokenize, spec_tokenize_rest,
    two_character_token, whitespace_run, word_run,
};
use laws::lemma_unknown_character_offset;
use regex::Regex;
use tokens::{Token, TokenView};
use vstd::prelude::*;
use vstd::string::*;
use vstd::utf8::encode_utf8;

verus! {

/// The pattern of a word: a letter of ASCII or an underscore, then letters, digits and
/// underscores, up to a word boundary of ASCII.
pub open spec fn identifier_pattern() -> Seq<char> {
    "^[a-zA-Z_][a-zA-Z0-9_]*(?-u:\\b)"@
}

/// The pattern of a number: digits, up to a word boundary of ASCII.
pub open spec fn constant_pattern() -> Seq<char> {
    "^[0-9]+(?-u:\\b)"@
}

/// The end of a match as a machine number.
pub open spec fn match_end(end: Option<int>) -> Option<usize> {
    match end {
        Some(end) => Some(end as usize),
        None => None,
    }
}

/// Compiles `pattern` with `regex::Regex::new`, searches `input` with `Regex::find`, and
/// returns the byte offset at which the match ends, as `Match::end` gives it. Nothing of
/// this is proved; the contract is what this lexer believes of the regex crate. It speaks
/// of the two patterns of the lexer only. Both are anchored at the start of the input and
/// match characters of ASCII only, so the offset is also the number of characters matched.
/// The word pattern matches the longest run of word characters after a first letter or
/// underscore: the repetition is greedy, and the run ends at a word boundary of ASCII. The
/// number pattern matches the longest run of digits, and nothing where a word character
/// follows the run: no shorter run of digits ends at a word boundary.
#[verifier::external_body]
fn regex_find_end(pattern: &str, input: &str) -> (end: Option<usize>)
    requires
        pattern@ == identifier_pattern() || pattern@ == constant_pattern(),
    ensures
        pattern@ == identifier_pattern() ==> end == match_end(identifier_end(input@)),
        pattern@ == constant_pattern() ==> end == match_end(constant_end(input@)),
{
    match Regex::new(pattern) {
        Ok(regex) => match regex.find(input) {
            Some(found) => Some(found.end()),
            None => None,
        },
        Err(_) => None,
    }
}

/// Returns the word pattern.
fn identifier_regex() -> (pattern: &'static str)
    ensures
        pattern@ == identifier_pattern(),
{
    "^[a-zA-Z_][a-zA-Z0-9_]*(?-u:\\b)"
}

/// Returns the number pattern.
fn constant_regex() -> (pattern: &'static str)
    ensures
        pattern@ == constant_pattern(),
{
    "^[0-9]+(?-u:\\b)"
}

/// Whether two texts hold the same characters.
fn same_text(left: &str, right: &str) -> (same: bool)
    ensures
        same == (left@ == right@),
{
    let left = String::from_str(left);
    let right = String::from_str(right);
    left == right
}

/// Copies what is left of `input` after its first `taken` characters.
fn copy_rest(input: &str, taken: usize) -> (rest: String)
    requires
        taken <= input@.len(),
    ensures
        rest@ == rest_after(input@, taken as int),
{
    let total = input.unicode_len();
    String::from_str(input.substring_char(taken, total))
}

/// Whether a lexeme that was read is the lexeme that the grammar gives.
pub open spec fn lexeme_agrees(
    read: Result<(String, Token), LexerError>,
    lexeme: grammar::Lexeme,
) -> bool {
    match lexeme {
        Ok((rest, token)) => read is Ok && read->Ok_0.0@ == rest && read->Ok_0.1.deep_view()
            == token,
        Err(error) => read is Err && read->Err_0.deep_view() == error,
    }
}

/// Reads the tokens of a source text. White space between tokens is skipped. The text
/// must consist of tokens and white space only: the first character that starts no token is
/// reported with its offset in bytes, and so is an integer literal that does not fit 32
/// bits.
pub fn tokenize(input_str: &str) -> (tokens: Result<Vec<Token>, LexerError>)
    ensures
        match spec_tokenize(input_str@) {
            Ok(expected) => tokens is Ok && tokens->Ok_0.deep_view() == expected,
            Err(error) => tokens is Err && tokens->Err_0.deep_view() == error,
        },
        tokens matches Err(LexerError::UnknownCharacter { found, byte_offset }) ==> {
            &&& byte_offset < input_str@.len()
            &&& input_str@[byte_offset as int] == found
            &&& encode_utf8(input_str@.subrange(0, byte_offset as int)).len() == byte_offset
        },
{
    let total = input_str.unicode_len();
    let mut string_stream = String::from_str(input_str);
    let mut token_vec: Vec<Token> = Vec::new();
    let ghost source = input_str@;
    assert(token_vec.deep_view() =~= Seq::<TokenView>::empty());
    loop
        invariant
            source == input_str@,
            total == source.len(),
            string_stream@.len() <= total,
            match spec_tokenize_rest(string_stream@, total as int) {
                Ok(expected) => spec_tokenize(source) == Ok::<Seq<TokenView>, LexerErrorView>(
                    token_vec.deep_view() + expected,
                ),
                Err(error) => spec_tokenize(source) == Err::<Seq<TokenView>, LexerErrorView>(
                    error,
                ),
            },
        decreases string_stream@.len(),
    {
        let ghost before = string_stream@;
        string_stream = trim_start(string_stream.as_str());
        proof {
            lemma_runs_end_within(before, 0);
        }
        let remaining = string_stream.as_str().unicode_len();
        if remaining == 0 {
            assert(token_vec.deep_view() + Seq::<TokenView>::empty() =~= token_vec.deep_view());
            return Ok(token_vec);
        }
        proof {
            lemma_next_token_progress(string_stream@, total - remaining);
        }
        let (rest, token) = match next_token(string_stream.as_str(), total - remaining) {
            Ok(lexeme) => lexeme,
            Err(error) => {
                proof {
                    lemma_unknown_character_offset(source);
                }
                return Err(error);
            },
        };
        let ghost read = token_vec.deep_view();
        token_vec.push(token);
        string_stream = rest;
        proof {
            assert(token_vec.deep_view() =~= read.push(token.deep_view()));
            match spec_tokenize_rest(string_stream@, total as int) {
                Ok(expected) => {
                    assert(read + (seq![token.deep_view()] + expected) =~= token_vec.deep_view()
                        + expected);
                },
                Err(_) => {},
            }
        }
    }
}

/// Reads the token at the start of a text that is not empty and does not start with white
/// space; `offset` is the number of characters of the source before the text.
pub fn next_token(input_str: &str, offset: usize) -> (lexeme: Result<(String, Token), LexerError>)
    requires
        input_str@.len() > 0,
    ensures
        lexeme_agrees(lexeme, spec_next_token(input_str@, offset as int)),
{
    match parse_identifier_or_keyword(input_str) {
        Ok(lexeme) => {
            return Ok(lexeme);
        },
        Err(_) => {},
    }
    match parse_constant(input_str) {
        Ok(lexeme) => {
            return Ok(lexeme);
        },
        Err(LexerError::InvalidConstant { found }) => {
            return Err(LexerError::InvalidConstant { found });
        },
        Err(_) => {},
    }
    match parse_punctuation(input_str) {
        Ok(lexeme) => Ok(lexeme),
        Err(_) => Err(
            LexerError::UnknownCharacter { found: input_str.get_char(0), byte_offset: offset },
        ),
    }
}

/// Copies a text without the white space at its start.
pub fn trim_start(input_str: &str) -> (trimmed: String)
    ensures
        trimmed@ == rest_after(input_str@, whitespace_run(input_str@, 0)),
{
    let total = input_str.unicode_len();
    let mut skipped: usize = 0;
    while skipped < total && is_whitespace_character(input_str.get_char(skipped))
        invariant
            total == input_str@.len(),
            skipped <= total,
            whitespace_run(input_str@, 0) == whitespace_run(input_str@, skipped as int),
        decreases total - skipped,
    {
        skipped += 1;
    }
    copy_rest(input_str, skipped)
}

/// Whether a character is white space of ASCII.
fn is_whitespace_character(character: char) -> (answer: bool)
    ensures
        answer == is_whitespace(character),
{
    character == ' ' || character == '\t' || character == '\n' || character == '\x0C'
        || character == '\r'
}

/// Reads the identifier or keyword at the start of a text; returns what is left of the
/// text, and the token.
pub fn parse_identifier_or_keyword(input_str: &str) -> (lexeme: Result<
    (String, Token),
    LexerError,
>)
    ensures
        lexeme_agrees(lexeme, spec_parse_identifier_or_keyword(input_str@)),
{
    let total = input_str.unicode_len();
    match regex_find_end(identifier_regex(), input_str) {
        Some(end) => {
            proof {
                lemma_runs_end_within(input_str@, 0);
                assert(end == word_run(input_str@, 0));
            }
            let matched_str = input_str.substring_char(0, end);
            let remaining_str = copy_rest(input_str, end);
            let token = if same_text(matched_str, "int") {
                Token::IntKeyword
            } else if same_text(matched_str, "void") {
                Token::VoidKeyword
            } else if same_text(matched_str, "return") {
                Token::ReturnKeyword
            } else {
                Token::Identifier(String::from_str(matched_str))
            };
            Ok((remaining_str, token))
        },
        None => Err(LexerError::NonmatchingPattern { found: String::from_str(input_str) }),
    }
}

/// Reads the integer constant at the start of a text; returns what is left of the text,
/// and the token.
pub fn parse_constant(input_str: &str) -> (lexeme: Result<(String, Token), LexerError>)
    ensures
        lexeme_agrees(lexeme, spec_parse_constant(input_str@)),
{
    let total = input_str.unicode_len();
    match regex_find_end(constant_regex(), input_str) {
        Some(end) => {
            proof {
                lemma_runs_end_within(input_str@, 0);
                assert(end == digit_run(input_str@, 0));
            }
            let matched_str = input_str.substring_char(0, end);
            let remaining_str = copy_rest(input_str, end);
            match parse_decimal(matched_str) {
                Some(parsed_int) => Ok((remaining_str, Token::Constant(parsed_int))),
                None => Err(LexerError::InvalidConstant { found: String::from_str(matched_str) }),
            }
        },
        None => Err(LexerError::NonmatchingPattern { found: String::from_str(input_str) }),
    }
}

/// A longer run of digits denotes no smaller number than its start does.
proof fn lemma_decimal_value_grows(digits: Seq<char>, end: int)
    requires
        0 <= end <= digits.len(),
        forall|i: int| 0 <= i < digits.len() ==> is_digit(#[trigger] digits[i]),
    ensures
        decimal_value(digits.subrange(0, end)) <= decimal_value(digits),
    decreases digits.len() - end,
{
    if end < digits.len() {
        let longer = digits.subrange(0, end + 1);
        assert(longer.drop_last() =~= digits.subrange(0, end));
        assert(is_digit(longer.last()));
        lemma_decimal_value_grows(digits, end + 1);
    } else {
        assert(digits.subrange(0, end) =~= digits);
    }
}

/// Reads the number that a run of digits denotes, where it fits 32 bits.
fn parse_decimal(digits: &str) -> (number: Option<i32>)
    requires
        forall|i: int| 0 <= i < digits@.len() ==> is_digit(#[trigger] digits@[i]),
    ensures
        number == (if decimal_value(digits@) <= i32::MAX {
            Some(decimal_value(digits@) as i32)
        } else {
            None
        }),
{
    let total = digits.unicode_len();
    let mut value: u64 = 0;
    let mut index: usize = 0;
    assert(digits@.subrange(0, 0) =~= Seq::<char>::empty());
    while index < total
        invariant
            total == digits@.len(),
            index <= total,
            forall|i: int| 0 <= i < digits@.len() ==> is_digit(#[trigger] digits@[i]),
            value == decimal_value(digits@.subrange(0, index as int)),
            value <= i32::MAX,
        decreases total - index,
    {
        let digit = digits.get_char(index);
        let digit_value: u64 = (digit as u32 - '0' as u32) as u64;
        proof {
            assert(digits@.subrange(0, index as int + 1).drop_last() =~= digits@.subrange(
                0,
                index as int,
            ));
            assert(digits@.subrange(0, index as int + 1).last() == digit);
            lemma_decimal_value_grows(digits@, index as int + 1);
        }
        value = 10 * value + digit_value;
        index += 1;
        if value > 0x7fff_ffff {
            return None;
        }
    }
    assert(digits@.subrange(0, index as int) =~= digits@);
    Some(value as i32)
}

/// Reads the punctuation at the start of a text; returns what is left of the text, and
/// the token. Two characters that spell a token together are read as that token.
pub fn parse_punctuation(input_str: &str) -> (lexeme: Result<(String, Token), LexerError>)
    ensures
        lexeme_agrees(lexeme, spec_parse_punctuation(input_str@)),
{
    let total = input_str.unicode_len();
    if total >= 2 {
        match two_characters(input_str.get_char(0), input_str.get_char(1)) {
            Some(token) => {
                return Ok((copy_rest(input_str, 2), token));
            },
            None => {},
        }
    }
    if total >= 1 {
        match one_character(input_str.get_char(0)) {
            Some(token) => {
                return Ok((copy_rest(input_str, 1), token));
            },
            None => {},
        }
    }
    Err(LexerError::NonmatchingPattern { found: String::from_str(input_str) })
}

/// The token that two characters spell together.
fn two_characters(first: char, second: char) -> (token: Option<Token>)
    ensures
        token.deep_view() == two_character_token(first, second),
{
    if first == '-' && second == '-' {
        Some(Token::DoubleHyphen)
    } else if first == '&' && second == '&' {
        Some(Token::DoubleAmpersand)
    } else if first == '|' && second == '|' {
        Some(Token::DoublePipe)
    } else if first == '=' && second == '=' {
        Some(Token::DoubleEqual)
    } else if first == '!' && second == '=' {
        Some(Token::ExclamationEqual)
    } else if first == '<' && second == '=' {
        Some(Token::LessThanEqual)
    } else if first == '>' && second == '=' {
        Some(Token::GreaterThanEqual)
    } else {
        None
    }
}

/// The token that one character spells.
fn one_character(character: char) -> (token: Option<Token>)
    ensures
        token.deep_view() == one_character_token(character),
{
    if character == '-' {
        Some(Token::Hyphen)
    } else if character == '~' {
        Some(Token::Tilde)
    } else if character == '(' {
        Some(Token::OpenParen)
    } else if character == ')' {
        Some(Token::CloseParen)
    } else if character == '{' {
        Some(Token::OpenBrace)
    } else if character == '}' {
        Some(Token::CloseBrace)
    } else if character == ';' {
        Some(Token::Semicolon)
    } else if character == '+' {
        Some(Token::Plus)
    } else if character == '*' {
        Some(Token::Asterisk)
    } else if character == '/' {
        Some(Token::ForwardSlash)
    } else if character == '%' {
        Some(Token::Percent)
    } else if character == '!' {
        Some(Token::ExclamationMark)
    } else if character == '<' {
        Some(Token::LessThan)
    } else if character == '>' {
        Some(Token::GreaterThan)
    } else {
        None
    }
}

} // verus!
