use crate::common::text::{decimal, push_decimal_usize};
use vstd::prelude::*;
use vstd::string::*;

verus! {

/// The errors of lexing.
#[derive(Debug, PartialEq)]
#[allow(inconsistent_fields)]
pub enum LexerError {
    /// No token starts with the character `found`, which stands `byte_offset` bytes after
    /// the start of the source.
    UnknownCharacter { found: char, byte_offset: usize },
    /// The text `found` does not start with what a pattern asks for.
    NonmatchingPattern { found: String },
    /// The integer literal `found` does not fit 32 bits.
    InvalidConstant { found: String },
}

/// The mathematical value of a [`LexerError`].
#[allow(inconsistent_fields)]
pub enum LexerErrorView {
    UnknownCharacter { found: char, byte_offset: usize },
    NonmatchingPattern { found: Seq<char> },
    InvalidConstant { found: Seq<char> },
}

impl DeepView for LexerError {
    type V = LexerErrorView;

    open spec fn deep_view(&self) -> LexerErrorView {
        match self {
            LexerError::UnknownCharacter { found, byte_offset } => {
                LexerErrorView::UnknownCharacter { found: *found, byte_offset: *byte_offset }
            },
            LexerError::NonmatchingPattern { found } => LexerErrorView::NonmatchingPattern {
                found: found@,
            },
            LexerError::InvalidConstant { found } => LexerErrorView::InvalidConstant {
                found: found@,
            },
        }
    }
}

impl LexerErrorView {
    /// The message of the error.
    pub open spec fn message(self) -> Seq<char> {
        match self {
            LexerErrorView::UnknownCharacter { found, byte_offset } => {
                "Lexer error: Unknown character '"@.push(found) + "' at byte offset "@ + decimal(
                    byte_offset as int,
                )
            },
            LexerErrorView::NonmatchingPattern { found } => {
                "Lexer error: The string did not match the expected pattern: '"@ + found + "'"@
            },
            LexerErrorView::InvalidConstant { found } => {
                "Lexer error: The constant could not be parsed: "@ + found
            },
        }
    }
}

impl LexerError {
    /// Returns the message of the error: the stage, what went wrong, and the text that
    /// was refused.
    pub fn to_string(&self) -> (text: String)
        ensures
            text@ == self.deep_view().message(),
    {
        let mut text = String::new();
        match self {
            LexerError::UnknownCharacter { found, byte_offset } => {
                text.append("Lexer error: Unknown character '");
                text.push(*found);
                text.append("' at byte offset ");
                push_decimal_usize(&mut text, *byte_offset);
            },
            LexerError::NonmatchingPattern { found } => {
                text.append("Lexer error: The string did not match the expected pattern: '");
                text.append(found.as_str());
                text.append("'");
            },
            LexerError::InvalidConstant { found } => {
                text.append("Lexer error: The constant could not be parsed: ");
                text.append(found.as_str());
            },
        }
        assert(text@ =~= self.deep_view().message());
        text
    }
}

} // verus!
