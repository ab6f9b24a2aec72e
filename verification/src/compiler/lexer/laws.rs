use crate::common::text::{decimal, decimal_digits, is_digit, lemma_decimal_digits_roundtrip};
use crate::compiler::lexer::errors::LexerErrorView;
use crate::compiler::lexer::grammar::{
    digit_run, is_identifier_start, is_whitespace, is_word_character, lemma_next_token_progress,
    lemma_runs_end_within, rest_after, spec_next_token, spec_tokenize, spec_tokenize_rest,
    whitespace_run, word_run, word_token,
};
use crate::compiler::lexer::tokens::TokenView;
use vstd::prelude::*;
use vstd::utf8::{encode_utf8, is_ascii_chars, is_ascii_chars_encode_utf8};

verus! {

/// Whether a text is a word that is no keyword: it starts with a letter or an underscore
/// and holds word characters only.
pub open spec fn is_identifier(word: Seq<char>) -> bool {
    &&& word.len() > 0
    &&& is_identifier_start(word[0])
    &&& forall|i: int| 0 <= i < word.len() ==> is_word_character(#[trigger] word[i])
    &&& word != "int"@
    &&& word != "void"@
    &&& word != "return"@
}

/// Whether a token is one that lexing can give: the name of an identifier is a word that
/// is no keyword, and a constant is not negative.
pub open spec fn lexable(token: TokenView) -> bool {
    match token {
        TokenView::Identifier(name) => is_identifier(name),
        TokenView::Constant(value) => value >= 0,
        _ => true,
    }
}

/// The canonical text of a token.
pub open spec fn render_token(token: TokenView) -> Seq<char> {
    match token {
        TokenView::Identifier(name) => name,
        TokenView::Constant(value) => decimal(value as int),
        TokenView::IntKeyword => "int"@,
        TokenView::VoidKeyword => "void"@,
        TokenView::ReturnKeyword => "return"@,
        TokenView::OpenParen => seq!['('],
        TokenView::CloseParen => seq![')'],
        TokenView::OpenBrace => seq!['{'],
        TokenView::CloseBrace => seq!['}'],
        TokenView::Semicolon => seq![';'],
        TokenView::Tilde => seq!['~'],
        TokenView::Hyphen => seq!['-'],
        TokenView::DoubleHyphen => seq!['-', '-'],
        TokenView::Plus => seq!['+'],
        TokenView::Asterisk => seq!['*'],
        TokenView::ForwardSlash => seq!['/'],
        TokenView::Percent => seq!['%'],
        TokenView::ExclamationMark => seq!['!'],
        TokenView::DoubleAmpersand => seq!['&', '&'],
        TokenView::DoublePipe => seq!['|', '|'],
        TokenView::DoubleEqual => seq!['=', '='],
        TokenView::ExclamationEqual => seq!['!', '='],
        TokenView::LessThan => seq!['<'],
        TokenView::GreaterThan => seq!['>'],
        TokenView::LessThanEqual => seq!['<', '='],
        TokenView::GreaterThanEqual => seq!['>', '='],
    }
}

/// The canonical text of a sequence of tokens: each token, followed by a space.
pub open spec fn render(tokens: Seq<TokenView>) -> Seq<char>
    decreases tokens.len(),
{
    if tokens.len() == 0 {
        Seq::empty()
    } else {
        render_token(tokens.first()) + seq![' '] + render(tokens.drop_first())
    }
}

proof fn lemma_word_run_exact(text: Seq<char>, from: int, end: int)
    requires
        0 <= from <= end <= text.len(),
        forall|i: int| from <= i < end ==> is_word_character(#[trigger] text[i]),
        end == text.len() || !is_word_character(text[end]),
    ensures
        word_run(text, from) == end,
    decreases end - from,
{
    if from < end {
        lemma_word_run_exact(text, from + 1, end);
    }
}

proof fn lemma_digit_run_exact(text: Seq<char>, from: int, end: int)
    requires
        0 <= from <= end <= text.len(),
        forall|i: int| from <= i < end ==> is_digit(#[trigger] text[i]),
        end == text.len() || !is_digit(text[end]),
    ensures
        digit_run(text, from) == end,
    decreases end - from,
{
    if from < end {
        lemma_digit_run_exact(text, from + 1, end);
    }
}

/// White space before a text changes nothing of what is left once white space is skipped.
proof fn lemma_skip_leading_space(text: Seq<char>)
    ensures
        rest_after(seq![' '] + text, whitespace_run(seq![' '] + text, 0)) == rest_after(
            text,
            whitespace_run(text, 0),
        ),
{
    let longer = seq![' '] + text;
    lemma_whitespace_run_shift(text, 0);
    lemma_runs_end_within(text, 0);
    assert(longer[0] == ' ');
    assert(whitespace_run(longer, 0) == whitespace_run(longer, 1));
    assert(rest_after(longer, 1 + whitespace_run(text, 0)) =~= rest_after(
        text,
        whitespace_run(text, 0),
    ));
}

proof fn lemma_whitespace_run_shift(text: Seq<char>, from: int)
    requires
        0 <= from <= text.len(),
    ensures
        whitespace_run(seq![' '] + text, from + 1) == 1 + whitespace_run(text, from),
    decreases text.len() - from,
{
    let longer = seq![' '] + text;
    if from < text.len() {
        assert(longer[from + 1] == text[from]);
        lemma_whitespace_run_shift(text, from + 1);
    }
}

/// The text of a token that lexing can give is not empty, starts with a character that is
/// no white space, and holds word characters only where it starts with one.
proof fn lemma_render_token_shape(token: TokenView)
    requires
        lexable(token),
    ensures
        render_token(token).len() > 0,
        !is_whitespace(render_token(token)[0]),
{
    reveal_strlit("int");
    reveal_strlit("void");
    reveal_strlit("return");
    match token {
        TokenView::Constant(value) => {
            lemma_decimal_digits_roundtrip(value as nat);
        },
        _ => {},
    }
}

/// Lexing reads the canonical text of a word back as the word's token.
proof fn lemma_next_token_of_word(word: Seq<char>, more: Seq<char>, offset: int)
    requires
        word.len() > 0,
        is_identifier_start(word[0]),
        forall|i: int| 0 <= i < word.len() ==> is_word_character(#[trigger] word[i]),
    ensures
        spec_next_token(word + seq![' '] + more, offset) == Ok::<
            (Seq<char>, TokenView),
            LexerErrorView,
        >((seq![' '] + more, word_token(word))),
{
    let text = word + seq![' '] + more;
    assert(text[0] == word[0]);
    assert(text[word.len() as int] == ' ');
    assert forall|i: int| 0 <= i < word.len() implies is_word_character(#[trigger] text[i]) by {
        assert(text[i] == word[i]);
    }
    lemma_word_run_exact(text, 0, word.len() as int);
    assert(text.subrange(0, word.len() as int) =~= word);
    assert(rest_after(text, word.len() as int) =~= seq![' '] + more);
}

/// Lexing reads the canonical text of a constant back as the constant.
proof fn lemma_next_token_of_constant(value: i32, more: Seq<char>, offset: int)
    requires
        value >= 0,
    ensures
        spec_next_token(decimal(value as int) + seq![' '] + more, offset) == Ok::<
            (Seq<char>, TokenView),
            LexerErrorView,
        >((seq![' '] + more, TokenView::Constant(value))),
{
    let digits = decimal_digits(value as nat);
    lemma_decimal_digits_roundtrip(value as nat);
    let text = digits + seq![' '] + more;
    assert(text[0] == digits[0]);
    assert(text[digits.len() as int] == ' ');
    assert forall|i: int| 0 <= i < digits.len() implies is_digit(#[trigger] text[i]) by {
        assert(text[i] == digits[i]);
    }
    lemma_digit_run_exact(text, 0, digits.len() as int);
    assert(text.subrange(0, digits.len() as int) =~= digits);
    assert(rest_after(text, digits.len() as int) =~= seq![' '] + more);
}

/// Lexing reads the canonical text of punctuation back as its token.
proof fn lemma_next_token_of_punctuation(token: TokenView, more: Seq<char>, offset: int)
    requires
        !(token is Identifier),
        !(token is Constant),
        !(token is IntKeyword),
        !(token is VoidKeyword),
        !(token is ReturnKeyword),
    ensures
        spec_next_token(render_token(token) + seq![' '] + more, offset) == Ok::<
            (Seq<char>, TokenView),
            LexerErrorView,
        >((seq![' '] + more, token)),
{
    let spelled = render_token(token);
    let text = spelled + seq![' '] + more;
    assert(text[0] == spelled[0]);
    if spelled.len() == 2 {
        assert(text[1] == spelled[1]);
        assert(rest_after(text, 2) =~= seq![' '] + more);
    } else {
        assert(text[1] == ' ');
        assert(rest_after(text, 1) =~= seq![' '] + more);
    }
}

/// Lexing reads the canonical text of a token that it can give back as that token, and
/// leaves what follows the text.
pub proof fn lemma_next_token_of_rendering(token: TokenView, more: Seq<char>, offset: int)
    requires
        lexable(token),
    ensures
        spec_next_token(render_token(token) + seq![' '] + more, offset) == Ok::<
            (Seq<char>, TokenView),
            LexerErrorView,
        >((seq![' '] + more, token)),
{
    reveal_strlit("int");
    reveal_strlit("void");
    reveal_strlit("return");
    match token {
        TokenView::Identifier(name) => {
            lemma_next_token_of_word(name, more, offset);
        },
        TokenView::Constant(value) => {
            lemma_next_token_of_constant(value, more, offset);
        },
        TokenView::IntKeyword => {
            lemma_next_token_of_word("int"@, more, offset);
        },
        TokenView::VoidKeyword => {
            lemma_next_token_of_word("void"@, more, offset);
        },
        TokenView::ReturnKeyword => {
            lemma_next_token_of_word("return"@, more, offset);
        },
        _ => {
            lemma_next_token_of_punctuation(token, more, offset);
        },
    }
}

/// Lexing is a left inverse of the canonical rendering: the canonical text of tokens that
/// lexing can give lexes to these tokens.
pub proof fn lemma_tokenize_rendering(tokens: Seq<TokenView>, total: int)
    requires
        forall|i: int| 0 <= i < tokens.len() ==> lexable(#[trigger] tokens[i]),
    ensures
        spec_tokenize_rest(render(tokens), total) == Ok::<Seq<TokenView>, LexerErrorView>(tokens),
    decreases tokens.len(),
{
    if tokens.len() == 0 {
        assert(render(tokens) =~= Seq::<char>::empty());
        assert(rest_after(render(tokens), whitespace_run(render(tokens), 0)).len() == 0);
        assert(tokens =~= Seq::<TokenView>::empty());
    } else {
        let first = tokens.first();
        let others = tokens.drop_first();
        let more = render(others);
        let text = render(tokens);
        assert(lexable(tokens[0]));
        assert forall|i: int| 0 <= i < others.len() implies lexable(#[trigger] others[i]) by {
            assert(others[i] == tokens[i + 1]);
        }
        lemma_render_token_shape(first);
        assert(text[0] == render_token(first)[0]);
        assert(whitespace_run(text, 0) == 0);
        assert(rest_after(text, 0) =~= text);
        lemma_next_token_of_rendering(first, more, total - text.len());
        lemma_skip_leading_space(more);
        lemma_tokenize_rendering(others, total);
        let left = seq![' '] + more;
        assert(spec_tokenize_rest(left, total) == spec_tokenize_rest(more, total)) by {
            lemma_tokenize_rest_of_trimmed(left, total);
            lemma_tokenize_rest_of_trimmed(more, total);
        }
        assert(seq![first] + others =~= tokens);
    }
}

/// The tokens of a text are the tokens of what is left of it once white space is skipped.
proof fn lemma_tokenize_rest_of_trimmed(text: Seq<char>, total: int)
    ensures
        spec_tokenize_rest(text, total) == spec_tokenize_rest(
            rest_after(text, whitespace_run(text, 0)),
            total,
        ),
{
    lemma_runs_end_within(text, 0);
    let trimmed = rest_after(text, whitespace_run(text, 0));
    lemma_runs_end_within(trimmed, 0);
    if trimmed.len() > 0 {
        assert(trimmed[0] == text[whitespace_run(text, 0)]);
        lemma_whitespace_run_stops(text, 0);
        assert(whitespace_run(trimmed, 0) == 0);
    }
    assert(rest_after(trimmed, whitespace_run(trimmed, 0)) =~= trimmed);
}

proof fn lemma_whitespace_run_stops(text: Seq<char>, from: int)
    requires
        0 <= from <= text.len(),
    ensures
        whitespace_run(text, from) == text.len() || !is_whitespace(
            text[whitespace_run(text, from)],
        ),
    decreases text.len() - from,
{
    if from < text.len() && is_whitespace(text[from]) {
        lemma_whitespace_run_stops(text, from + 1);
    }
}

/// Every token that is read is one that lexing can give.
pub proof fn lemma_next_token_lexable(text: Seq<char>, offset: int)
    requires
        text.len() > 0,
    ensures
        spec_next_token(text, offset) matches Ok((_, token)) ==> lexable(token),
{
    lemma_runs_end_within(text, 0);
    if is_identifier_start(text[0]) {
        lemma_runs_end_within(text, 1);
        let word = text.subrange(0, word_run(text, 0));
        assert(word[0] == text[0]);
        assert forall|i: int| 0 <= i < word.len() implies is_word_character(#[trigger] word[i]) by {
            assert(word[i] == text[i]);
        }
    }
}

/// Every token of a text is one that lexing can give.
pub proof fn lemma_tokens_lexable(text: Seq<char>, total: int)
    ensures
        spec_tokenize_rest(text, total) matches Ok(tokens) ==> forall|i: int|
            0 <= i < tokens.len() ==> lexable(#[trigger] tokens[i]),
    decreases text.len(),
{
    lemma_runs_end_within(text, 0);
    let trimmed = rest_after(text, whitespace_run(text, 0));
    if trimmed.len() > 0 {
        lemma_next_token_lexable(trimmed, total - trimmed.len());
        lemma_next_token_progress(trimmed, total - trimmed.len());
        match spec_next_token(trimmed, total - trimmed.len()) {
            Ok((rest, token)) => {
                lemma_tokens_lexable(rest, total);
                match spec_tokenize_rest(rest, total) {
                    Ok(others) => {
                        let tokens = seq![token] + others;
                        assert forall|i: int| 0 <= i < tokens.len() implies lexable(
                            #[trigger] tokens[i],
                        ) by {
                            if i > 0 {
                                assert(tokens[i] == others[i - 1]);
                            }
                        }
                    },
                    Err(_) => {},
                }
            },
            Err(_) => {},
        }
    }
}

/// Lexing the canonical rendering of the tokens of a source text gives these tokens
/// again.
pub proof fn lemma_lex_render_roundtrip(source: Seq<char>)
    ensures
        spec_tokenize(source) matches Ok(tokens) ==> spec_tokenize(render(tokens)) == Ok::<
            Seq<TokenView>,
            LexerErrorView,
        >(tokens),
{
    lemma_tokens_lexable(source, source.len() as int);
    match spec_tokenize(source) {
        Ok(tokens) => {
            lemma_tokenize_rendering(tokens, render(tokens).len() as int);
        },
        Err(_) => {},
    }
}

/// A token that is read takes characters of ASCII only, from the start of the text.
proof fn lemma_next_token_takes_ascii(text: Seq<char>, offset: int)
    requires
        text.len() > 0,
    ensures
        spec_next_token(text, offset) matches Ok((rest, _)) ==> {
            &&& rest.len() < text.len()
            &&& rest == rest_after(text, text.len() - rest.len())
            &&& is_ascii_chars(text.subrange(0, text.len() - rest.len()))
        },
{
    lemma_runs_end_within(text, 0);
    if is_identifier_start(text[0]) {
        lemma_runs_end_within(text, 1);
    }
    if is_digit(text[0]) {
        lemma_runs_end_within(text, 1);
    }
    match spec_next_token(text, offset) {
        Ok((rest, _)) => {
            let taken = text.len() - rest.len();
            assert(rest =~= rest_after(text, taken));
            let front = text.subrange(0, taken);
            assert forall|i: int| 0 <= i < front.len() implies '\0' <= #[trigger] front[i]
                <= '\u{7f}' by {
                assert(front[i] == text[i]);
            }
        },
        Err(_) => {},
    }
}

/// What the offset of an unknown character says, for the part of the source that is still
/// to be read.
proof fn lemma_unknown_character_rest(source: Seq<char>, text: Seq<char>)
    requires
        source.len() <= usize::MAX,
        text.len() <= source.len(),
        text == rest_after(source, source.len() - text.len()),
        is_ascii_chars(source.subrange(0, source.len() - text.len())),
    ensures
        spec_tokenize_rest(text, source.len() as int) matches Err(
            LexerErrorView::UnknownCharacter { found, byte_offset },
        ) ==> {
            &&& byte_offset < source.len()
            &&& source[byte_offset as int] == found
            &&& is_ascii_chars(source.subrange(0, byte_offset as int))
            &&& encode_utf8(source.subrange(0, byte_offset as int)).len() == byte_offset
        },
    decreases text.len(),
{
    let total = source.len() as int;
    let start = total - text.len();
    lemma_runs_end_within(text, 0);
    let skipped = whitespace_run(text, 0);
    let trimmed = rest_after(text, skipped);
    let offset = total - trimmed.len();
    assert(trimmed =~= rest_after(source, offset));
    let before = source.subrange(0, offset);
    assert forall|i: int| 0 <= i < before.len() implies '\0' <= #[trigger] before[i]
        <= '\u{7f}' by {
        if i < start {
            assert(before[i] == source.subrange(0, start)[i]);
        } else {
            assert(before[i] == text[i - start]);
        }
    }
    if trimmed.len() > 0 {
        assert(trimmed[0] == source[offset]);
        is_ascii_chars_encode_utf8(before);
        lemma_next_token_takes_ascii(trimmed, offset);
        match spec_next_token(trimmed, offset) {
            Ok((rest, _)) => {
                let taken = trimmed.len() - rest.len();
                assert(rest =~= rest_after(source, offset + taken));
                let longer = source.subrange(0, offset + taken);
                assert forall|i: int| 0 <= i < longer.len() implies '\0' <= #[trigger] longer[i]
                    <= '\u{7f}' by {
                    if i < offset {
                        assert(longer[i] == before[i]);
                    } else {
                        assert(longer[i] == trimmed.subrange(0, taken)[i - offset]);
                    }
                }
                lemma_unknown_character_rest(source, rest);
            },
            Err(_) => {},
        }
    }
}

/// The offset of an unknown character counts bytes. Every character before the one that
/// is reported is a character of ASCII, since white space and tokens hold no other, and so
/// takes one byte in UTF-8: the offset is the place of the character in the source, counted
/// in characters and in bytes alike.
pub proof fn lemma_unknown_character_offset(source: Seq<char>)
    requires
        source.len() <= usize::MAX,
    ensures
        spec_tokenize(source) matches Err(LexerErrorView::UnknownCharacter { found, byte_offset })
            ==> {
            &&& byte_offset < source.len()
            &&& source[byte_offset as int] == found
            &&& is_ascii_chars(source.subrange(0, byte_offset as int))
            &&& encode_utf8(source.subrange(0, byte_offset as int)).len() == byte_offset
        },
{
    assert(source =~= rest_after(source, 0));
    assert(source.subrange(0, 0) =~= Seq::<char>::empty());
    lemma_unknown_character_rest(source, source);
}

} // verus!
