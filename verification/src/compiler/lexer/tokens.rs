use crate::common::text::{
    bracketed_list, comma_separated, debug_quoted, decimal, push_decimal_i32, push_list_item,
    quote_debug,
};
use vstd::prelude::*;
use vstd::string::*;

verus! {

/// A token of the C-- language.
#[derive(Debug, PartialEq)]
pub enum Token {
    Identifier(String),
    Constant(i32),
    IntKeyword,
    VoidKeyword,
    ReturnKeyword,
    OpenParen,
    CloseParen,
    OpenBrace,
    CloseBrace,
    Semicolon,
    Tilde,
    Hyphen,
    DoubleHyphen,
    Plus,
    Asterisk,
    ForwardSlash,
    Percent,
    ExclamationMark,
    DoubleAmpersand,
    DoublePipe,
    DoubleEqual,
    ExclamationEqual,
    LessThan,
    GreaterThan,
    LessThanEqual,
    GreaterThanEqual,
}

/// The mathematical value of a [`Token`]: an identifier carries its characters.
pub enum TokenView {
    Identifier(Seq<char>),
    Constant(i32),
    IntKeyword,
    VoidKeyword,
    ReturnKeyword,
    OpenParen,
    CloseParen,
    OpenBrace,
    CloseBrace,
    Semicolon,
    Tilde,
    Hyphen,
    DoubleHyphen,
    Plus,
    Asterisk,
    ForwardSlash,
    Percent,
    ExclamationMark,
    DoubleAmpersand,
    DoublePipe,
    DoubleEqual,
    ExclamationEqual,
    LessThan,
    GreaterThan,
    LessThanEqual,
    GreaterThanEqual,
}

impl DeepView for Token {
    type V = TokenView;

    open spec fn deep_view(&self) -> TokenView {
        match self {
            Token::Identifier(name) => TokenView::Identifier(name@),
            Token::Constant(value) => TokenView::Constant(*value),
            Token::IntKeyword => TokenView::IntKeyword,
            Token::VoidKeyword => TokenView::VoidKeyword,
            Token::ReturnKeyword => TokenView::ReturnKeyword,
            Token::OpenParen => TokenView::OpenParen,
            Token::CloseParen => TokenView::CloseParen,
            Token::OpenBrace => TokenView::OpenBrace,
            Token::CloseBrace => TokenView::CloseBrace,
            Token::Semicolon => TokenView::Semicolon,
            Token::Tilde => TokenView::Tilde,
            Token::Hyphen => TokenView::Hyphen,
            Token::DoubleHyphen => TokenView::DoubleHyphen,
            Token::Plus => TokenView::Plus,
            Token::Asterisk => TokenView::Asterisk,
            Token::ForwardSlash => TokenView::ForwardSlash,
            Token::Percent => TokenView::Percent,
            Token::ExclamationMark => TokenView::ExclamationMark,
            Token::DoubleAmpersand => TokenView::DoubleAmpersand,
            Token::DoublePipe => TokenView::DoublePipe,
            Token::DoubleEqual => TokenView::DoubleEqual,
            Token::ExclamationEqual => TokenView::ExclamationEqual,
            Token::LessThan => TokenView::LessThan,
            Token::GreaterThan => TokenView::GreaterThan,
            Token::LessThanEqual => TokenView::LessThanEqual,
            Token::GreaterThanEqual => TokenView::GreaterThanEqual,
        }
    }
}

impl Clone for Token {
    fn clone(&self) -> (copy: Self)
        ensures
            copy == *self,
    {
        match self {
            Token::Identifier(name) => Token::Identifier(name.clone()),
            Token::Constant(value) => Token::Constant(*value),
            Token::IntKeyword => Token::IntKeyword,
            Token::VoidKeyword => Token::VoidKeyword,
            Token::ReturnKeyword => Token::ReturnKeyword,
            Token::OpenParen => Token::OpenParen,
            Token::CloseParen => Token::CloseParen,
            Token::OpenBrace => Token::OpenBrace,
            Token::CloseBrace => Token::CloseBrace,
            Token::Semicolon => Token::Semicolon,
            Token::Tilde => Token::Tilde,
            Token::Hyphen => Token::Hyphen,
            Token::DoubleHyphen => Token::DoubleHyphen,
            Token::Plus => Token::Plus,
            Token::Asterisk => Token::Asterisk,
            Token::ForwardSlash => Token::ForwardSlash,
            Token::Percent => Token::Percent,
            Token::ExclamationMark => Token::ExclamationMark,
            Token::DoubleAmpersand => Token::DoubleAmpersand,
            Token::DoublePipe => Token::DoublePipe,
            Token::DoubleEqual => Token::DoubleEqual,
            Token::ExclamationEqual => Token::ExclamationEqual,
            Token::LessThan => Token::LessThan,
            Token::GreaterThan => Token::GreaterThan,
            Token::LessThanEqual => Token::LessThanEqual,
            Token::GreaterThanEqual => Token::GreaterThanEqual,
        }
    }
}

/// The kind of a token: its variant without the payload.
#[derive(Debug, Clone, Copy, PartialEq, Eq, Structural)]
pub enum TokenType {
    Identifier,
    Constant,
    IntKeyword,
    VoidKeyword,
    ReturnKeyword,
    OpenParen,
    CloseParen,
    OpenBrace,
    CloseBrace,
    Semicolon,
    Tilde,
    Hyphen,
    DoubleHyphen,
    Plus,
    Asterisk,
    ForwardSlash,
    Percent,
    ExclamationMark,
    DoubleAmpersand,
    DoublePipe,
    DoubleEqual,
    ExclamationEqual,
    LessThan,
    GreaterThan,
    LessThanEqual,
    GreaterThanEqual,
}

impl TokenView {
    /// The kind of a token value.
    pub open spec fn kind(self) -> TokenType {
        match self {
            TokenView::Identifier(_) => TokenType::Identifier,
            TokenView::Constant(_) => TokenType::Constant,
            TokenView::IntKeyword => TokenType::IntKeyword,
            TokenView::VoidKeyword => TokenType::VoidKeyword,
            TokenView::ReturnKeyword => TokenType::ReturnKeyword,
            TokenView::OpenParen => TokenType::OpenParen,
            TokenView::CloseParen => TokenType::CloseParen,
            TokenView::OpenBrace => TokenType::OpenBrace,
            TokenView::CloseBrace => TokenType::CloseBrace,
            TokenView::Semicolon => TokenType::Semicolon,
            TokenView::Tilde => TokenType::Tilde,
            TokenView::Hyphen => TokenType::Hyphen,
            TokenView::DoubleHyphen => TokenType::DoubleHyphen,
            TokenView::Plus => TokenType::Plus,
            TokenView::Asterisk => TokenType::Asterisk,
            TokenView::ForwardSlash => TokenType::ForwardSlash,
            TokenView::Percent => TokenType::Percent,
            TokenView::ExclamationMark => TokenType::ExclamationMark,
            TokenView::DoubleAmpersand => TokenType::DoubleAmpersand,
            TokenView::DoublePipe => TokenType::DoublePipe,
            TokenView::DoubleEqual => TokenType::DoubleEqual,
            TokenView::ExclamationEqual => TokenType::ExclamationEqual,
            TokenView::LessThan => TokenType::LessThan,
            TokenView::GreaterThan => TokenType::GreaterThan,
            TokenView::LessThanEqual => TokenType::LessThanEqual,
            TokenView::GreaterThanEqual => TokenType::GreaterThanEqual,
        }
    }

    /// The token as diagnostics print it: the variant's name, followed in parentheses by
    /// the quoted name of an identifier or the decimal value of a constant.
    pub open spec fn debug_text(self) -> Seq<char> {
        match self {
            TokenView::Identifier(name) => "Identifier("@ + debug_quoted(name) + ")"@,
            TokenView::Constant(value) => "Constant("@ + decimal(value as int) + ")"@,
            _ => self.kind().spec_name(),
        }
    }

    /// The token as messages show it: the variant's name, followed after a colon by the
    /// name of an identifier or the decimal value of a constant.
    pub open spec fn display_text(self) -> Seq<char> {
        match self {
            TokenView::Identifier(name) => "Identifier: "@ + name,
            TokenView::Constant(value) => "Constant: "@ + decimal(value as int),
            _ => self.kind().spec_name(),
        }
    }

    /// Whether the token is one of the thirteen binary operators.
    pub open spec fn is_binary_operator(self) -> bool {
        self.kind().binary_precedence() is Some
    }
}

/// The explanation given when the precedence of a token that is no binary operator is
/// asked for.
pub open spec fn not_binary_operator_message(token: TokenView) -> Seq<char> {
    "Token "@ + token.debug_text() + " is not a binary operator"@
}

impl TokenType {
    /// The binding strength of a binary operator kind; `None` for every other kind.
    /// A higher number binds tighter.
    pub open spec fn binary_precedence(self) -> Option<u32> {
        match self {
            TokenType::Asterisk | TokenType::ForwardSlash | TokenType::Percent => Some(50u32),
            TokenType::Plus | TokenType::Hyphen => Some(45u32),
            TokenType::LessThan
            | TokenType::GreaterThan
            | TokenType::LessThanEqual
            | TokenType::GreaterThanEqual => Some(35u32),
            TokenType::DoubleEqual | TokenType::ExclamationEqual => Some(30u32),
            TokenType::DoubleAmpersand => Some(10u32),
            TokenType::DoublePipe => Some(5u32),
            _ => None,
        }
    }

    /// The variant's name, as diagnostics print it.
    pub open spec fn spec_name(self) -> Seq<char> {
        match self {
            TokenType::Identifier => "Identifier"@,
            TokenType::Constant => "Constant"@,
            TokenType::IntKeyword => "IntKeyword"@,
            TokenType::VoidKeyword => "VoidKeyword"@,
            TokenType::ReturnKeyword => "ReturnKeyword"@,
            TokenType::OpenParen => "OpenParen"@,
            TokenType::CloseParen => "CloseParen"@,
            TokenType::OpenBrace => "OpenBrace"@,
            TokenType::CloseBrace => "CloseBrace"@,
            TokenType::Semicolon => "Semicolon"@,
            TokenType::Tilde => "Tilde"@,
            TokenType::Hyphen => "Hyphen"@,
            TokenType::DoubleHyphen => "DoubleHyphen"@,
            TokenType::Plus => "Plus"@,
            TokenType::Asterisk => "Asterisk"@,
            TokenType::ForwardSlash => "ForwardSlash"@,
            TokenType::Percent => "Percent"@,
            TokenType::ExclamationMark => "ExclamationMark"@,
            TokenType::DoubleAmpersand => "DoubleAmpersand"@,
            TokenType::DoublePipe => "DoublePipe"@,
            TokenType::DoubleEqual => "DoubleEqual"@,
            TokenType::ExclamationEqual => "ExclamationEqual"@,
            TokenType::LessThan => "LessThan"@,
            TokenType::GreaterThan => "GreaterThan"@,
            TokenType::LessThanEqual => "LessThanEqual"@,
            TokenType::GreaterThanEqual => "GreaterThanEqual"@,
        }
    }

    /// Returns the kind as messages show it: the variant's name.
    pub fn to_string(&self) -> (text: String)
        ensures
            text@ == self.spec_name(),
    {
        String::from_str(self.name())
    }

    /// Returns the variant's name.
    pub fn name(&self) -> (text: &'static str)
        ensures
            text@ == self.spec_name(),
    {
        match self {
            TokenType::Identifier => "Identifier",
            TokenType::Constant => "Constant",
            TokenType::IntKeyword => "IntKeyword",
            TokenType::VoidKeyword => "VoidKeyword",
            TokenType::ReturnKeyword => "ReturnKeyword",
            TokenType::OpenParen => "OpenParen",
            TokenType::CloseParen => "CloseParen",
            TokenType::OpenBrace => "OpenBrace",
            TokenType::CloseBrace => "CloseBrace",
            TokenType::Semicolon => "Semicolon",
            TokenType::Tilde => "Tilde",
            TokenType::Hyphen => "Hyphen",
            TokenType::DoubleHyphen => "DoubleHyphen",
            TokenType::Plus => "Plus",
            TokenType::Asterisk => "Asterisk",
            TokenType::ForwardSlash => "ForwardSlash",
            TokenType::Percent => "Percent",
            TokenType::ExclamationMark => "ExclamationMark",
            TokenType::DoubleAmpersand => "DoubleAmpersand",
            TokenType::DoublePipe => "DoublePipe",
            TokenType::DoubleEqual => "DoubleEqual",
            TokenType::ExclamationEqual => "ExclamationEqual",
            TokenType::LessThan => "LessThan",
            TokenType::GreaterThan => "GreaterThan",
            TokenType::LessThanEqual => "LessThanEqual",
            TokenType::GreaterThanEqual => "GreaterThanEqual",
        }
    }
}

impl Token {
    /// Returns the kind of the token.
    pub fn kind(&self) -> (kind: TokenType)
        ensures
            kind == self.deep_view().kind(),
    {
        match self {
            Token::Identifier(_) => TokenType::Identifier,
            Token::Constant(_) => TokenType::Constant,
            Token::IntKeyword => TokenType::IntKeyword,
            Token::VoidKeyword => TokenType::VoidKeyword,
            Token::ReturnKeyword => TokenType::ReturnKeyword,
            Token::OpenParen => TokenType::OpenParen,
            Token::CloseParen => TokenType::CloseParen,
            Token::OpenBrace => TokenType::OpenBrace,
            Token::CloseBrace => TokenType::CloseBrace,
            Token::Semicolon => TokenType::Semicolon,
            Token::Tilde => TokenType::Tilde,
            Token::Hyphen => TokenType::Hyphen,
            Token::DoubleHyphen => TokenType::DoubleHyphen,
            Token::Plus => TokenType::Plus,
            Token::Asterisk => TokenType::Asterisk,
            Token::ForwardSlash => TokenType::ForwardSlash,
            Token::Percent => TokenType::Percent,
            Token::ExclamationMark => TokenType::ExclamationMark,
            Token::DoubleAmpersand => TokenType::DoubleAmpersand,
            Token::DoublePipe => TokenType::DoublePipe,
            Token::DoubleEqual => TokenType::DoubleEqual,
            Token::ExclamationEqual => TokenType::ExclamationEqual,
            Token::LessThan => TokenType::LessThan,
            Token::GreaterThan => TokenType::GreaterThan,
            Token::LessThanEqual => TokenType::LessThanEqual,
            Token::GreaterThanEqual => TokenType::GreaterThanEqual,
        }
    }

    /// Returns the token as messages show it.
    pub fn to_string(&self) -> (text: String)
        ensures
            text@ == self.deep_view().display_text(),
    {
        let mut text = String::new();
        match self {
            Token::Identifier(name) => {
                text.append("Identifier: ");
                text.append(name.as_str());
            },
            Token::Constant(value) => {
                text.append("Constant: ");
                push_decimal_i32(&mut text, *value);
            },
            _ => {
                text.append(self.kind().name());
            },
        }
        assert(text@ =~= self.deep_view().display_text());
        text
    }

    /// Returns the token as diagnostics print it.
    pub fn debug_text(&self) -> (text: String)
        ensures
            text@ == self.deep_view().debug_text(),
    {
        match self {
            Token::Identifier(name) => {
                let mut text = String::new();
                text.append("Identifier(");
                let quoted = quote_debug(name.as_str());
                text.append(quoted.as_str());
                text.append(")");
                assert(text@ =~= self.deep_view().debug_text());
                text
            },
            Token::Constant(value) => {
                let mut text = String::new();
                text.append("Constant(");
                push_decimal_i32(&mut text, *value);
                text.append(")");
                assert(text@ =~= self.deep_view().debug_text());
                text
            },
            _ => {
                let mut text = String::new();
                text.append(self.kind().name());
                assert(text@ =~= self.deep_view().debug_text());
                text
            },
        }
    }

    /// Tells whether the token is a binary operator.
    pub fn is_binary_operator(&self) -> (answer: bool)
        ensures
            answer == self.deep_view().is_binary_operator(),
    {
        match self {
            Token::Asterisk => true,
            Token::ForwardSlash => true,
            Token::Percent => true,
            Token::Plus => true,
            Token::Hyphen => true,
            Token::LessThan => true,
            Token::GreaterThan => true,
            Token::LessThanEqual => true,
            Token::GreaterThanEqual => true,
            Token::DoubleEqual => true,
            Token::ExclamationEqual => true,
            Token::DoubleAmpersand => true,
            Token::DoublePipe => true,
            _ => false,
        }
    }

    /// Returns the precedence of a binary operator, and an explanation for any other token.
    pub fn get_binary_operator_precedence(&self) -> (precedence: Result<u32, String>)
        ensures
            match self.deep_view().kind().binary_precedence() {
                Some(p) => precedence == Ok::<u32, String>(p),
                None => precedence is Err && precedence->Err_0@ == not_binary_operator_message(
                    self.deep_view(),
                ),
            },
    {
        match self {
            Token::Asterisk => Ok(50),
            Token::ForwardSlash => Ok(50),
            Token::Percent => Ok(50),
            Token::Plus => Ok(45),
            Token::Hyphen => Ok(45),
            Token::LessThan => Ok(35),
            Token::GreaterThan => Ok(35),
            Token::LessThanEqual => Ok(35),
            Token::GreaterThanEqual => Ok(35),
            Token::DoubleEqual => Ok(30),
            Token::ExclamationEqual => Ok(30),
            Token::DoubleAmpersand => Ok(10),
            Token::DoublePipe => Ok(5),
            _ => {
                let mut message = String::new();
                message.append("Token ");
                message.append(self.debug_text().as_str());
                message.append(" is not a binary operator");
                assert(message@ =~= not_binary_operator_message(self.deep_view()));
                Err(message)
            },
        }
    }
}

/// The names of a list of kinds.
pub open spec fn kind_names(kinds: Seq<TokenType>) -> Seq<Seq<char>> {
    Seq::new(kinds.len(), |i: int| kinds[i].spec_name())
}

/// The diagnostic texts of a list of tokens.
pub open spec fn token_debug_texts(tokens: Seq<TokenView>) -> Seq<Seq<char>> {
    Seq::new(tokens.len(), |i: int| tokens[i].debug_text())
}

/// Returns a list of kinds as diagnostics print it.
pub fn kinds_debug_text(kinds: &Vec<TokenType>) -> (text: String)
    ensures
        text@ == bracketed_list(kind_names(kinds@)),
{
    let mut text = String::new();
    text.append("[");
    let ghost items = kind_names(kinds@);
    let mut index: usize = 0;
    proof {
        assert(items.subrange(0, 0) =~= Seq::<Seq<char>>::empty());
        assert(text@ =~= "["@ + comma_separated(items.subrange(0, 0)));
    }
    while index < kinds.len()
        invariant
            index <= kinds.len(),
            items == kind_names(kinds@),
            text@ == "["@ + comma_separated(items.subrange(0, index as int)),
        decreases kinds.len() - index,
    {
        push_list_item(&mut text, kinds[index].name(), Ghost(items), index);
        index += 1;
    }
    text.append("]");
    proof {
        assert(items.subrange(0, index as int) =~= items);
    }
    text
}

/// Returns a list of tokens as diagnostics print it.
pub fn tokens_debug_text(tokens: &Vec<Token>) -> (text: String)
    ensures
        text@ == bracketed_list(token_debug_texts(tokens.deep_view())),
{
    let mut text = String::new();
    text.append("[");
    let ghost items = token_debug_texts(tokens.deep_view());
    let mut index: usize = 0;
    proof {
        assert(items.subrange(0, 0) =~= Seq::<Seq<char>>::empty());
        assert(text@ =~= "["@ + comma_separated(items.subrange(0, 0)));
    }
    while index < tokens.len()
        invariant
            index <= tokens.len(),
            items == token_debug_texts(tokens.deep_view()),
            items.len() == tokens.len(),
            text@ == "["@ + comma_separated(items.subrange(0, index as int)),
        decreases tokens.len() - index,
    {
        let item = tokens[index].debug_text();
        push_list_item(&mut text, item.as_str(), Ghost(items), index);
        index += 1;
    }
    text.append("]");
    proof {
        assert(items.subrange(0, index as int) =~= items);
    }
    text
}

} // verus!
