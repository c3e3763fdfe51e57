use vstd::prelude::*;

use crate::dictionary::WordMetadata;
use crate::span::Span;

verus! {

#[derive(Clone, Copy, Debug, PartialEq, Eq, Structural)]
pub enum Punctuation {
    Period,
    Comma,
    Semicolon,
    Colon,
    Bang,
    Question,
    EmDash,
    EnDash,
    Hyphen,
    Underscore,
    OpenRound,
    CloseRound,
    OpenSquare,
    CloseSquare,
    OpenCurly,
    CloseCurly,
    ForwardSlash,
    Backslash,
    Ampersand,
    At,
    Hash,
    Dollar,
    Percent,
    Asterisk,
}

#[derive(Clone, Copy, Debug, PartialEq, Eq, Structural)]
pub enum OrdinalSuffix {
    St,
    Nd,
    Rd,
    Th,
}

/// A numeric literal: its whole part (saturated at `u64::MAX`), whether its
/// fractional digits are all zero, and its ordinal suffix.
#[derive(Clone, Copy, Debug, PartialEq, Eq, Structural)]
pub struct Number {
    pub whole: u64,
    pub is_integer: bool,
    pub suffix: Option<OrdinalSuffix>,
}

#[derive(Clone, Copy, Debug, PartialEq, Eq, Structural)]
pub enum TokenKind {
    Word(WordMetadata),
    Punctuation(Punctuation),
    Number(Number),
    /// A run of spaces and tabs, with its width in characters.
    Space(usize),
    /// A run of line breaks, with their count.
    Newline(usize),
    /// A quotation mark and the index of the token it pairs with, if any.
    Quote(Option<usize>),
    Unlintable,
}

impl TokenKind {
    pub open spec fn spec_is_word(self) -> bool {
        self is Word
    }

    pub open spec fn spec_is_whitespace(self) -> bool {
        self is Space || self is Newline
    }

    /// Two or more line breaks end a paragraph.
    pub open spec fn spec_is_paragraph_break(self) -> bool {
        self is Newline && self->Newline_0 >= 2
    }

    pub fn is_word(&self) -> (r: bool)
        ensures
            r == self.spec_is_word(),
    {
        matches!(self, TokenKind::Word(_))
    }

    pub fn is_whitespace(&self) -> (r: bool)
        ensures
            r == self.spec_is_whitespace(),
    {
        matches!(self, TokenKind::Space(_) | TokenKind::Newline(_))
    }

    pub fn is_paragraph_break(&self) -> (r: bool)
        ensures
            r == self.spec_is_paragraph_break(),
    {
        match self {
            TokenKind::Newline(n) => *n >= 2,
            _ => false,
        }
    }

    pub fn is_quote(&self) -> (r: bool)
        ensures
            r == (*self is Quote),
    {
        matches!(self, TokenKind::Quote(_))
    }
}

/// A classified span of the source.
#[derive(Clone, Copy, Debug, PartialEq, Eq, Structural)]
pub struct Token {
    pub span: Span,
    pub kind: TokenKind,
}

impl Token {
    pub fn new(span: Span, kind: TokenKind) -> (r: Token)
        ensures
            r.span == span,
            r.kind == kind,
    {
        Token { span, kind }
    }
}

/// The characters that a sequence of tokens covers, in order.
pub open spec fn tokens_text(tokens: Seq<Token>, source: Seq<char>) -> Seq<char>
    decreases tokens.len(),
{
    if tokens.len() == 0 {
        Seq::empty()
    } else {
        tokens_text(tokens.drop_last(), source) + source.subrange(
            tokens.last().span.start as int,
            tokens.last().span.end as int,
        )
    }
}

/// The spans of `tokens` follow one another from `from` to `to`, without gap
/// or overlap, each non-empty.
pub open spec fn tokens_tile(tokens: Seq<Token>, from: int, to: int) -> bool {
    &&& tokens.len() == 0 ==> from == to
    &&& tokens.len() > 0 ==> tokens[0].span.start == from && tokens.last().span.end == to
    &&& forall|k: int| 0 <= k < tokens.len() ==> tokens[k].span.start < tokens[k].span.end
    &&& forall|k: int|
        0 <= k < tokens.len() - 1 ==> #[trigger] tokens[k].span.end == tokens[k + 1].span.start
}

} // verus!
