use vstd::prelude::*;

use crate::dictionary::{layers_lookup, unknown_metadata, MergedDictionary, WordMetadata};
use crate::parsers::{parse_spec, Parser};
use crate::patterns::{span_in, token_chars};
use crate::span::Span;
use crate::text::{chars_to_string, str_to_chars};
use crate::token::{tokens_text, tokens_tile, Punctuation, Token, TokenKind};

verus! {

/// A word token takes what the dictionary knows of its text.
pub open spec fn with_metadata(t: Token, src: Seq<char>, dict: Seq<crate::dictionary::Entries>) -> Token {
    if t.kind is Word && span_in(t, src) {
        Token {
            span: t.span,
            kind: TokenKind::Word(
                match layers_lookup(dict, token_chars(t, src)) {
                    Some(m) => m,
                    None => unknown_metadata(),
                },
            ),
        }
    } else {
        t
    }
}

pub open spec fn tokens_with_metadata(
    toks: Seq<Token>,
    src: Seq<char>,
    dict: Seq<crate::dictionary::Entries>,
) -> Seq<Token> {
    Seq::new(toks.len(), |k: int| with_metadata(toks[k], src, dict))
}

/// A text and its tokens, which cover it exactly once, in order.
pub struct Document {
    source: Vec<char>,
    tokens: Vec<Token>,
}

impl Document {
    #[verifier::type_invariant]
    spec fn tiles(&self) -> bool {
        tokens_tile(self.tokens@, 0, self.source@.len() as int)
    }

    pub closed spec fn spec_source(&self) -> Seq<char> {
        self.source@
    }

    pub closed spec fn spec_tokens(&self) -> Seq<Token> {
        self.tokens@
    }

    /// A document of `source` with the tokens `parsed`, each word given
    /// what `dictionary` knows of it.
    fn with_tokens(source: Vec<char>, parsed: Vec<Token>, dictionary: &MergedDictionary) -> (r:
        Document)
        requires
            tokens_tile(parsed@, 0, source@.len() as int),
        ensures
            r.spec_source() == source@,
            r.spec_tokens() == tokens_with_metadata(parsed@, source@, dictionary@),
    {
        let ghost p = parsed@;
        let mut tokens: Vec<Token> = Vec::new();
        let mut k: usize = 0;
        while k < parsed.len()
            invariant
                k <= parsed@.len(),
                p == parsed@,
                tokens@ =~= tokens_with_metadata(p, source@, dictionary@).subrange(0, k as int),
            decreases parsed@.len() - k,
        {
            let t = parsed[k];
            let filled = match t.kind {
                TokenKind::Word(_) => {
                    if t.span.start <= t.span.end && t.span.end <= source.len() {
                        let text = t.span.get_content(source.as_slice());
                        let m = match dictionary.get_word_metadata(text.as_slice()) {
                            Some(m) => m,
                            None => WordMetadata::default(),
                        };
                        Token { span: t.span, kind: TokenKind::Word(m) }
                    } else {
                        t
                    }
                },
                _ => t,
            };
            tokens.push(filled);
            k += 1;
        }
        proof {
            let full = tokens_with_metadata(p, source@, dictionary@);
            assert(full.subrange(0, k as int) =~= full);
            assert forall|j: int| 0 <= j < full.len() - 1 implies #[trigger] full[j].span.end
                == full[j + 1].span.start by {
                assert(p[j].span.end == p[j + 1].span.start);
            }
        }
        Document { source, tokens }
    }

    /// Tokenizes `source` with `parser` and gives each word what `dictionary`
    /// knows of it.
    pub fn new_from_vec(source: Vec<char>, parser: &Parser, dictionary: &MergedDictionary) -> (r:
        Document)
        ensures
            r.spec_source() == source@,
            r.spec_tokens() == tokens_with_metadata(
                parse_spec(*parser, source@),
                source@,
                dictionary@,
            ),
    {
        let parsed = parser.parse(source.as_slice());
        Document::with_tokens(source, parsed, dictionary)
    }

    /// An MDX document: its markup is blanked before the prose is tokenized,
    /// and the tokens' spans refer to `text` itself.
    pub fn new_mdx(text: &str, dictionary: &MergedDictionary) -> (r: Document)
        ensures
            r.spec_source() == text@,
            r.spec_tokens() == tokens_with_metadata(
                parse_spec(Parser::PlainEnglish, crate::mdx::clean_mdx(text@)),
                text@,
                dictionary@,
            ),
    {
        let cleaned = str_to_chars(crate::mdx::clean_mdx_content(text).as_str());
        let parsed = Parser::PlainEnglish.parse(cleaned.as_slice());
        Document::with_tokens(str_to_chars(text), parsed, dictionary)
    }

    pub fn new(text: &str, parser: &Parser, dictionary: &MergedDictionary) -> (r: Document)
        ensures
            r.spec_source() == text@,
            r.spec_tokens() == tokens_with_metadata(parse_spec(*parser, text@), text@, dictionary@),
    {
        Document::new_from_vec(str_to_chars(text), parser, dictionary)
    }

    pub fn new_plain_english(text: &str, dictionary: &MergedDictionary) -> (r: Document)
        ensures
            r.spec_source() == text@,
            r.spec_tokens() == tokens_with_metadata(
                parse_spec(Parser::PlainEnglish, text@),
                text@,
                dictionary@,
            ),
    {
        Document::new(text, &Parser::PlainEnglish, dictionary)
    }

    /// A plain-English document, with the built-in word list.
    pub fn new_plain_english_curated(text: &str) -> (r: Document)
        ensures
            r.spec_source() == text@,
            r.spec_tokens() == tokens_with_metadata(
                parse_spec(Parser::PlainEnglish, text@),
                text@,
                seq![crate::dictionary::curated_entries()],
            ),
    {
        Document::new_plain_english(text, &MergedDictionary::curated())
    }

    pub fn get_source(&self) -> (r: &[char])
        ensures
            r@ == self.spec_source(),
    {
        self.source.as_slice()
    }

    pub fn get_tokens(&self) -> (r: &[Token])
        ensures
            r@ == self.spec_tokens(),
            tokens_tile(r@, 0, self.spec_source().len() as int),
    {
        proof {
            use_type_invariant(self);
        }
        self.tokens.as_slice()
    }

    /// The text again, put together from the tokens' spans.
    pub fn to_string(&self) -> (r: String)
        ensures
            r@ == tokens_text(self.spec_tokens(), self.spec_source()),
            r@ == self.spec_source(),
    {
        proof {
            use_type_invariant(self);
            lemma_text_of_tiles(self.tokens@, self.source@, 0, self.source@.len() as int);
        }
        let mut out: Vec<char> = Vec::new();
        let mut k: usize = 0;
        while k < self.tokens.len()
            invariant
                k <= self.tokens@.len(),
                tokens_tile(self.tokens@, 0, self.source@.len() as int),
                out@ == tokens_text(self.tokens@.subrange(0, k as int), self.source@),
            decreases self.tokens@.len() - k,
        {
            let t = self.tokens[k];
            proof {
                crate::parsers::lemma_token_in_tile(self.tokens@, 0, self.source@.len() as int, k as int);
            }
            let part = t.span.get_content(self.source.as_slice());
            let mut j: usize = 0;
            let ghost before = out@;
            while j < part.len()
                invariant
                    j <= part@.len(),
                    out@ == before + part@.subrange(0, j as int),
                decreases part@.len() - j,
            {
                out.push(part[j]);
                j += 1;
            }
            assert(self.tokens@.subrange(0, k + 1).drop_last() =~= self.tokens@.subrange(0, k as int));
            assert(out@ =~= before + part@);
            k += 1;
        }
        assert(self.tokens@.subrange(0, k as int) =~= self.tokens@);
        chars_to_string(out.as_slice())
    }
}

/// Kinds of tokens that a document indexes.
#[derive(Clone, Copy, Debug, PartialEq, Eq, Structural)]
pub enum TokenClass {
    Word,
    Number,
    /// A period, an exclamation mark or a question mark.
    SentenceTerminator,
}

pub open spec fn in_class(t: Token, c: TokenClass) -> bool {
    match c {
        TokenClass::Word => t.kind is Word,
        TokenClass::Number => t.kind is Number,
        TokenClass::SentenceTerminator => t.kind == TokenKind::Punctuation(Punctuation::Period)
            || t.kind == TokenKind::Punctuation(Punctuation::Bang) || t.kind
            == TokenKind::Punctuation(Punctuation::Question),
    }
}

/// The indices of the tokens of class `c`, in order.
pub open spec fn indices_of(toks: Seq<Token>, c: TokenClass) -> Seq<usize>
    decreases toks.len(),
{
    if toks.len() == 0 {
        Seq::empty()
    } else {
        let prev = indices_of(toks.drop_last(), c);
        if in_class(toks.last(), c) {
            prev.push((toks.len() - 1) as usize)
        } else {
            prev
        }
    }
}

/// Each opening quote with the closing quote it pairs with, in order.
pub open spec fn quote_pairs_of(toks: Seq<Token>) -> Seq<(usize, usize)>
    decreases toks.len(),
{
    if toks.len() == 0 {
        Seq::empty()
    } else {
        let prev = quote_pairs_of(toks.drop_last());
        let i = toks.len() - 1;
        match toks.last().kind {
            TokenKind::Quote(Some(j)) => if j > i {
                prev.push((i as usize, j))
            } else {
                prev
            },
            _ => prev,
        }
    }
}

fn in_class_exec(t: &Token, c: TokenClass) -> (r: bool)
    ensures
        r == in_class(*t, c),
{
    match c {
        TokenClass::Word => t.kind.is_word(),
        TokenClass::Number => matches!(t.kind, TokenKind::Number(_)),
        TokenClass::SentenceTerminator => t.kind == TokenKind::Punctuation(Punctuation::Period)
            || t.kind == TokenKind::Punctuation(Punctuation::Bang) || t.kind
            == TokenKind::Punctuation(Punctuation::Question),
    }
}

impl Document {
    /// The indices of the tokens of class `class`, in order.
    pub fn indices(&self, class: TokenClass) -> (r: Vec<usize>)
        ensures
            r@ == indices_of(self.spec_tokens(), class),
    {
        let mut out: Vec<usize> = Vec::new();
        let mut k: usize = 0;
        while k < self.tokens.len()
            invariant
                k <= self.tokens@.len(),
                out@ == indices_of(self.tokens@.subrange(0, k as int), class),
            decreases self.tokens@.len() - k,
        {
            assert(self.tokens@.subrange(0, k + 1).drop_last() =~= self.tokens@.subrange(0, k as int));
            if in_class_exec(&self.tokens[k], class) {
                out.push(k);
            }
            k += 1;
        }
        assert(self.tokens@.subrange(0, k as int) =~= self.tokens@);
        out
    }

    /// Each opening quote with its closing quote, as token indices.
    pub fn quote_pairs(&self) -> (r: Vec<(usize, usize)>)
        ensures
            r@ == quote_pairs_of(self.spec_tokens()),
    {
        let mut out: Vec<(usize, usize)> = Vec::new();
        let mut k: usize = 0;
        while k < self.tokens.len()
            invariant
                k <= self.tokens@.len(),
                out@ == quote_pairs_of(self.tokens@.subrange(0, k as int)),
            decreases self.tokens@.len() - k,
        {
            assert(self.tokens@.subrange(0, k + 1).drop_last() =~= self.tokens@.subrange(0, k as int));
            if let TokenKind::Quote(Some(j)) = self.tokens[k].kind {
                if j > k {
                    out.push((k, j));
                }
            }
            k += 1;
        }
        assert(self.tokens@.subrange(0, k as int) =~= self.tokens@);
        out
    }
}

/// Tokens that tile `[a, b)` give back exactly that text.
pub proof fn lemma_text_of_tiles(toks: Seq<Token>, src: Seq<char>, a: int, b: int)
    requires
        tokens_tile(toks, a, b),
        0 <= a <= b <= src.len(),
    ensures
        tokens_text(toks, src) == src.subrange(a, b),
    decreases toks.len(),
{
    if toks.len() > 0 {
        let init = toks.drop_last();
        let last = toks.last();
        crate::parsers::lemma_token_in_tile(toks, a, b, toks.len() - 1);
        if init.len() > 0 {
            assert(toks[toks.len() - 2].span.end == last.span.start);
            assert forall|k: int| 0 <= k < init.len() - 1 implies #[trigger] init[k].span.end
                == init[k + 1].span.start by {
                assert(toks[k].span.end == toks[k + 1].span.start);
            }
        }
        lemma_text_of_tiles(init, src, a, last.span.start as int);
        assert(src.subrange(a, last.span.start as int) + src.subrange(
            last.span.start as int,
            b,
        ) =~= src.subrange(a, b));
    }
}

} // verus!
