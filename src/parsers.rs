use vstd::prelude::*;

use crate::language::likely_english;
use crate::dictionary::{layers_lookup, unknown_metadata, MergedDictionary, WordMetadata};
use crate::lexer::{lex, lex_tokens, lemma_lex_from_tiles};
use crate::patterns::{all_matches, Pattern, SequencePattern};
use crate::quotes::{pair_quotes, paired_quotes};
use crate::span::Span;
use crate::token::{tokens_tile, Token, TokenKind};

verus! {

/// Turns characters into tokens.
pub enum Parser {
    /// English prose: the tokenizer, with quotes paired.
    PlainEnglish,
    /// Another parser, with known `word_word` and `word-word` runs made one word.
    CollapseIdentifiers(Box<CollapseIdentifiers>),
    /// Another parser, with runs of text that do not read as English made
    /// unlintable.
    IsolateEnglish(Box<IsolateEnglish>),
}

/// Wraps a parser; each chunk of adjacent non-whitespace tokens that does not
/// read as English becomes unlintable.
pub struct IsolateEnglish {
    pub inner: Parser,
    pub dict: MergedDictionary,
}

/// The first token of the chunk of non-whitespace tokens around `k`.
pub open spec fn chunk_start(toks: Seq<Token>, k: int) -> int
    decreases k,
{
    if k > 0 && k <= toks.len() && !toks[k - 1].kind.spec_is_whitespace() {
        chunk_start(toks, k - 1)
    } else {
        k
    }
}

/// One past the last token of the chunk of non-whitespace tokens around `k`.
pub open spec fn chunk_end(toks: Seq<Token>, k: int) -> int
    decreases toks.len() - k,
{
    if 0 <= k && k + 1 < toks.len() && !toks[k + 1].kind.spec_is_whitespace() {
        chunk_end(toks, k + 1)
    } else {
        k + 1
    }
}

pub open spec fn isolated_token(toks: Seq<Token>, src: Seq<char>, dict: Seq<crate::dictionary::Entries>, k: int) -> Token {
    if !toks[k].kind.spec_is_whitespace() && !likely_english(
        toks.subrange(chunk_start(toks, k), chunk_end(toks, k)),
        src,
        dict,
    ) {
        Token { span: toks[k].span, kind: TokenKind::Unlintable }
    } else {
        toks[k]
    }
}

pub open spec fn isolated(toks: Seq<Token>, src: Seq<char>, dict: Seq<crate::dictionary::Entries>) -> Seq<Token> {
    Seq::new(toks.len(), |k: int| isolated_token(toks, src, dict, k))
}

/// Wraps a parser; runs of `word (separator word)+` whose text the dictionary
/// knows become one word token.
pub struct CollapseIdentifiers {
    pub inner: Parser,
    pub dict: MergedDictionary,
    pub pattern: Pattern,
}

/// `p` matches a word followed by one or more pairs of a case separator and
/// a word.
pub open spec fn is_identifier_pattern(p: Pattern) -> bool {
    &&& p matches Pattern::Sequence(v)
    &&& v@.len() == 2
    &&& v@[0] == Pattern::AnyWord
    &&& v@[1] matches Pattern::Repeating(b)
    &&& *b matches Pattern::Sequence(w)
    &&& w@ == seq![Pattern::CaseSeparator, Pattern::AnyWord]
}

/// The source text that the tokens `w.start .. w.end` cover.
pub open spec fn window_text(toks: Seq<Token>, w: Span, src: Seq<char>) -> Seq<char> {
    src.subrange(toks[w.start as int].span.start as int, toks[w.end - 1].span.end as int)
}

pub open spec fn window_ok(toks: Seq<Token>, w: Span, src: Seq<char>) -> bool {
    &&& w.start < w.end <= toks.len()
    &&& toks[w.start as int].span.start <= toks[w.end - 1].span.end <= src.len()
}

pub open spec fn merged_token(toks: Seq<Token>, w: Span) -> Token {
    Token {
        span: Span { start: toks[w.start as int].span.start, end: toks[w.end - 1].span.end },
        kind: TokenKind::Word(unknown_metadata()),
    }
}

/// The tokens from `i` on, where each window of `wins` that starts there and
/// whose text `dict` knows becomes one word token.
pub open spec fn collapse_from(
    toks: Seq<Token>,
    wins: Seq<Span>,
    src: Seq<char>,
    dict: Seq<crate::dictionary::Entries>,
    i: int,
) -> Seq<Token>
    decreases toks.len() - i, wins.len(),
{
    if i < 0 || i >= toks.len() {
        Seq::empty()
    } else if wins.len() > 0 && wins[0].start == i && window_ok(toks, wins[0], src) {
        if layers_lookup(dict, window_text(toks, wins[0], src)) is Some {
            seq![merged_token(toks, wins[0])] + collapse_from(
                toks,
                wins.subrange(1, wins.len() as int),
                src,
                dict,
                wins[0].end as int,
            )
        } else {
            collapse_from(toks, wins.subrange(1, wins.len() as int), src, dict, i)
        }
    } else {
        seq![toks[i]] + collapse_from(toks, wins, src, dict, i + 1)
    }
}

/// The tokens that `p` makes of `src`.
pub open spec fn parse_spec(p: Parser, src: Seq<char>) -> Seq<Token>
    decreases p,
{
    match p {
        Parser::PlainEnglish => paired_quotes(lex(src)),
        Parser::CollapseIdentifiers(c) => {
            let toks = parse_spec(c.inner, src);
            paired_quotes(collapse_from(toks, all_matches(c.pattern, toks, src), src, c.dict@, 0))
        },
        Parser::IsolateEnglish(e) => paired_quotes(isolated(parse_spec(e.inner, src), src, e.dict@)),
    }
}

proof fn lemma_tile_start(toks: Seq<Token>, a: int, b: int, k: int)
    requires
        tokens_tile(toks, a, b),
        0 <= k < toks.len(),
    ensures
        a <= toks[k].span.start,
    decreases k,
{
    if k > 0 {
        lemma_tile_start(toks, a, b, k - 1);
        assert(toks[k - 1].span.end == toks[k].span.start);
    }
}

proof fn lemma_tile_end(toks: Seq<Token>, a: int, b: int, k: int)
    requires
        tokens_tile(toks, a, b),
        0 <= k < toks.len(),
    ensures
        toks[k].span.end <= b,
    decreases toks.len() - k,
{
    if k < toks.len() - 1 {
        lemma_tile_end(toks, a, b, k + 1);
        assert(toks[k].span.end == toks[k + 1].span.start);
    }
}

/// A token of a tiling lies within it.
pub proof fn lemma_token_in_tile(toks: Seq<Token>, a: int, b: int, k: int)
    requires
        tokens_tile(toks, a, b),
        0 <= k < toks.len(),
    ensures
        a <= toks[k].span.start < toks[k].span.end <= b,
{
    lemma_tile_start(toks, a, b, k);
    lemma_tile_end(toks, a, b, k);
}

pub proof fn lemma_tile_window(toks: Seq<Token>, a: int, b: int, s: int, e: int)
    requires
        tokens_tile(toks, a, b),
        0 <= s < e <= toks.len(),
    ensures
        toks[s].span.start < toks[e - 1].span.end,
        e < toks.len() ==> toks[e - 1].span.end == toks[e].span.start,
        a <= toks[s].span.start,
        toks[e - 1].span.end <= b,
    decreases e - s,
{
    lemma_tile_start(toks, a, b, s);
    lemma_tile_end(toks, a, b, e - 1);
    if e - 1 > s {
        lemma_tile_window(toks, a, b, s, e - 1);
        assert(toks[e - 2].span.end == toks[e - 1].span.start);
    }
    if e < toks.len() {
        assert(toks[e - 1].span.end == toks[e].span.start);
    }
}

/// Collapsing keeps the tokens tiling the source.
proof fn lemma_collapse_tiles(
    toks: Seq<Token>,
    wins: Seq<Span>,
    src: Seq<char>,
    dict: Seq<crate::dictionary::Entries>,
    a: int,
    b: int,
    i: int,
)
    requires
        tokens_tile(toks, a, b),
        0 <= i <= toks.len(),
    ensures
        tokens_tile(
            collapse_from(toks, wins, src, dict, i),
            if i < toks.len() { toks[i].span.start as int } else { b },
            b,
        ),
    decreases toks.len() - i, wins.len(),
{
    if i < toks.len() {
        if wins.len() > 0 && wins[0].start == i && window_ok(toks, wins[0], src) {
            let rest_w = wins.subrange(1, wins.len() as int);
            if layers_lookup(dict, window_text(toks, wins[0], src)) is Some {
                let e = wins[0].end as int;
                lemma_collapse_tiles(toks, rest_w, src, dict, a, b, e);
                lemma_tile_window(toks, a, b, i, e);
                let t = merged_token(toks, wins[0]);
                let rest = collapse_from(toks, rest_w, src, dict, e);
                let all = seq![t] + rest;
                assert(collapse_from(toks, wins, src, dict, i) == all);
                assert forall|k: int| 0 <= k < all.len() implies all[k].span.start
                    < all[k].span.end by {
                    if k > 0 {
                        assert(all[k] == rest[k - 1]);
                    }
                }
                assert forall|k: int| 0 <= k < all.len() - 1 implies #[trigger] all[k].span.end
                    == all[k + 1].span.start by {
                    if k > 0 {
                        assert(all[k] == rest[k - 1]);
                        assert(all[k + 1] == rest[k]);
                    }
                }
                if e == toks.len() {
                    lemma_tile_window(toks, a, b, 0, toks.len() as int);
                }
            } else {
                lemma_collapse_tiles(toks, rest_w, src, dict, a, b, i);
            }
        } else {
            lemma_collapse_tiles(toks, wins, src, dict, a, b, i + 1);
            lemma_tile_window(toks, a, b, i, i + 1);
            let rest = collapse_from(toks, wins, src, dict, i + 1);
            let all = seq![toks[i]] + rest;
            assert(collapse_from(toks, wins, src, dict, i) == all);
            assert forall|k: int| 0 <= k < all.len() implies all[k].span.start
                < all[k].span.end by {
                if k > 0 {
                    assert(all[k] == rest[k - 1]);
                }
            }
            assert forall|k: int| 0 <= k < all.len() - 1 implies #[trigger] all[k].span.end
                == all[k + 1].span.start by {
                if k > 0 {
                    assert(all[k] == rest[k - 1]);
                    assert(all[k + 1] == rest[k]);
                }
            }
            if i + 1 == toks.len() {
                lemma_tile_window(toks, a, b, 0, toks.len() as int);
            }
        }
    } else {
        if toks.len() > 0 {
            lemma_tile_window(toks, a, b, 0, toks.len() as int);
        }
    }
}

proof fn lemma_paired_quotes_tile(toks: Seq<Token>, a: int, b: int)
    requires
        tokens_tile(toks, a, b),
    ensures
        tokens_tile(paired_quotes(toks), a, b),
{
    let p = paired_quotes(toks);
    assert forall|k: int| 0 <= k < p.len() implies p[k].span == toks[k].span by {}
    assert forall|k: int| 0 <= k < p.len() - 1 implies #[trigger] p[k].span.end
        == p[k + 1].span.start by {
        assert(p[k].span == toks[k].span);
        assert(p[k + 1].span == toks[k + 1].span);
    }
}

/// Every parser's tokens tile its input.
pub proof fn lemma_parse_tiles(p: Parser, src: Seq<char>)
    requires
        src.len() <= usize::MAX,
    ensures
        tokens_tile(parse_spec(p, src), 0, src.len() as int),
    decreases p,
{
    match p {
        Parser::PlainEnglish => {
            lemma_lex_from_tiles(src, 0);
            lemma_paired_quotes_tile(lex(src), 0, src.len() as int);
        },
        Parser::CollapseIdentifiers(c) => {
            lemma_parse_tiles(c.inner, src);
            let toks = parse_spec(c.inner, src);
            lemma_collapse_tiles(
                toks,
                all_matches(c.pattern, toks, src),
                src,
                c.dict@,
                0,
                src.len() as int,
                0,
            );
            if toks.len() == 0 {
                assert(src.len() == 0);
            }
            lemma_paired_quotes_tile(
                collapse_from(toks, all_matches(c.pattern, toks, src), src, c.dict@, 0),
                0,
                src.len() as int,
            );
        },
        Parser::IsolateEnglish(e) => {
            lemma_parse_tiles(e.inner, src);
            let toks = parse_spec(e.inner, src);
            let r = isolated(toks, src, e.dict@);
            assert forall|k: int| 0 <= k < r.len() - 1 implies #[trigger] r[k].span.end
                == r[k + 1].span.start by {
                assert(toks[k].span.end == toks[k + 1].span.start);
            }
            lemma_paired_quotes_tile(r, 0, src.len() as int);
        },
    }
}

/// Every quote that pairs with another is the partner of that one.
pub open spec fn quotes_symmetric(toks: Seq<Token>) -> bool {
    forall|i: int|
        0 <= i < toks.len() && (#[trigger] toks[i].kind) is Quote && toks[i].kind->Quote_0 is Some
            ==> toks[i].kind->Quote_0->0 < toks.len() && toks[toks[i].kind->Quote_0->0 as int].kind
            == TokenKind::Quote(Some(i as usize))
}

proof fn lemma_chunk(toks: Seq<Token>, i: int, j: int, k: int)
    requires
        0 <= i <= k < j <= toks.len(),
        i == 0 || toks[i - 1].kind.spec_is_whitespace(),
        j == toks.len() || toks[j].kind.spec_is_whitespace(),
        forall|t: int| i <= t < j ==> !(#[trigger] toks[t].kind.spec_is_whitespace()),
    ensures
        chunk_start(toks, k) == i,
        chunk_end(toks, k) == j,
{
    lemma_chunk_start(toks, i, k);
    lemma_chunk_end(toks, j, k);
}

proof fn lemma_chunk_start(toks: Seq<Token>, i: int, k: int)
    requires
        0 <= i <= k < toks.len(),
        i == 0 || toks[i - 1].kind.spec_is_whitespace(),
        forall|t: int| i <= t <= k ==> !(#[trigger] toks[t].kind.spec_is_whitespace()),
    ensures
        chunk_start(toks, k) == i,
    decreases k,
{
    if k > i {
        lemma_chunk_start(toks, i, k - 1);
    }
}

proof fn lemma_chunk_end(toks: Seq<Token>, j: int, k: int)
    requires
        0 <= k < j <= toks.len(),
        j == toks.len() || toks[j].kind.spec_is_whitespace(),
        forall|t: int| k <= t < j ==> !(#[trigger] toks[t].kind.spec_is_whitespace()),
    ensures
        chunk_end(toks, k) == j,
    decreases j - k,
{
    if k + 1 < j {
        lemma_chunk_end(toks, j, k + 1);
    }
}

impl CollapseIdentifiers {
    pub fn new(inner: Parser, dict: MergedDictionary) -> (r: CollapseIdentifiers)
        ensures
            r.inner == inner,
            r.dict@ == dict@,
            is_identifier_pattern(r.pattern),
    {
        let separated = SequencePattern::new().then_case_separator().then_any_word();
        assert(separated.parts@ =~= seq![Pattern::CaseSeparator, Pattern::AnyWord]);
        let separated = separated.build();
        let first = SequencePattern::new().then_any_word();
        assert(first.parts@ =~= seq![Pattern::AnyWord]);
        let pattern = first.then_one_or_more(separated);
        assert(pattern.parts@.len() == 2);
        assert(pattern.parts@.drop_last()[0] == Pattern::AnyWord);
        let pattern = pattern.build();
        CollapseIdentifiers { inner, dict, pattern }
    }

    /// Makes each known identifier run of `toks` one word token.
    fn collapse(&self, toks: &Vec<Token>, source: &[char]) -> (r: Vec<Token>)
        ensures
            r@ == collapse_from(
                toks@,
                all_matches(self.pattern, toks@, source@),
                source@,
                self.dict@,
                0,
            ),
    {
        let wins = self.pattern.find_all_matches(toks.as_slice(), source);
        let ghost all = wins@;
        let mut out: Vec<Token> = Vec::new();
        let mut i: usize = 0;
        let mut w: usize = 0;
        assert(all.subrange(0, all.len() as int) =~= all);
        while i < toks.len()
            invariant
                i <= toks@.len(),
                w <= wins@.len(),
                all == wins@,
                out@ + collapse_from(toks@, all.subrange(w as int, all.len() as int), source@, self.dict@, i as int)
                    == collapse_from(toks@, all, source@, self.dict@, 0),
            decreases toks@.len() - i, wins@.len() - w,
        {
            let ghost rest = all.subrange(w as int, all.len() as int);
            let ghost rest1 = all.subrange(w + 1, all.len() as int);
            if w < wins.len() {
                assert(rest.subrange(1, rest.len() as int) =~= rest1);
            }
            if w < wins.len() && wins[w].start == i && wins[w].start < wins[w].end && wins[w].end
                <= toks.len() && toks[wins[w].start].span.start <= toks[wins[w].end - 1].span.end
                && toks[wins[w].end - 1].span.end <= source.len() {
                let win = wins[w];
                let span = Span::new(toks[win.start].span.start, toks[win.end - 1].span.end);
                let text = span.get_content(source);
                if self.dict.contains_word(text.as_slice()) {
                    let t = Token::new(span, TokenKind::Word(WordMetadata::default()));
                    assert(t == merged_token(toks@, win));
                    out.push(t);
                    assert(out@ + collapse_from(toks@, rest1, source@, self.dict@, win.end as int)
                        =~= out@.drop_last() + collapse_from(toks@, rest, source@, self.dict@, i as int));
                    i = win.end;
                }
                w += 1;
            } else {
                let t = toks[i];
                out.push(t);
                assert(out@ + collapse_from(toks@, rest, source@, self.dict@, i + 1)
                    =~= out@.drop_last() + collapse_from(toks@, rest, source@, self.dict@, i as int));
                i += 1;
            }
        }
        assert(out@ =~= collapse_from(toks@, all, source@, self.dict@, 0));
        out
    }
}

impl Parser {
    /// The tokens of `source`.
    pub fn parse(&self, source: &[char]) -> (r: Vec<Token>)
        ensures
            r@ == parse_spec(*self, source@),
            tokens_tile(r@, 0, source@.len() as int),
            quotes_symmetric(r@),
        decreases self,
    {
        let r = match self {
            Parser::PlainEnglish => {
                let mut tokens = lex_tokens(source);
                pair_quotes(&mut tokens);
                tokens
            },
            Parser::CollapseIdentifiers(c) => {
                let tokens = c.inner.parse(source);
                let mut collapsed = c.collapse(&tokens, source);
                pair_quotes(&mut collapsed);
                collapsed
            },
            Parser::IsolateEnglish(e) => {
                let tokens = e.inner.parse(source);
                let mut isolated = e.isolate(&tokens, source);
                pair_quotes(&mut isolated);
                isolated
            },
        };
        proof {
            lemma_parse_tiles(*self, source@);
        }
        let n = r.len();
        proof {
            let unpaired = match self {
                Parser::PlainEnglish => lex(source@),
                Parser::CollapseIdentifiers(c) => {
                    let toks = parse_spec(c.inner, source@);
                    collapse_from(toks, all_matches(c.pattern, toks, source@), source@, c.dict@, 0)
                },
                Parser::IsolateEnglish(e) => isolated(parse_spec(e.inner, source@), source@, e.dict@),
            };
            assert(r@ == paired_quotes(unpaired));
            assert forall|i: int|
                0 <= i < r@.len() && (#[trigger] r@[i].kind) is Quote && r@[i].kind->Quote_0 is Some
                    implies r@[i].kind->Quote_0->0 < r@.len() && r@[r@[i].kind->Quote_0->0 as int].kind
                    == TokenKind::Quote(Some(i as usize)) by {
                crate::quotes::lemma_quote_pairing_symmetric(unpaired, i, r@[i].kind->Quote_0->0);
            }
        }
        r
    }

    pub fn parse_str(&self, source: &str) -> (r: Vec<Token>)
        ensures
            r@ == parse_spec(*self, source@),
    {
        let chars = crate::text::str_to_chars(source);
        self.parse(chars.as_slice())
    }
}

impl IsolateEnglish {
    pub fn new(inner: Parser, dict: MergedDictionary) -> (r: IsolateEnglish)
        ensures
            r.inner == inner,
            r.dict@ == dict@,
    {
        IsolateEnglish { inner, dict }
    }

    /// Makes each chunk of `toks` that does not read as English unlintable.
    fn isolate(&self, toks: &Vec<Token>, source: &[char]) -> (r: Vec<Token>)
        ensures
            r@ == isolated(toks@, source@, self.dict@),
    {
        let ghost want = isolated(toks@, source@, self.dict@);
        let mut out: Vec<Token> = Vec::new();
        let mut i: usize = 0;
        while i < toks.len()
            invariant
                i <= toks@.len(),
                want == isolated(toks@, source@, self.dict@),
                i == 0 || i == toks@.len() || toks@[i - 1].kind.spec_is_whitespace()
                    || toks@[i as int].kind.spec_is_whitespace(),
                out@ == want.subrange(0, i as int),
            decreases toks@.len() - i,
        {
            if toks[i].kind.is_whitespace() {
                out.push(toks[i]);
                assert(out@ =~= want.subrange(0, i + 1));
                i += 1;
            } else {
                let mut j: usize = i + 1;
                while j < toks.len() && !toks[j].kind.is_whitespace()
                    invariant
                        i < j <= toks@.len(),
                        forall|t: int| i <= t < j ==> !(#[trigger] toks@[t].kind.spec_is_whitespace()),
                    decreases toks@.len() - j,
                {
                    j += 1;
                }
                let chunk = &toks[i..j];
                assert(chunk@ == toks@.subrange(i as int, j as int));
                let english = crate::language::tokens_likely_english(chunk, source, &self.dict);
                let mut k: usize = i;
                while k < j
                    invariant
                        i <= k <= j <= toks@.len(),
                        i == 0 || toks@[i - 1].kind.spec_is_whitespace(),
                        j == toks@.len() || toks@[j as int].kind.spec_is_whitespace(),
                        forall|t: int| i <= t < j ==> !(#[trigger] toks@[t].kind.spec_is_whitespace()),
                        english == likely_english(toks@.subrange(i as int, j as int), source@, self.dict@),
                        want == isolated(toks@, source@, self.dict@),
                        out@ == want.subrange(0, k as int),
                    decreases j - k,
                {
                    proof {
                        lemma_chunk(toks@, i as int, j as int, k as int);
                    }
                    let t = toks[k];
                    if english {
                        out.push(t);
                    } else {
                        out.push(Token { span: t.span, kind: TokenKind::Unlintable });
                    }
                    assert(out@ =~= want.subrange(0, k + 1));
                    k += 1;
                }
                i = j;
            }
        }
        assert(want.subrange(0, i as int) =~= want);
        out
    }
}

} // verus!
