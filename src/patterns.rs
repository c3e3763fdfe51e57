use vstd::prelude::*;

use crate::span::Span;
use crate::text::{ascii_lowered, chars_equal, str_to_chars, to_ascii_lower};
use crate::token::{Punctuation, Token, TokenKind};

verus! {

/// A word and the pattern to try when a token spells it.
pub struct WordPattern {
    pub word: Vec<char>,
    pub pattern: Pattern,
}

/// Tries the pattern of the word that the first token spells.
pub struct WordPatternGroup {
    pub entries: Vec<WordPattern>,
}

/// Matches one token wherever its inner pattern does not match.
pub struct Invert {
    pub inner: Box<Pattern>,
}

/// A matcher over tokens: given tokens and the source, how many leading
/// tokens it takes (0 for no match).
pub enum Pattern {
    AnyWord,
    ExactWord(Vec<char>),
    ExactWordOrLowercase(Vec<char>),
    Noun,
    Adjective,
    Adverb,
    /// A run of spaces and line breaks.
    Whitespace,
    /// An `_` or a `-`.
    CaseSeparator,
    /// Each part matches after the one before it.
    Sequence(Vec<Pattern>),
    /// The first alternative that matches.
    Either(Vec<Pattern>),
    Invert(Invert),
    WordGroup(WordPatternGroup),
    /// One or more matches of the inner pattern, as many as there are.
    Repeating(Box<Pattern>),
}

/// The characters of the token, when its span lies within the source.
pub open spec fn token_chars(t: Token, src: Seq<char>) -> Seq<char> {
    src.subrange(t.span.start as int, t.span.end as int)
}

pub open spec fn span_in(t: Token, src: Seq<char>) -> bool {
    t.span.start <= t.span.end <= src.len()
}

pub open spec fn is_word_token(toks: Seq<Token>) -> bool {
    toks.len() > 0 && toks[0].kind is Word
}

/// The length of the run of whitespace tokens at the front of `toks`.
pub open spec fn whitespace_run(toks: Seq<Token>) -> nat
    decreases toks.len(),
{
    if toks.len() > 0 && toks[0].kind.spec_is_whitespace() {
        1 + whitespace_run(toks.subrange(1, toks.len() as int))
    } else {
        0
    }
}

/// How many leading tokens of `toks` the pattern `p` takes.
pub open spec fn pattern_len(p: Pattern, toks: Seq<Token>, src: Seq<char>) -> nat
    decreases p, 0nat,
{
    match p {
        Pattern::AnyWord => if is_word_token(toks) { 1 } else { 0 },
        Pattern::ExactWord(w) => if is_word_token(toks) && span_in(toks[0], src) && token_chars(
            toks[0],
            src,
        ) == w@ {
            1
        } else {
            0
        },
        Pattern::ExactWordOrLowercase(w) => if is_word_token(toks) && span_in(toks[0], src) && (
        token_chars(toks[0], src) == w@ || ascii_lowered(w@, token_chars(toks[0], src))) {
            1
        } else {
            0
        },
        Pattern::Noun => if is_word_token(toks) && toks[0].kind->Word_0.is_noun == Some(true) {
            1
        } else {
            0
        },
        Pattern::Adjective => if is_word_token(toks) && toks[0].kind->Word_0.is_adjective == Some(
            true,
        ) {
            1
        } else {
            0
        },
        Pattern::Adverb => if is_word_token(toks) && toks[0].kind->Word_0.is_adverb == Some(true) {
            1
        } else {
            0
        },
        Pattern::Whitespace => whitespace_run(toks),
        Pattern::CaseSeparator => if toks.len() > 0 && (toks[0].kind == TokenKind::Punctuation(
            Punctuation::Underscore,
        ) || toks[0].kind == TokenKind::Punctuation(Punctuation::Hyphen)) {
            1
        } else {
            0
        },
        Pattern::Sequence(v) => sequence_len(v@, toks, src),
        Pattern::Either(v) => either_len(v@, toks, src),
        Pattern::Invert(inv) => if pattern_len(*inv.inner, toks, src) != 0 {
            0
        } else {
            1
        },
        Pattern::WordGroup(g) => if is_word_token(toks) && span_in(toks[0], src) {
            group_len(g.entries@, toks, src)
        } else {
            0
        },
        Pattern::Repeating(inner) => repeat_len(*inner, toks, src),
    }
}

/// Each of `ps` in turn, on the tokens that the ones before left; 0 when
/// any of them does not match.
pub open spec fn sequence_len(ps: Seq<Pattern>, toks: Seq<Token>, src: Seq<char>) -> nat
    decreases ps, 0nat,
{
    if ps.len() == 0 {
        0
    } else {
        let l = pattern_len(ps[0], toks, src);
        if l == 0 || l > toks.len() {
            0
        } else if ps.len() == 1 {
            l
        } else {
            let r = sequence_len(
                ps.subrange(1, ps.len() as int),
                toks.subrange(l as int, toks.len() as int),
                src,
            );
            if r == 0 {
                0
            } else {
                l + r
            }
        }
    }
}

/// The first of `ps` that matches.
pub open spec fn either_len(ps: Seq<Pattern>, toks: Seq<Token>, src: Seq<char>) -> nat
    decreases ps, 0nat,
{
    if ps.len() == 0 {
        0
    } else {
        let l = pattern_len(ps[0], toks, src);
        if l != 0 {
            l
        } else {
            either_len(ps.subrange(1, ps.len() as int), toks, src)
        }
    }
}

/// The pattern of the first entry whose word the first token spells.
pub open spec fn group_len(entries: Seq<WordPattern>, toks: Seq<Token>, src: Seq<char>) -> nat
    decreases entries, 0nat,
{
    if entries.len() == 0 {
        0
    } else if entries[0].word@ == token_chars(toks[0], src) {
        pattern_len(entries[0].pattern, toks, src)
    } else {
        group_len(entries.subrange(1, entries.len() as int), toks, src)
    }
}

/// Matches of `inner` one after another, as long as they go on.
pub open spec fn repeat_len(inner: Pattern, toks: Seq<Token>, src: Seq<char>) -> nat
    decreases inner, toks.len() + 1,
{
    let l = pattern_len(inner, toks, src);
    if l == 0 || l > toks.len() {
        0
    } else {
        l + repeat_len(inner, toks.subrange(l as int, toks.len() as int), src)
    }
}

pub(crate) fn whitespace_matches(toks: &[Token]) -> (r: usize)
    ensures
        r == whitespace_run(toks@),
        r <= toks@.len(),
{
    let mut i: usize = 0;
    assert(toks@.subrange(0, toks@.len() as int) =~= toks@);
    while i < toks.len() && toks[i].kind.is_whitespace()
        invariant
            i <= toks@.len(),
            forall|k: int| 0 <= k < i ==> (#[trigger] toks@[k]).kind.spec_is_whitespace(),
            whitespace_run(toks@) == i + whitespace_run(toks@.subrange(i as int, toks@.len() as int)),
        decreases toks@.len() - i,
    {
        assert(toks@.subrange(i as int, toks@.len() as int).subrange(1, toks@.len() - i)
            =~= toks@.subrange(i + 1, toks@.len() as int));
        i += 1;
    }
    proof {
        let rest = toks@.subrange(i as int, toks@.len() as int);
        if rest.len() > 0 {
            assert(rest[0] == toks@[i as int]);
        }
    }
    i
}

fn word_token_chars(t: &Token, src: &[char]) -> (r: Option<Vec<char>>)
    ensures
        r is Some <==> span_in(*t, src@),
        r is Some ==> r->0@ == token_chars(*t, src@),
{
    if t.span.start <= t.span.end && t.span.end <= src.len() {
        Some(t.span.get_content(src))
    } else {
        None
    }
}

fn flag_is_true(f: Option<bool>) -> (r: bool)
    ensures
        r == (f == Some(true)),
{
    match f {
        Some(b) => b,
        None => false,
    }
}

impl Pattern {
    /// How many leading tokens of `tokens` this pattern takes; 0 for no
    /// match.
    pub fn matches(&self, tokens: &[Token], source: &[char]) -> (r: usize)
        ensures
            r == pattern_len(*self, tokens@, source@),
        decreases self, 0nat,
    {
        match self {
            Pattern::AnyWord => if tokens.len() > 0 && tokens[0].kind.is_word() {
                1
            } else {
                0
            },
            Pattern::ExactWord(w) => {
                if tokens.len() == 0 || !tokens[0].kind.is_word() {
                    return 0;
                }
                match word_token_chars(&tokens[0], source) {
                    Some(chars) => if chars_equal(chars.as_slice(), w.as_slice()) {
                        1
                    } else {
                        0
                    },
                    None => 0,
                }
            },
            Pattern::ExactWordOrLowercase(w) => {
                if tokens.len() == 0 || !tokens[0].kind.is_word() {
                    return 0;
                }
                match word_token_chars(&tokens[0], source) {
                    Some(chars) => {
                        let lowered = to_ascii_lower(w.as_slice());
                        proof {
                            crate::text::lemma_ascii_lowered_unique(w@, lowered@, chars@);
                        }
                        if chars_equal(chars.as_slice(), w.as_slice()) || chars_equal(
                            chars.as_slice(),
                            lowered.as_slice(),
                        ) {
                            1
                        } else {
                            0
                        }
                    },
                    None => 0,
                }
            },
            Pattern::Noun => match tokens.first() {
                Some(Token { kind: TokenKind::Word(m), .. }) => if flag_is_true(m.is_noun) {
                    1
                } else {
                    0
                },
                _ => 0,
            },
            Pattern::Adjective => match tokens.first() {
                Some(Token { kind: TokenKind::Word(m), .. }) => if flag_is_true(m.is_adjective) {
                    1
                } else {
                    0
                },
                _ => 0,
            },
            Pattern::Adverb => match tokens.first() {
                Some(Token { kind: TokenKind::Word(m), .. }) => if flag_is_true(m.is_adverb) {
                    1
                } else {
                    0
                },
                _ => 0,
            },
            Pattern::Whitespace => whitespace_matches(tokens),
            Pattern::CaseSeparator => {
                if tokens.len() > 0 && (tokens[0].kind == TokenKind::Punctuation(
                    Punctuation::Underscore,
                ) || tokens[0].kind == TokenKind::Punctuation(Punctuation::Hyphen)) {
                    1
                } else {
                    0
                }
            },
            Pattern::Sequence(v) => sequence_matches(v.as_slice(), tokens, source),
            Pattern::Either(v) => either_matches(v.as_slice(), tokens, source),
            Pattern::Invert(inv) => inv.matches(tokens, source),
            Pattern::WordGroup(g) => {
                if tokens.len() == 0 || !tokens[0].kind.is_word() {
                    return 0;
                }
                match word_token_chars(&tokens[0], source) {
                    Some(chars) => group_matches(g.entries.as_slice(), chars.as_slice(), tokens, source),
                    None => 0,
                }
            },
            Pattern::Repeating(inner) => repeat_matches(inner, tokens, source),
        }
    }
}

impl Invert {
    pub fn new(inner: Pattern) -> (r: Invert)
        ensures
            *r.inner == inner,
    {
        Invert { inner: Box::new(inner) }
    }

    /// One token where the inner pattern does not match; none where it does.
    pub fn matches(&self, tokens: &[Token], source: &[char]) -> (r: usize)
        ensures
            r == (if pattern_len(*self.inner, tokens@, source@) != 0 { 0nat } else { 1nat }),
        decreases self, 1nat,
    {
        if self.inner.matches(tokens, source) != 0 {
            0
        } else {
            1
        }
    }
}

proof fn lemma_sequence_len_bound(ps: Seq<Pattern>, toks: Seq<Token>, src: Seq<char>)
    ensures
        sequence_len(ps, toks, src) <= toks.len(),
    decreases ps.len(),
{
    if ps.len() > 1 {
        let l = pattern_len(ps[0], toks, src);
        if l != 0 && l <= toks.len() {
            lemma_sequence_len_bound(
                ps.subrange(1, ps.len() as int),
                toks.subrange(l as int, toks.len() as int),
                src,
            );
        }
    }
}

fn sequence_matches(ps: &[Pattern], tokens: &[Token], source: &[char]) -> (r: usize)
    ensures
        r == sequence_len(ps@, tokens@, source@),
    decreases ps@, 0nat,
{
    if ps.len() == 0 {
        return 0;
    }
    let l = ps[0].matches(tokens, source);
    if l == 0 || l > tokens.len() {
        return 0;
    }
    if ps.len() == 1 {
        return l;
    }
    let rest = &ps[1..ps.len()];
    let after = &tokens[l..tokens.len()];
    assert(rest@ == ps@.subrange(1, ps@.len() as int));
    let r = sequence_matches(rest, after, source);
    if r == 0 {
        0
    } else {
        proof {
            lemma_sequence_len_bound(rest@, after@, source@);
        }
        l + r
    }
}

fn either_matches(ps: &[Pattern], tokens: &[Token], source: &[char]) -> (r: usize)
    ensures
        r == either_len(ps@, tokens@, source@),
    decreases ps@, 0nat,
{
    if ps.len() == 0 {
        return 0;
    }
    let l = ps[0].matches(tokens, source);
    if l != 0 {
        return l;
    }
    let rest = &ps[1..ps.len()];
    assert(rest@ == ps@.subrange(1, ps@.len() as int));
    either_matches(rest, tokens, source)
}

fn group_matches(entries: &[WordPattern], word: &[char], tokens: &[Token], source: &[char]) -> (r:
    usize)
    requires
        tokens@.len() > 0,
        word@ == token_chars(tokens@[0], source@),
    ensures
        r == group_len(entries@, tokens@, source@),
    decreases entries@, 0nat,
{
    if entries.len() == 0 {
        return 0;
    }
    if chars_equal(entries[0].word.as_slice(), word) {
        return entries[0].pattern.matches(tokens, source);
    }
    let rest = &entries[1..entries.len()];
    assert(rest@ == entries@.subrange(1, entries@.len() as int));
    group_matches(rest, word, tokens, source)
}

fn repeat_matches(inner: &Pattern, tokens: &[Token], source: &[char]) -> (r: usize)
    ensures
        r == repeat_len(*inner, tokens@, source@),
    decreases inner, 1nat,
{
    let mut total: usize = 0;
    assert(tokens@.subrange(0, tokens@.len() as int) =~= tokens@);
    loop
        invariant
            total <= tokens@.len(),
            repeat_len(*inner, tokens@, source@) == total + repeat_len(
                *inner,
                tokens@.subrange(total as int, tokens@.len() as int),
                source@,
            ),
        decreases tokens@.len() - total,
    {
        let rest = &tokens[total..tokens.len()];
        let l = inner.matches(rest, source);
        if l == 0 || l > rest.len() {
            return total;
        }
        assert(rest@.subrange(l as int, rest@.len() as int) =~= tokens@.subrange(
            total + l,
            tokens@.len() as int,
        ));
        total = total + l;
    }
}

/// The windows of `toks` that `p` matches, found greedily from `i` on: a
/// match of length `l` at `j` is kept and the scan goes on at `j + l`.
pub open spec fn matches_from(p: Pattern, toks: Seq<Token>, src: Seq<char>, i: int) -> Seq<Span>
    decreases toks.len() - i,
{
    if i < 0 || i >= toks.len() {
        Seq::empty()
    } else {
        let l = pattern_len(p, toks.subrange(i, toks.len() as int), src);
        if l == 0 || l > toks.len() - i {
            matches_from(p, toks, src, i + 1)
        } else {
            seq![Span { start: i as usize, end: (i + l) as usize }] + matches_from(
                p,
                toks,
                src,
                i + l,
            )
        }
    }
}

/// Patterns that take the same tokens everywhere find the same windows.
pub proof fn lemma_matches_from_agree(p: Pattern, q: Pattern, toks: Seq<Token>, src: Seq<char>, i: int)
    requires
        forall|t: Seq<Token>| #[trigger] pattern_len(p, t, src) == pattern_len(q, t, src),
    ensures
        matches_from(p, toks, src, i) == matches_from(q, toks, src, i),
    decreases toks.len() - i,
{
    if 0 <= i < toks.len() {
        let t = toks.subrange(i, toks.len() as int);
        assert(pattern_len(p, t, src) == pattern_len(q, t, src));
        lemma_matches_from_agree(p, q, toks, src, i + 1);
        let l = pattern_len(p, t, src);
        if l != 0 && l <= toks.len() - i {
            lemma_matches_from_agree(p, q, toks, src, i + l);
        }
    }
}

pub open spec fn all_matches(p: Pattern, toks: Seq<Token>, src: Seq<char>) -> Seq<Span> {
    matches_from(p, toks, src, 0)
}

impl Pattern {
    /// The non-overlapping windows of `tokens` that this pattern matches,
    /// left to right, as token index ranges.
    pub fn find_all_matches(&self, tokens: &[Token], source: &[char]) -> (r: Vec<Span>)
        ensures
            r@ == all_matches(*self, tokens@, source@),
    {
        let mut found: Vec<Span> = Vec::new();
        let mut i: usize = 0;
        while i < tokens.len()
            invariant
                i <= tokens@.len(),
                found@ + matches_from(*self, tokens@, source@, i as int) == all_matches(
                    *self,
                    tokens@,
                    source@,
                ),
            decreases tokens@.len() - i,
        {
            let rest = &tokens[i..tokens.len()];
            let l = self.matches(rest, source);
            assert(tokens@.subrange(i as int, tokens@.len() as int) == rest@);
            if l == 0 || l > tokens.len() - i {
                i += 1;
            } else {
                let s = Span { start: i, end: i + l };
                found.push(s);
                assert(found@ + matches_from(*self, tokens@, source@, (i + l) as int)
                    =~= found@.drop_last() + matches_from(*self, tokens@, source@, i as int));
                i += l;
            }
        }
        assert(found@ =~= all_matches(*self, tokens@, source@));
        found
    }
}

/// Builds a `Pattern::Sequence` part by part.
pub struct SequencePattern {
    pub parts: Vec<Pattern>,
}

impl SequencePattern {
    pub fn new() -> (r: SequencePattern)
        ensures
            r.parts@.len() == 0,
    {
        SequencePattern { parts: Vec::new() }
    }

    pub fn then_pattern(self, p: Pattern) -> (r: SequencePattern)
        ensures
            r.parts@ == self.parts@.push(p),
    {
        let mut parts = self.parts;
        parts.push(p);
        SequencePattern { parts }
    }

    pub fn then_any_word(self) -> (r: SequencePattern)
        ensures
            r.parts@ == self.parts@.push(Pattern::AnyWord),
    {
        self.then_pattern(Pattern::AnyWord)
    }

    pub fn then_exact_word(self, word: &str) -> (r: SequencePattern)
        ensures
            r.parts@.len() == self.parts@.len() + 1,
            r.parts@.drop_last() == self.parts@,
            r.parts@.last() matches Pattern::ExactWord(w) && w@ == word@,
    {
        self.then_pattern(Pattern::ExactWord(str_to_chars(word)))
    }

    pub fn then_exact_word_or_lowercase(self, word: &str) -> (r: SequencePattern)
        ensures
            r.parts@.len() == self.parts@.len() + 1,
            r.parts@.drop_last() == self.parts@,
            r.parts@.last() matches Pattern::ExactWordOrLowercase(w) && w@ == word@,
    {
        self.then_pattern(Pattern::ExactWordOrLowercase(str_to_chars(word)))
    }

    pub fn then_noun(self) -> (r: SequencePattern)
        ensures
            r.parts@ == self.parts@.push(Pattern::Noun),
    {
        self.then_pattern(Pattern::Noun)
    }

    pub fn then_adjective(self) -> (r: SequencePattern)
        ensures
            r.parts@ == self.parts@.push(Pattern::Adjective),
    {
        self.then_pattern(Pattern::Adjective)
    }

    pub fn then_adverb(self) -> (r: SequencePattern)
        ensures
            r.parts@ == self.parts@.push(Pattern::Adverb),
    {
        self.then_pattern(Pattern::Adverb)
    }

    pub fn then_whitespace(self) -> (r: SequencePattern)
        ensures
            r.parts@ == self.parts@.push(Pattern::Whitespace),
    {
        self.then_pattern(Pattern::Whitespace)
    }

    pub fn then_case_separator(self) -> (r: SequencePattern)
        ensures
            r.parts@ == self.parts@.push(Pattern::CaseSeparator),
    {
        self.then_pattern(Pattern::CaseSeparator)
    }

    pub fn then_one_or_more(self, inner: Pattern) -> (r: SequencePattern)
        ensures
            r.parts@.len() == self.parts@.len() + 1,
            r.parts@.drop_last() == self.parts@,
            r.parts@.last() matches Pattern::Repeating(b) && *b == inner,
    {
        self.then_pattern(Pattern::Repeating(Box::new(inner)))
    }

    pub fn then_one_or_more_adjectives(self) -> (r: SequencePattern)
        ensures
            r.parts@.len() == self.parts@.len() + 1,
            r.parts@.drop_last() == self.parts@,
            r.parts@.last() matches Pattern::Repeating(b) && *b == Pattern::Adjective,
    {
        self.then_one_or_more(Pattern::Adjective)
    }

    pub fn build(self) -> (r: Pattern)
        ensures
            r matches Pattern::Sequence(v) && v@ == self.parts@,
    {
        Pattern::Sequence(self.parts)
    }
}

impl WordPatternGroup {
    pub fn new() -> (r: WordPatternGroup)
        ensures
            r.entries@.len() == 0,
    {
        WordPatternGroup { entries: Vec::new() }
    }

    /// Tries `pattern` where the first token spells `word`.
    pub fn add(&mut self, word: &str, pattern: Pattern)
        ensures
            final(self).entries@.len() == old(self).entries@.len() + 1,
            final(self).entries@.drop_last() == old(self).entries@,
            final(self).entries@.last().word@ == word@,
            final(self).entries@.last().pattern == pattern,
    {
        self.entries.push(WordPattern { word: str_to_chars(word), pattern });
    }
}

} // verus!
