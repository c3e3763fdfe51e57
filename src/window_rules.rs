use vstd::prelude::*;

use crate::document::Document;
use crate::linting::{lemma_lints_view_push, lints_view, Lint, LintKind, LintView, Suggestion, SuggestionView};
use crate::patterns::{span_in, token_chars};
use crate::repeated_words::same_word;
use crate::span::Span;
use crate::text::{chars_equal, is_ascii_upper, str_to_chars};
use crate::token::{Punctuation, Token, TokenKind};
use crate::token_rules::{advisory_lint, simple_lint};

verus! {

/// The rules that judge a token by its neighbours.
#[derive(Clone, Copy, Debug, PartialEq, Eq, Structural)]
pub enum WindowRule {
    /// `a` before a vowel, or `an` before a consonant.
    AnA,
    /// Two pronouns in a row.
    MultipleSequentialPronouns,
    /// A linking verb followed by `that`.
    LinkingVerbs,
    /// A restrictive `which` right after a noun.
    ThatWhich,
    /// A conjunction that ends a sentence.
    TerminatingConjunctions,
    /// A straight double quote in prose.
    WrongQuotes,
    /// A run of two, or more than three, periods.
    EllipsisLength,
    /// A known word in small letters that starts a sentence.
    SentenceCapitalization,
    /// A sentence of more than forty words.
    LongSentences,
    /// A phrase of a fixed table with a better form.
    Matcher,
}

pub const PHRASE_COUNT: usize = 9;

/// The table of phrases: one or two words, and what to write instead.
pub open spec fn phrase(k: int) -> (Seq<char>, Option<Seq<char>>, Seq<char>) {
    if k == 0 {
        ("wanna"@, None, "want to"@)
    } else if k == 1 {
        ("gonna"@, None, "going to"@)
    } else if k == 2 {
        ("alot"@, None, "a lot"@)
    } else if k == 3 {
        ("eachother"@, None, "each other"@)
    } else if k == 4 {
        ("irregardless"@, None, "regardless"@)
    } else if k == 5 {
        ("could"@, Some("of"@), "could have"@)
    } else if k == 6 {
        ("should"@, Some("of"@), "should have"@)
    } else if k == 7 {
        ("would"@, Some("of"@), "would have"@)
    } else if k == 8 {
        ("per"@, Some("say"@), "per se"@)
    } else {
        (""@, None, ""@)
    }
}

/// The phrase `k` starts at token `i`.
pub open spec fn phrase_at(toks: Seq<Token>, src: Seq<char>, i: int, k: int) -> bool {
    match phrase(k).1 {
        None => is_word_at(toks, src, i) && text_at(toks, src, i) == phrase(k).0,
        Some(w) => word_pair_at(toks, src, i) && text_at(toks, src, i) == phrase(k).0 && text_at(
            toks,
            src,
            i + 2,
        ) == w,
    }
}

/// The first phrase from `k` on that starts at token `i`.
pub open spec fn first_phrase(toks: Seq<Token>, src: Seq<char>, i: int, k: int) -> Option<int>
    decreases PHRASE_COUNT - k,
{
    if k < 0 || k >= PHRASE_COUNT {
        None
    } else if phrase_at(toks, src, i, k) {
        Some(k)
    } else {
        first_phrase(toks, src, i, k + 1)
    }
}

pub proof fn lemma_first_phrase(toks: Seq<Token>, src: Seq<char>, i: int, j: int)
    requires
        0 <= j,
    ensures
        first_phrase(toks, src, i, j) matches Some(k) ==> j <= k < PHRASE_COUNT && phrase_at(
            toks,
            src,
            i,
            k,
        ),
    decreases PHRASE_COUNT - j,
{
    if j < PHRASE_COUNT && !phrase_at(toks, src, i, j) {
        lemma_first_phrase(toks, src, i, j + 1);
    }
}

/// The last token of phrase `k` at `i`.
pub open spec fn phrase_last(i: int, k: int) -> int {
    if phrase(k).1 is Some { i + 2 } else { i }
}

/// The last token before `i` that is neither whitespace nor a quote.
pub open spec fn previous_content(toks: Seq<Token>, i: int) -> Option<int>
    decreases i,
{
    if i <= 0 || i > toks.len() {
        None
    } else if toks[i - 1].kind.spec_is_whitespace() || toks[i - 1].kind is Quote {
        previous_content(toks, i - 1)
    } else {
        Some(i - 1)
    }
}

/// Nothing but whitespace and quotes stands between `i` and the text's
/// start or the end of the sentence before.
pub open spec fn starts_sentence(toks: Seq<Token>, i: int) -> bool {
    match previous_content(toks, i) {
        None => true,
        Some(p) => is_terminator(toks[p]),
    }
}

pub open spec fn is_ascii_lower(c: char) -> bool {
    'a' <= c <= 'z'
}

/// `w` with its first letter made a capital.
pub open spec fn capitalized(w: Seq<char>) -> Seq<char> {
    Seq::new(w.len(), |k: int| if k == 0 { ((w[0] as u32) - 32) as char } else { w[k] })
}

/// One past the terminator that ends the sentence going on at `i`, or the
/// end of the tokens.
pub open spec fn sentence_end(toks: Seq<Token>, i: int) -> int
    decreases toks.len() - i,
{
    if i < 0 || i >= toks.len() {
        toks.len() as int
    } else if is_terminator(toks[i]) {
        i + 1
    } else {
        sentence_end(toks, i + 1)
    }
}

/// The number of words among `toks[a..b]`.
pub open spec fn word_count(toks: Seq<Token>, a: int, b: int) -> nat
    decreases b - a,
{
    if b <= a {
        0
    } else {
        word_count(toks, a, b - 1) + if toks[b - 1].kind is Word { 1nat } else { 0nat }
    }
}

pub const LONG_SENTENCE_WORDS: u64 = 40;

pub open spec fn is_word_at(toks: Seq<Token>, src: Seq<char>, i: int) -> bool {
    0 <= i < toks.len() && toks[i].kind is Word && span_in(toks[i], src)
}

pub open spec fn text_at(toks: Seq<Token>, src: Seq<char>, i: int) -> Seq<char> {
    token_chars(toks[i], src)
}

/// A word, whitespace, and another word start at `i`.
pub open spec fn word_pair_at(toks: Seq<Token>, src: Seq<char>, i: int) -> bool {
    is_word_at(toks, src, i) && i + 2 < toks.len() && toks[i + 1].kind.spec_is_whitespace()
        && is_word_at(toks, src, i + 2)
}

pub open spec fn is_vowel(c: char) -> bool {
    c == 'a' || c == 'e' || c == 'i' || c == 'o' || c == 'u' || c == 'A' || c == 'E' || c == 'I'
        || c == 'O' || c == 'U'
}

pub open spec fn is_ascii_letter(c: char) -> bool {
    ('a' <= c <= 'z') || ('A' <= c <= 'Z')
}

/// The article that should stand before `next`, if `w` is the wrong one:
/// `an` before a vowel, `a` before another letter, capitalized as `w` is.
pub open spec fn better_article(w: Seq<char>, next: Seq<char>) -> Option<Seq<char>> {
    if next.len() == 0 || w.len() == 0 {
        None
    } else if same_word(w, "a"@) && is_vowel(next[0]) {
        Some(if is_ascii_upper(w[0]) { "An"@ } else { "an"@ })
    } else if same_word(w, "an"@) && is_ascii_letter(next[0]) && !is_vowel(next[0]) {
        Some(if is_ascii_upper(w[0]) { "A"@ } else { "a"@ })
    } else {
        None
    }
}

pub open spec fn is_terminator(t: Token) -> bool {
    t.kind == TokenKind::Punctuation(Punctuation::Period) || t.kind == TokenKind::Punctuation(
        Punctuation::Bang,
    ) || t.kind == TokenKind::Punctuation(Punctuation::Question)
}

pub open spec fn is_period(t: Token) -> bool {
    t.kind == TokenKind::Punctuation(Punctuation::Period)
}

/// How many periods follow one another from `i` on.
pub open spec fn period_run(toks: Seq<Token>, i: int) -> nat
    decreases toks.len() - i,
{
    if 0 <= i < toks.len() && is_period(toks[i]) {
        1 + period_run(toks, i + 1)
    } else {
        0
    }
}

/// What `rule` says of the tokens at `i`, if anything.
pub open spec fn window_lint(rule: WindowRule, toks: Seq<Token>, src: Seq<char>, i: int) -> Option<
    LintView,
> {
    match rule {
        WindowRule::AnA => if word_pair_at(toks, src, i) && better_article(
            text_at(toks, src, i),
            text_at(toks, src, i + 2),
        ) is Some {
            Some(
                simple_lint(
                    toks[i].span,
                    LintKind::WordChoice,
                    better_article(text_at(toks, src, i), text_at(toks, src, i + 2))->0,
                    "Use an before a vowel and a before a consonant."@,
                ),
            )
        } else {
            None
        },
        WindowRule::MultipleSequentialPronouns => if word_pair_at(toks, src, i)
            && toks[i].kind->Word_0.is_pronoun == Some(true) && toks[i + 2].kind->Word_0.is_pronoun
            == Some(true) {
            Some(
                advisory_lint(
                    Span { start: toks[i].span.start, end: toks[i + 2].span.end },
                    LintKind::Repetition,
                    "There are too many pronouns in a row here."@,
                    63,
                ),
            )
        } else {
            None
        },
        WindowRule::LinkingVerbs => if word_pair_at(toks, src, i)
            && toks[i].kind->Word_0.is_linking_verb == Some(true) && same_word(
            text_at(toks, src, i + 2),
            "that"@,
        ) {
            Some(
                advisory_lint(
                    toks[i].span,
                    LintKind::Miscellaneous,
                    "A linking verb followed by that reads awkwardly."@,
                    63,
                ),
            )
        } else {
            None
        },
        WindowRule::ThatWhich => if word_pair_at(toks, src, i) && toks[i].kind->Word_0.is_noun
            == Some(true) && text_at(toks, src, i + 2) == "which"@ {
            Some(
                simple_lint(
                    toks[i + 2].span,
                    LintKind::WordChoice,
                    "that"@,
                    "A restrictive clause takes that."@,
                ),
            )
        } else {
            None
        },
        WindowRule::TerminatingConjunctions => if is_word_at(toks, src, i) && i + 1 < toks.len()
            && is_terminator(toks[i + 1]) && toks[i].kind->Word_0.is_conjunction == Some(true)
            && toks[i].kind->Word_0.is_adverb != Some(true) && toks[i].kind->Word_0.is_preposition
            != Some(true) {
            Some(
                advisory_lint(
                    toks[i].span,
                    LintKind::Style,
                    "Sentences should not end with a conjunction."@,
                    63,
                ),
            )
        } else {
            None
        },
        WindowRule::WrongQuotes => if 0 <= i < toks.len() && (toks[i].kind is Quote
            && toks[i].kind->Quote_0 is Some) && span_in(toks[i], src) && text_at(toks, src, i)
            == "\""@ {
            Some(
                simple_lint(
                    toks[i].span,
                    LintKind::Punctuation,
                    if toks[i].kind->Quote_0->0 > i {
                        "\u{201c}"@
                    } else {
                        "\u{201d}"@
                    },
                    "Use a curly quote here."@,
                ),
            )
        } else {
            None
        },
        WindowRule::EllipsisLength => if 0 <= i < toks.len() && is_period(toks[i]) && (i == 0
            || !is_period(toks[i - 1])) && period_run(toks, i) >= 2 && period_run(toks, i) != 3 {
            Some(
                simple_lint(
                    Span { start: toks[i].span.start, end: toks[i + period_run(toks, i) - 1].span.end },
                    LintKind::Style,
                    "\u{2026}"@,
                    "An ellipsis has three dots."@,
                ),
            )
        } else {
            None
        },
        WindowRule::SentenceCapitalization => if is_word_at(toks, src, i) && starts_sentence(toks, i)
            && text_at(toks, src, i).len() > 0 && is_ascii_lower(text_at(toks, src, i)[0])
            && toks[i].kind->Word_0 != crate::dictionary::unknown_metadata() {
            Some(
                simple_lint(
                    toks[i].span,
                    LintKind::Capitalization,
                    capitalized(text_at(toks, src, i)),
                    "A sentence starts with a capital letter."@,
                ),
            )
        } else {
            None
        },
        WindowRule::Matcher => match first_phrase(toks, src, i, 0) {
            Some(k) => Some(
                simple_lint(
                    Span { start: toks[i].span.start, end: toks[phrase_last(i, k)].span.end },
                    LintKind::WordChoice,
                    phrase(k).2,
                    "Did you mean this phrase?"@,
                ),
            ),
            None => None,
        },
        WindowRule::LongSentences => if 0 <= i < toks.len() && (i == 0 || is_terminator(
            toks[i - 1],
        )) && word_count(toks, i, sentence_end(toks, i)) > LONG_SENTENCE_WORDS {
            Some(
                advisory_lint(
                    Span { start: toks[i].span.start, end: toks[sentence_end(toks, i) - 1].span.end },
                    LintKind::Readability,
                    "This sentence is long; consider splitting it."@,
                    63,
                ),
            )
        } else {
            None
        },
    }
}

/// The lints of `rule` at the tokens before `n`, in order.
pub open spec fn window_rule_lints(rule: WindowRule, toks: Seq<Token>, src: Seq<char>, n: int) -> Seq<
    LintView,
>
    decreases n,
{
    if n <= 0 {
        Seq::empty()
    } else {
        let prev = window_rule_lints(rule, toks, src, n - 1);
        match window_lint(rule, toks, src, n - 1) {
            Some(l) => prev.push(l),
            None => prev,
        }
    }
}

fn make_lint(span: Span, kind: LintKind, text: &str, message: &str) -> (r: Lint)
    ensures
        r@ == simple_lint(span, kind, text@, message@),
{
    let mut suggestions: Vec<Suggestion> = Vec::new();
    suggestions.push(Suggestion::ReplaceWith(str_to_chars(text)));
    let r = Lint::new(span, kind, suggestions, message, 31);
    assert(r@.suggestions =~= simple_lint(span, kind, text@, message@).suggestions);
    r
}

fn make_advisory(span: Span, kind: LintKind, message: &str, priority: u8) -> (r: Lint)
    ensures
        r@ == advisory_lint(span, kind, message@, priority),
{
    let r = Lint::new(span, kind, Vec::new(), message, priority);
    assert(r@.suggestions =~= Seq::<SuggestionView>::empty());
    r
}

/// The text of the word at `i`.
fn word_text(toks: &[Token], src: &[char], i: usize) -> (r: Option<Vec<char>>)
    ensures
        r is Some <==> is_word_at(toks@, src@, i as int),
        r matches Some(w) ==> w@ == text_at(toks@, src@, i as int),
{
    if i < toks.len() && toks[i].kind.is_word() && toks[i].span.start <= toks[i].span.end
        && toks[i].span.end <= src.len() {
        Some(toks[i].span.get_content(src))
    } else {
        None
    }
}

/// The texts of the two words of a word pair at `i`.
fn word_pair(toks: &[Token], src: &[char], i: usize) -> (r: Option<(Vec<char>, Vec<char>)>)
    ensures
        r is Some <==> word_pair_at(toks@, src@, i as int),
        r matches Some(p) ==> p.0@ == text_at(toks@, src@, i as int) && p.1@ == text_at(
            toks@,
            src@,
            i + 2,
        ),
{
    if i >= toks.len() || toks.len() - i <= 2 || !toks[i + 1].kind.is_whitespace() {
        return None;
    }
    match (word_text(toks, src, i), word_text(toks, src, i + 2)) {
        (Some(a), Some(b)) => Some((a, b)),
        _ => None,
    }
}

fn is_vowel_exec(c: char) -> (r: bool)
    ensures
        r == is_vowel(c),
{
    c == 'a' || c == 'e' || c == 'i' || c == 'o' || c == 'u' || c == 'A' || c == 'E' || c == 'I'
        || c == 'O' || c == 'U'
}

fn same_word_str(w: &[char], s: &str) -> (r: bool)
    ensures
        r == same_word(w@, s@),
{
    let chars = str_to_chars(s);
    crate::repeated_words::same_word_exec(w, chars.as_slice())
}

fn better_article_exec(w: &[char], next: &[char]) -> (r: Option<&'static str>)
    ensures
        match r {
            Some(a) => better_article(w@, next@) == Some(a@),
            None => better_article(w@, next@) is None,
        },
{
    if next.len() == 0 || w.len() == 0 {
        return None;
    }
    let upper = 'A' <= w[0] && w[0] <= 'Z';
    let c = next[0];
    if same_word_str(w, "a") && is_vowel_exec(c) {
        Some(if upper { "An" } else { "an" })
    } else if same_word_str(w, "an") && (('a' <= c && c <= 'z') || ('A' <= c && c <= 'Z'))
        && !is_vowel_exec(c) {
        Some(if upper { "A" } else { "a" })
    } else {
        None
    }
}

fn flag(f: Option<bool>) -> (r: bool)
    ensures
        r == (f == Some(true)),
{
    match f {
        Some(b) => b,
        None => false,
    }
}

fn word_metadata(t: &Token) -> (r: crate::dictionary::WordMetadata)
    requires
        t.kind is Word,
    ensures
        r == t.kind->Word_0,
{
    match t.kind {
        TokenKind::Word(m) => m,
        _ => crate::dictionary::WordMetadata::default(),
    }
}

fn is_period_exec(t: &Token) -> (r: bool)
    ensures
        r == is_period(*t),
{
    t.kind == TokenKind::Punctuation(Punctuation::Period)
}

fn period_run_exec(toks: &[Token], i: usize) -> (r: usize)
    requires
        i <= toks@.len(),
    ensures
        r == period_run(toks@, i as int),
        i + r <= toks@.len(),
{
    let mut j: usize = i;
    while j < toks.len() && is_period_exec(&toks[j])
        invariant
            i <= j <= toks@.len(),
            period_run(toks@, i as int) == (j - i) + period_run(toks@, j as int),
        decreases toks@.len() - j,
    {
        j += 1;
    }
    j - i
}

fn is_terminator_exec(t: &Token) -> (r: bool)
    ensures
        r == is_terminator(*t),
{
    t.kind == TokenKind::Punctuation(Punctuation::Period) || t.kind == TokenKind::Punctuation(
        Punctuation::Bang,
    ) || t.kind == TokenKind::Punctuation(Punctuation::Question)
}

fn starts_sentence_exec(toks: &[Token], i: usize) -> (r: bool)
    requires
        i <= toks@.len(),
    ensures
        r == starts_sentence(toks@, i as int),
{
    let mut j: usize = i;
    while j > 0 && (toks[j - 1].kind.is_whitespace() || toks[j - 1].kind.is_quote())
        invariant
            j <= i <= toks@.len(),
            previous_content(toks@, i as int) == previous_content(toks@, j as int),
        decreases j,
    {
        j -= 1;
    }
    if j == 0 {
        true
    } else {
        is_terminator_exec(&toks[j - 1])
    }
}

fn sentence_end_exec(toks: &[Token], i: usize) -> (r: usize)
    requires
        i < toks@.len(),
    ensures
        r == sentence_end(toks@, i as int),
        i < r <= toks@.len(),
{
    let mut j: usize = i;
    while j < toks.len() && !is_terminator_exec(&toks[j])
        invariant
            i <= j <= toks@.len(),
            sentence_end(toks@, i as int) == sentence_end(toks@, j as int),
        decreases toks@.len() - j,
    {
        j += 1;
    }
    if j < toks.len() {
        j + 1
    } else {
        j
    }
}

fn word_count_exec(toks: &[Token], a: usize, b: usize) -> (r: u64)
    requires
        a <= b <= toks@.len(),
    ensures
        r == if word_count(toks@, a as int, b as int) > LONG_SENTENCE_WORDS + 1 {
            (LONG_SENTENCE_WORDS + 1) as nat
        } else {
            word_count(toks@, a as int, b as int)
        },
{
    let mut n: u64 = 0;
    let mut k: usize = a;
    while k < b
        invariant
            a <= k <= b <= toks@.len(),
            n == if word_count(toks@, a as int, k as int) > LONG_SENTENCE_WORDS + 1 {
                (LONG_SENTENCE_WORDS + 1) as nat
            } else {
                word_count(toks@, a as int, k as int)
            },
        decreases b - k,
    {
        if toks[k].kind.is_word() && n <= LONG_SENTENCE_WORDS {
            n += 1;
        }
        k += 1;
    }
    n
}

fn capitalize(w: &[char]) -> (r: Vec<char>)
    requires
        w@.len() > 0,
        is_ascii_lower(w@[0]),
    ensures
        r@ == capitalized(w@),
{
    let mut out: Vec<char> = Vec::new();
    out.push(((w[0] as u8) - 32) as char);
    let mut k: usize = 1;
    while k < w.len()
        invariant
            1 <= k <= w@.len(),
            out@ == capitalized(w@).subrange(0, k as int),
        decreases w@.len() - k,
    {
        out.push(w[k]);
        assert(out@ =~= capitalized(w@).subrange(0, k + 1));
        k += 1;
    }
    assert(capitalized(w@).subrange(0, k as int) =~= capitalized(w@));
    out
}

fn phrase_exec(k: usize) -> (r: (&'static str, Option<&'static str>, &'static str))
    requires
        k < PHRASE_COUNT,
    ensures
        r.0@ == phrase(k as int).0,
        r.2@ == phrase(k as int).2,
        match r.1 {
            Some(w) => phrase(k as int).1 == Some(w@),
            None => phrase(k as int).1 is None,
        },
{
    match k {
        0 => ("wanna", None, "want to"),
        1 => ("gonna", None, "going to"),
        2 => ("alot", None, "a lot"),
        3 => ("eachother", None, "each other"),
        4 => ("irregardless", None, "regardless"),
        5 => ("could", Some("of"), "could have"),
        6 => ("should", Some("of"), "should have"),
        7 => ("would", Some("of"), "would have"),
        8 => ("per", Some("say"), "per se"),
        _ => ("", None, ""),
    }
}

/// The first phrase that starts at token `i`.
fn first_phrase_exec(toks: &[Token], src: &[char], i: usize) -> (r: Option<usize>)
    ensures
        match r {
            Some(k) => first_phrase(toks@, src@, i as int, 0) == Some(k as int) && k < PHRASE_COUNT
                && phrase_at(toks@, src@, i as int, k as int),
            None => first_phrase(toks@, src@, i as int, 0) is None,
        },
{
    let mut k: usize = 0;
    proof {
        lemma_first_phrase(toks@, src@, i as int, 0);
    }
    while k < PHRASE_COUNT
        invariant
            k <= PHRASE_COUNT,
            first_phrase(toks@, src@, i as int, 0) == first_phrase(toks@, src@, i as int, k as int),
        decreases PHRASE_COUNT - k,
    {
        let (first, second, _) = phrase_exec(k);
        let found = match second {
            None => match word_text(toks, src, i) {
                Some(w) => chars_equal(w.as_slice(), str_to_chars(first).as_slice()),
                None => false,
            },
            Some(sw) => match word_pair(toks, src, i) {
                Some((a, b)) => chars_equal(a.as_slice(), str_to_chars(first).as_slice())
                    && chars_equal(b.as_slice(), str_to_chars(sw).as_slice()),
                None => false,
            },
        };
        if found {
            return Some(k);
        }
        k += 1;
    }
    None
}

fn matcher_at(toks: &[Token], src: &[char], i: usize) -> (r: Option<Lint>)
    requires
        i < toks@.len(),
    ensures
        match r {
            Some(l) => window_lint(WindowRule::Matcher, toks@, src@, i as int) == Some(l@),
            None => window_lint(WindowRule::Matcher, toks@, src@, i as int) is None,
        },
{
    match first_phrase_exec(toks, src, i) {
        Some(k) => {
            let (_, second, replacement) = phrase_exec(k);
            proof {
                if second is Some {
                    assert(phrase(k as int).1 is Some);
                    assert(word_pair_at(toks@, src@, i as int));
                }
            }
            let n = toks.len();
            assert(n == toks@.len());
            let last = if second.is_some() { i + 2 } else { i };
            Some(
                make_lint(
                    Span::new(toks[i].span.start, toks[last].span.end),
                    LintKind::WordChoice,
                    replacement,
                    "Did you mean this phrase?",
                ),
            )
        },
        None => None,
    }
}

fn sentence_capitalization_at(toks: &[Token], src: &[char], i: usize) -> (r: Option<Lint>)
    requires
        i < toks@.len(),
    ensures
        match r {
            Some(l) => window_lint(WindowRule::SentenceCapitalization, toks@, src@, i as int) == Some(l@),
            None => window_lint(WindowRule::SentenceCapitalization, toks@, src@, i as int) is None,
        },
{
    match word_text(toks, src, i) {
        Some(w) => {
            if w.len() == 0 || !('a' <= w[0] && w[0] <= 'z') || !starts_sentence_exec(toks, i) {
                return None;
            }
            let m = word_metadata(&toks[i]);
            if m == crate::dictionary::WordMetadata::default() {
                return None;
            }
            let mut suggestions: Vec<Suggestion> = Vec::new();
            suggestions.push(Suggestion::ReplaceWith(capitalize(w.as_slice())));
            let l = Lint::new(
                toks[i].span,
                LintKind::Capitalization,
                suggestions,
                "A sentence starts with a capital letter.",
                31,
            );
            assert(l@.suggestions =~= seq![SuggestionView::ReplaceWith(capitalized(w@))]);
            Some(l)
        },
        None => None,
    }
}

fn long_sentence_at(toks: &[Token], src: &[char], i: usize) -> (r: Option<Lint>)
    requires
        i < toks@.len(),
    ensures
        match r {
            Some(l) => window_lint(WindowRule::LongSentences, toks@, src@, i as int) == Some(l@),
            None => window_lint(WindowRule::LongSentences, toks@, src@, i as int) is None,
        },
{
    {
        if i > 0 && !is_terminator_exec(&toks[i - 1]) {
            return None;
        }
        let e = sentence_end_exec(toks, i);
        if word_count_exec(toks, i, e) > LONG_SENTENCE_WORDS {
            Some(
                make_advisory(
                    Span::new(toks[i].span.start, toks[e - 1].span.end),
                    LintKind::Readability,
                    "This sentence is long; consider splitting it.",
                    63,
                ),
            )
        } else {
            None
        }
    }
}

/// What `rule` says of the tokens at `i`.
fn lint_at(rule: WindowRule, toks: &[Token], src: &[char], i: usize) -> (r: Option<Lint>)
    requires
        i < toks@.len(),
    ensures
        match r {
            Some(l) => window_lint(rule, toks@, src@, i as int) == Some(l@),
            None => window_lint(rule, toks@, src@, i as int) is None,
        },
{
    match rule {
        WindowRule::AnA => match word_pair(toks, src, i) {
            Some((a, b)) => match better_article_exec(a.as_slice(), b.as_slice()) {
                Some(article) => Some(
                    make_lint(
                        toks[i].span,
                        LintKind::WordChoice,
                        article,
                        "Use an before a vowel and a before a consonant.",
                    ),
                ),
                None => None,
            },
            None => None,
        },
        WindowRule::MultipleSequentialPronouns => match word_pair(toks, src, i) {
            Some(_) => {
                if flag(word_metadata(&toks[i]).is_pronoun) && flag(
                    word_metadata(&toks[i + 2]).is_pronoun,
                ) {
                    Some(
                        make_advisory(
                            Span::new(toks[i].span.start, toks[i + 2].span.end),
                            LintKind::Repetition,
                            "There are too many pronouns in a row here.",
                            63,
                        ),
                    )
                } else {
                    None
                }
            },
            None => None,
        },
        WindowRule::LinkingVerbs => match word_pair(toks, src, i) {
            Some((_, b)) => {
                if flag(word_metadata(&toks[i]).is_linking_verb) && same_word_str(
                    b.as_slice(),
                    "that",
                ) {
                    Some(
                        make_advisory(
                            toks[i].span,
                            LintKind::Miscellaneous,
                            "A linking verb followed by that reads awkwardly.",
                            63,
                        ),
                    )
                } else {
                    None
                }
            },
            None => None,
        },
        WindowRule::ThatWhich => match word_pair(toks, src, i) {
            Some((_, b)) => {
                let which = str_to_chars("which");
                if flag(word_metadata(&toks[i]).is_noun) && chars_equal(
                    b.as_slice(),
                    which.as_slice(),
                ) {
                    Some(
                        make_lint(
                            toks[i + 2].span,
                            LintKind::WordChoice,
                            "that",
                            "A restrictive clause takes that.",
                        ),
                    )
                } else {
                    None
                }
            },
            None => None,
        },
        WindowRule::TerminatingConjunctions => {
            if word_text(toks, src, i).is_none() || toks.len() - i < 2 {
                return None;
            }
            let next = toks[i + 1];
            let m = word_metadata(&toks[i]);
            let ends = next.kind == TokenKind::Punctuation(Punctuation::Period) || next.kind
                == TokenKind::Punctuation(Punctuation::Bang) || next.kind == TokenKind::Punctuation(
                Punctuation::Question,
            );
            if ends && flag(m.is_conjunction) && !flag(m.is_adverb) && !flag(m.is_preposition) {
                Some(
                    make_advisory(
                        toks[i].span,
                        LintKind::Style,
                        "Sentences should not end with a conjunction.",
                        63,
                    ),
                )
            } else {
                None
            }
        },
        WindowRule::WrongQuotes => match toks[i].kind {
            TokenKind::Quote(Some(j)) => {
                let t = toks[i];
                if t.span.start > t.span.end || t.span.end > src.len() {
                    return None;
                }
                let text = t.span.get_content(src);
                let straight = str_to_chars("\"");
                if !chars_equal(text.as_slice(), straight.as_slice()) {
                    return None;
                }
                let curly = if j > i { "\u{201c}" } else { "\u{201d}" };
                Some(make_lint(t.span, LintKind::Punctuation, curly, "Use a curly quote here."))
            },
            _ => None,
        },
        WindowRule::EllipsisLength => {
            if !is_period_exec(&toks[i]) || (i > 0 && is_period_exec(&toks[i - 1])) {
                return None;
            }
            let run = period_run_exec(toks, i);
            if run >= 2 && run != 3 {
                Some(
                    make_lint(
                        Span::new(toks[i].span.start, toks[i + run - 1].span.end),
                        LintKind::Style,
                        "\u{2026}",
                        "An ellipsis has three dots.",
                    ),
                )
            } else {
                None
            }
        },
        WindowRule::Matcher => matcher_at(toks, src, i),
        WindowRule::SentenceCapitalization => sentence_capitalization_at(toks, src, i),
        WindowRule::LongSentences => long_sentence_at(toks, src, i),
    }
}

/// Runs a neighbourhood rule over a document.
pub fn lint_windows(rule: WindowRule, document: &Document) -> (r: Vec<Lint>)
    ensures
        lints_view(r@) == window_rule_lints(
            rule,
            document.spec_tokens(),
            document.spec_source(),
            document.spec_tokens().len() as int,
        ),
{
    let tokens = document.get_tokens();
    let source = document.get_source();
    let mut lints: Vec<Lint> = Vec::new();
    let mut i: usize = 0;
    while i < tokens.len()
        invariant
            i <= tokens@.len(),
            lints_view(lints@) == window_rule_lints(rule, tokens@, source@, i as int),
        decreases tokens@.len() - i,
    {
        if let Some(l) = lint_at(rule, tokens, source, i) {
            proof {
                lemma_lints_view_push(lints@, l);
            }
            lints.push(l);
        }
        i += 1;
    }
    lints
}

} // verus!
