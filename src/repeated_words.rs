use vstd::prelude::*;

use crate::document::Document;
use crate::linting::{lemma_lints_view_push, lints_view, Lint, LintKind, LintView, Suggestion, SuggestionView};
use crate::patterns::{span_in, token_chars};
use crate::span::Span;
use crate::text::is_ascii_upper;
use crate::token::Token;

verus! {

/// The same letter, whatever the case of ASCII letters.
pub open spec fn same_letter(x: char, y: char) -> bool {
    ||| x == y
    ||| is_ascii_upper(x) && y as u32 == x as u32 + 32
    ||| is_ascii_upper(y) && x as u32 == y as u32 + 32
}

pub open spec fn same_word(a: Seq<char>, b: Seq<char>) -> bool {
    a.len() == b.len() && forall|i: int| 0 <= i < a.len() ==> same_letter(a[i], b[i])
}

/// A word, whitespace, and the same word again start at `i`.
pub open spec fn is_repeat_at(toks: Seq<Token>, src: Seq<char>, i: int) -> bool {
    &&& 0 <= i && i + 2 < toks.len()
    &&& toks[i].kind is Word
    &&& toks[i + 1].kind.spec_is_whitespace()
    &&& toks[i + 2].kind is Word
    &&& span_in(toks[i], src)
    &&& span_in(toks[i + 2], src)
    &&& same_word(token_chars(toks[i], src), token_chars(toks[i + 2], src))
}

/// The lint covers the whitespace and the second word, and removes them.
pub open spec fn repeat_lint(toks: Seq<Token>, i: int) -> LintView {
    LintView {
        span: Span { start: toks[i].span.end, end: toks[i + 2].span.end },
        lint_kind: LintKind::Repetition,
        suggestions: seq![SuggestionView::Remove],
        message: "Did you mean to repeat this word?"@,
        priority: 63,
    }
}

/// The lints of the repeats that start before `n`, in order.
pub open spec fn repeated_words_lints(toks: Seq<Token>, src: Seq<char>, n: int) -> Seq<LintView>
    decreases n,
{
    if n <= 0 {
        Seq::empty()
    } else {
        let prev = repeated_words_lints(toks, src, n - 1);
        if is_repeat_at(toks, src, n - 1) {
            prev.push(repeat_lint(toks, n - 1))
        } else {
            prev
        }
    }
}

fn same_letter_exec(x: char, y: char) -> (r: bool)
    ensures
        r == same_letter(x, y),
{
    x == y || ('A' <= x && x <= 'Z' && y as u32 == x as u32 + 32) || ('A' <= y && y <= 'Z'
        && x as u32 == y as u32 + 32)
}

pub fn same_word_exec(a: &[char], b: &[char]) -> (r: bool)
    ensures
        r == same_word(a@, b@),
{
    if a.len() != b.len() {
        return false;
    }
    let mut i: usize = 0;
    while i < a.len()
        invariant
            i <= a@.len() == b@.len(),
            forall|k: int| 0 <= k < i ==> same_letter(a@[k], b@[k]),
        decreases a@.len() - i,
    {
        if !same_letter_exec(a[i], b[i]) {
            return false;
        }
        i += 1;
    }
    true
}

/// Flags a word said twice in a row, whatever its case.
#[derive(Clone, Copy)]
pub struct RepeatedWords;

impl RepeatedWords {
    pub fn lint(&self, document: &Document) -> (r: Vec<Lint>)
        ensures
            lints_view(r@) == repeated_words_lints(
                document.spec_tokens(),
                document.spec_source(),
                document.spec_tokens().len() as int,
            ),
    {
        let tokens = document.get_tokens();
        let source = document.get_source();
        let mut lints: Vec<Lint> = Vec::new();
        let mut i: usize = 0;
        while i < tokens.len()
            invariant
                i <= tokens@.len(),
                lints_view(lints@) == repeated_words_lints(tokens@, source@, i as int),
            decreases tokens@.len() - i,
        {
            if tokens.len() - i > 2 && tokens[i].kind.is_word() && tokens[i + 1].kind.is_whitespace()
                && tokens[i + 2].kind.is_word() {
                let a = tokens[i];
                let b = tokens[i + 2];
                if a.span.start <= a.span.end && a.span.end <= source.len() && b.span.start
                    <= b.span.end && b.span.end <= source.len() {
                    let first = a.span.get_content(source);
                    let second = b.span.get_content(source);
                    if same_word_exec(first.as_slice(), second.as_slice()) {
                        let mut suggestions: Vec<Suggestion> = Vec::new();
                        suggestions.push(Suggestion::Remove);
                        let l = Lint::new(
                            Span::new(a.span.end, b.span.end),
                            LintKind::Repetition,
                            suggestions,
                            "Did you mean to repeat this word?",
                            63,
                        );
                        proof {
                            lemma_lints_view_push(lints@, l);
                            assert(l@.suggestions =~= repeat_lint(tokens@, i as int).suggestions);
                        }
                        lints.push(l);
                    }
                }
            }
            i += 1;
        }
        lints
    }
}

} // verus!
