use vstd::prelude::*;

use crate::dictionary::{all_entries, entries_of, layers_lookup, Entries, MergedDictionary, WordMetadata};
use crate::document::Document;
use crate::edit_distance::{distance, edit_distance};
use crate::linting::{lemma_lints_view_push, lints_view, Lint, LintKind, LintView, Suggestion, SuggestionView};
use crate::patterns::{span_in, token_chars};
use crate::text::chars_equal;
use crate::token::Token;

verus! {

/// The farthest a suggestion may be from the word it replaces.
pub const MAX_DISTANCE: usize = 2;

/// How many suggestions a misspelling gets at most.
pub const SUGGESTION_COUNT: usize = 3;

/// A candidate: its word, its distance, and whether it is common.
pub type CandView = (Seq<char>, nat, bool);

/// `a` comes before `b` in the order of character codes.
pub open spec fn lex_lt(a: Seq<char>, b: Seq<char>) -> bool
    decreases a.len(),
{
    if a.len() == 0 {
        b.len() > 0
    } else if b.len() == 0 {
        false
    } else if a[0] != b[0] {
        (a[0] as u32) < (b[0] as u32)
    } else {
        lex_lt(a.subrange(1, a.len() as int), b.subrange(1, b.len() as int))
    }
}

/// Nearer first; then common words; then shorter; then by character codes.
pub open spec fn ranks_before(x: CandView, y: CandView) -> bool {
    ||| x.1 < y.1
    ||| x.1 == y.1 && x.2 && !y.2
    ||| x.1 == y.1 && x.2 == y.2 && x.0.len() < y.0.len()
    ||| x.1 == y.1 && x.2 == y.2 && x.0.len() == y.0.len() && lex_lt(x.0, y.0)
}

/// Where `x` goes in `s`: before the first candidate it ranks before.
pub open spec fn cand_pos(s: Seq<CandView>, x: CandView, i: int) -> int
    decreases s.len() - i,
{
    if i < 0 || i >= s.len() {
        s.len() as int
    } else if ranks_before(x, s[i]) {
        i
    } else {
        cand_pos(s, x, i + 1)
    }
}

pub open spec fn has_word(s: Seq<CandView>, w: Seq<char>) -> bool {
    exists|k: int| 0 <= k < s.len() && s[k].0 == w
}

pub open spec fn candidate_of(e: (Seq<char>, WordMetadata), w: Seq<char>) -> CandView {
    (e.0, edit_distance(e.0, w), e.1.is_common == Some(true))
}

/// The entries near enough to `w`, each word once, in rank order.
pub open spec fn ranked(entries: Entries, w: Seq<char>) -> Seq<CandView>
    decreases entries.len(),
{
    if entries.len() == 0 {
        Seq::empty()
    } else {
        let t = ranked(entries.drop_last(), w);
        let e = entries.last();
        if e.0.len() < usize::MAX && w.len() < usize::MAX && edit_distance(e.0, w)
            <= MAX_DISTANCE && !has_word(t, e.0) {
            let c = candidate_of(e, w);
            t.insert(cand_pos(t, c, 0), c)
        } else {
            t
        }
    }
}

/// The best few replacements for `w` among `entries`.
pub open spec fn suggestions_for(entries: Entries, w: Seq<char>) -> Seq<Seq<char>> {
    let r = ranked(entries, w);
    let k = if r.len() < SUGGESTION_COUNT { r.len() } else { SUGGESTION_COUNT as nat };
    Seq::new(k, |i: int| r[i].0)
}

pub struct Candidate {
    pub word: Vec<char>,
    pub distance: usize,
    pub common: bool,
}

pub open spec fn cands_view(v: Seq<Candidate>) -> Seq<CandView> {
    Seq::new(v.len(), |i: int| (v[i].word@, v[i].distance as nat, v[i].common))
}

fn lex_lt_exec(a: &[char], b: &[char]) -> (r: bool)
    ensures
        r == lex_lt(a@, b@),
{
    let mut i: usize = 0;
    assert(a@.subrange(0, a@.len() as int) =~= a@);
    assert(b@.subrange(0, b@.len() as int) =~= b@);
    while i < a.len() && i < b.len() && a[i] == b[i]
        invariant
            i <= a@.len(),
            i <= b@.len(),
            lex_lt(a@, b@) == lex_lt(
                a@.subrange(i as int, a@.len() as int),
                b@.subrange(i as int, b@.len() as int),
            ),
        decreases a@.len() - i,
    {
        let ghost sa = a@.subrange(i as int, a@.len() as int);
        let ghost sb = b@.subrange(i as int, b@.len() as int);
        assert(sa.subrange(1, sa.len() as int) =~= a@.subrange(i + 1, a@.len() as int));
        assert(sb.subrange(1, sb.len() as int) =~= b@.subrange(i + 1, b@.len() as int));
        i += 1;
    }
    let ghost sa = a@.subrange(i as int, a@.len() as int);
    let ghost sb = b@.subrange(i as int, b@.len() as int);
    if i == a.len() {
        i < b.len()
    } else if i == b.len() {
        false
    } else {
        assert(sa[0] == a@[i as int] && sb[0] == b@[i as int]);
        (a[i] as u32) < (b[i] as u32)
    }
}

fn ranks_before_exec(x: &Candidate, y: &Candidate) -> (r: bool)
    ensures
        r == ranks_before(
            (x.word@, x.distance as nat, x.common),
            (y.word@, y.distance as nat, y.common),
        ),
{
    x.distance < y.distance || (x.distance == y.distance && x.common && !y.common) || (x.distance
        == y.distance && x.common == y.common && x.word.len() < y.word.len()) || (x.distance
        == y.distance && x.common == y.common && x.word.len() == y.word.len() && lex_lt_exec(
        x.word.as_slice(),
        y.word.as_slice(),
    ))
}

fn has_word_exec(cands: &Vec<Candidate>, w: &[char]) -> (r: bool)
    ensures
        r == has_word(cands_view(cands@), w@),
{
    let mut k: usize = 0;
    while k < cands.len()
        invariant
            k <= cands@.len(),
            forall|j: int| 0 <= j < k ==> cands_view(cands@)[j].0 != w@,
        decreases cands@.len() - k,
    {
        if chars_equal(cands[k].word.as_slice(), w) {
            assert(cands_view(cands@)[k as int].0 == w@);
            return true;
        }
        k += 1;
    }
    false
}

proof fn lemma_cands_view_insert(s: Seq<Candidate>, p: int, x: Candidate)
    requires
        0 <= p <= s.len(),
    ensures
        cands_view(s.insert(p, x)) == cands_view(s).insert(p, (x.word@, x.distance as nat, x.common)),
{
    assert(cands_view(s.insert(p, x)) =~= cands_view(s).insert(
        p,
        (x.word@, x.distance as nat, x.common),
    ));
}

/// The best few replacements for `word` in `dictionary`.
pub fn suggest(dictionary: &MergedDictionary, word: &[char]) -> (r: Vec<Vec<char>>)
    ensures
        r@.len() == suggestions_for(all_entries(dictionary@), word@).len(),
        forall|i: int|
            0 <= i < r@.len() ==> (#[trigger] r@[i])@ == suggestions_for(
                all_entries(dictionary@),
                word@,
            )[i],
{
    let words = dictionary.all_words();
    let ghost entries = entries_of(words@);
    let mut cands: Vec<Candidate> = Vec::new();
    let mut k: usize = 0;
    while k < words.len()
        invariant
            k <= words@.len(),
            entries == entries_of(words@),
            entries == all_entries(dictionary@),
            cands_view(cands@) == ranked(entries.subrange(0, k as int), word@),
        decreases words@.len() - k,
    {
        let ghost t = cands_view(cands@);
        let ghost pre = entries.subrange(0, k + 1);
        assert(pre.drop_last() =~= entries.subrange(0, k as int));
        assert(pre.last() == entries[k as int]);
        let w = &words[k].0;
        if w.len() < usize::MAX && word.len() < usize::MAX {
            let d = distance(w.as_slice(), word);
            if d <= MAX_DISTANCE && !has_word_exec(&cands, w.as_slice()) {
                let span = crate::span::Span::new(0, w.len());
                assert(w@.subrange(0, w@.len() as int) =~= w@);
                let c = Candidate {
                    word: span.get_content(w.as_slice()),
                    distance: d,
                    common: words[k].1.is_common == Some(true),
                };
                let mut p: usize = 0;
                while p < cands.len() && !ranks_before_exec(&c, &cands[p])
                    invariant
                        p <= cands@.len(),
                        t == cands_view(cands@),
                        cand_pos(t, (c.word@, c.distance as nat, c.common), p as int) == cand_pos(
                            t,
                            (c.word@, c.distance as nat, c.common),
                            0,
                        ),
                    decreases cands@.len() - p,
                {
                    p += 1;
                }
                proof {
                    lemma_cands_view_insert(cands@, p as int, c);
                }
                cands.insert(p, c);
            }
        }
        k += 1;
    }
    assert(entries.subrange(0, k as int) =~= entries);
    let ghost r = cands_view(cands@);
    let mut out: Vec<Vec<char>> = Vec::new();
    let mut i: usize = 0;
    while i < cands.len() && i < SUGGESTION_COUNT
        invariant
            i <= cands@.len(),
            i <= SUGGESTION_COUNT,
            r == cands_view(cands@),
            out@.len() == i,
            forall|j: int| 0 <= j < i ==> (#[trigger] out@[j])@ == r[j].0,
        decreases cands@.len() - i,
    {
        let w = &cands[i].word;
        let span = crate::span::Span::new(0, w.len());
        assert(w@.subrange(0, w@.len() as int) =~= w@);
        out.push(span.get_content(w.as_slice()));
        i += 1;
    }
    out
}

pub open spec fn spelling_lint(t: Token, src: Seq<char>, dict: Seq<Entries>) -> LintView {
    LintView {
        span: t.span,
        lint_kind: LintKind::Spelling,
        suggestions: Seq::new(
            suggestions_for(all_entries(dict), token_chars(t, src)).len(),
            |i: int| SuggestionView::ReplaceWith(suggestions_for(all_entries(dict), token_chars(t, src))[i]),
        ),
        message: "Did you mean to spell this word differently?"@,
        priority: 63,
    }
}

pub open spec fn is_misspelled(t: Token, src: Seq<char>, dict: Seq<Entries>) -> bool {
    t.kind is Word && span_in(t, src) && layers_lookup(dict, token_chars(t, src)) is None
}

/// One lint for each word that the dictionary does not know, in order.
pub open spec fn spell_check_lints(toks: Seq<Token>, src: Seq<char>, dict: Seq<Entries>) -> Seq<LintView>
    decreases toks.len(),
{
    if toks.len() == 0 {
        Seq::empty()
    } else {
        let prev = spell_check_lints(toks.drop_last(), src, dict);
        if is_misspelled(toks.last(), src, dict) {
            prev.push(spelling_lint(toks.last(), src, dict))
        } else {
            prev
        }
    }
}

/// Flags words that the dictionary does not know and suggests near ones.
pub struct SpellCheck {
    pub dictionary: MergedDictionary,
}

impl SpellCheck {
    pub fn new(dictionary: MergedDictionary) -> (r: SpellCheck)
        ensures
            r.dictionary@ == dictionary@,
    {
        SpellCheck { dictionary }
    }

    pub fn lint(&self, document: &Document) -> (r: Vec<Lint>)
        ensures
            lints_view(r@) == spell_check_lints(
                document.spec_tokens(),
                document.spec_source(),
                self.dictionary@,
            ),
    {
        let tokens = document.get_tokens();
        let source = document.get_source();
        let mut lints: Vec<Lint> = Vec::new();
        let mut k: usize = 0;
        while k < tokens.len()
            invariant
                k <= tokens@.len(),
                lints_view(lints@) == spell_check_lints(
                    tokens@.subrange(0, k as int),
                    source@,
                    self.dictionary@,
                ),
            decreases tokens@.len() - k,
        {
            let t = tokens[k];
            assert(tokens@.subrange(0, k + 1).drop_last() =~= tokens@.subrange(0, k as int));
            if t.kind.is_word() && t.span.start <= t.span.end && t.span.end <= source.len() {
                let text = t.span.get_content(source);
                if !self.dictionary.contains_word(text.as_slice()) {
                    let found = suggest(&self.dictionary, text.as_slice());
                    let mut suggestions: Vec<Suggestion> = Vec::new();
                    let mut i: usize = 0;
                    let ghost want = suggestions_for(all_entries(self.dictionary@), text@);
                    let mut rest = found;
                    let ghost all = rest@;
                    while rest.len() > 0
                        invariant
                            suggestions@.len() == i,
                            i <= all.len(),
                            all.len() == want.len(),
                            want.len() <= SUGGESTION_COUNT,
                            rest@ == all.subrange(i as int, all.len() as int),
                            forall|j: int| 0 <= j < all.len() ==> (#[trigger] all[j])@ == want[j],
                            forall|j: int|
                                0 <= j < i ==> (#[trigger] suggestions@[j])@ == SuggestionView::ReplaceWith(want[j]),
                        decreases rest@.len(),
                    {
                        assert(rest@[0] == all[i as int]);
                        let w = rest.remove(0);
                        assert(rest@ =~= all.subrange(i + 1, all.len() as int));
                        suggestions.push(Suggestion::ReplaceWith(w));
                        i += 1;
                    }
                    let l = Lint::new(
                        t.span,
                        LintKind::Spelling,
                        suggestions,
                        "Did you mean to spell this word differently?",
                        63,
                    );
                    proof {
                        lemma_lints_view_push(lints@, l);
                        assert(l@.suggestions =~= spelling_lint(t, source@, self.dictionary@).suggestions);
                    }
                    lints.push(l);
                }
            }
            k += 1;
        }
        assert(tokens@.subrange(0, k as int) =~= tokens@);
        lints
    }
}

} // verus!
