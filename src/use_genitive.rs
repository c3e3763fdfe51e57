use vstd::prelude::*;

use crate::document::Document;
use crate::linting::{lemma_lints_view_push, lints_view, Lint, LintKind, LintView, Suggestion, SuggestionView};
use crate::patterns::{all_matches, either_len, group_len, pattern_len, sequence_len, whitespace_run, WordPattern, Invert, Pattern, SequencePattern, WordPatternGroup};
use crate::span::Span;
use crate::text::str_to_chars;
use crate::token::Token;

verus! {

pub open spec fn genitive_lint(t: Token) -> LintView {
    LintView {
        span: t.span,
        lint_kind: LintKind::Miscellaneous,
        suggestions: seq![SuggestionView::ReplaceWith("their"@)],
        message: "Use the genitive case."@,
        priority: 31,
    }
}

/// Where the trigger word stands in a matched window: after the first
/// token and the whitespace that follows it.
pub open spec fn trigger_index(m: Seq<Token>) -> int {
    1 + whitespace_run(m.subrange(1, m.len() as int)) as int
}

/// One lint for each matched window, at its trigger word.
pub open spec fn genitive_lints(wins: Seq<Span>, toks: Seq<Token>) -> Seq<LintView>
    decreases wins.len(),
{
    if wins.len() == 0 {
        Seq::empty()
    } else {
        let prev = genitive_lints(wins.drop_last(), toks);
        let w = wins.last();
        let m = toks.subrange(w.start as int, w.end as int);
        if w.start < w.end <= toks.len() && trigger_index(m) < m.len() {
            prev.push(genitive_lint(m[trigger_index(m)]))
        } else {
            prev
        }
    }
}

/// Whitespace, then a noun with any adjectives before it.
pub open spec fn is_environment(p: Pattern) -> bool {
    &&& p matches Pattern::Sequence(s)
    &&& s@.len() == 2
    &&& s@[0] == Pattern::Whitespace
    &&& s@[1] matches Pattern::Either(c)
    &&& c@.len() == 2
    &&& c@[0] matches Pattern::Sequence(d)
    &&& d@.len() == 3
    &&& d@[0] matches Pattern::Repeating(b)
    &&& *b == Pattern::Adjective
    &&& d@[1] == Pattern::Whitespace
    &&& d@[2] == Pattern::Noun
    &&& c@[1] matches Pattern::Sequence(n)
    &&& n@ == seq![Pattern::Noun]
}

/// The trigger word itself, then its environment.
pub open spec fn is_trigger(p: Pattern, word: Seq<char>) -> bool {
    &&& p matches Pattern::Sequence(s)
    &&& s@.len() == 2
    &&& s@[0] matches Pattern::ExactWord(w)
    &&& w@ == word
    &&& is_environment(s@[1])
}

pub open spec fn is_single_word_or_lowercase(p: Pattern, word: Seq<char>) -> bool {
    &&& p matches Pattern::Sequence(s)
    &&& s@.len() == 1
    &&& s@[0] matches Pattern::ExactWordOrLowercase(w)
    &&& w@ == word
}

/// A token that is not `Is`, `Were` (or their small forms) or an adjective,
/// whitespace, then `there` or `they're` in a genitive environment.
pub open spec fn is_genitive_pattern(p: Pattern) -> bool {
    &&& p matches Pattern::Sequence(v)
    &&& v@.len() == 3
    &&& v@[0] matches Pattern::Invert(inv)
    &&& *inv.inner matches Pattern::Either(e)
    &&& e@.len() == 3
    &&& is_single_word_or_lowercase(e@[0], "Is"@)
    &&& is_single_word_or_lowercase(e@[1], "Were"@)
    &&& e@[2] matches Pattern::Sequence(a)
    &&& a@ == seq![Pattern::Adjective]
    &&& v@[1] == Pattern::Whitespace
    &&& v@[2] matches Pattern::WordGroup(g)
    &&& g.entries@.len() == 2
    &&& g.entries@[0].word@ == "there"@
    &&& is_trigger(g.entries@[0].pattern, "there"@)
    &&& g.entries@[1].word@ == "they're"@
    &&& is_trigger(g.entries@[1].pattern, "they're"@)
}

/// Looks for `there` or `they're` where the genitive `their` belongs: before
/// a noun, perhaps after adjectives, and not after `is`, `were` or an
/// adjective.
pub struct UseGenitive {
    pattern: Pattern,
}

/// Whitespace, then a noun with any adjectives before it.
fn genitive_environment() -> (r: Pattern)
    ensures
        is_environment(r),
{
    let described = SequencePattern::new().then_one_or_more_adjectives();
    let described = described.then_whitespace().then_noun();
    assert(described.parts@.len() == 3);
    assert(described.parts@[1] == Pattern::Whitespace);
    let described = described.build();
    let bare = SequencePattern::new().then_noun();
    assert(bare.parts@ =~= seq![Pattern::Noun]);
    let bare = bare.build();
    let mut choices: Vec<Pattern> = Vec::new();
    choices.push(described);
    choices.push(bare);
    let env = SequencePattern::new().then_whitespace().then_pattern(Pattern::Either(choices));
    assert(env.parts@.len() == 2);
    assert(env.parts@[0] == Pattern::Whitespace);
    env.build()
}

fn trigger(word: &str) -> (r: Pattern)
    ensures
        is_trigger(r, word@),
{
    let t = SequencePattern::new().then_exact_word(word).then_pattern(genitive_environment());
    assert(t.parts@.len() == 2);
    t.build()
}

fn single_word_or_lowercase(word: &str) -> (r: Pattern)
    ensures
        is_single_word_or_lowercase(r, word@),
{
    let t = SequencePattern::new().then_exact_word_or_lowercase(word);
    assert(t.parts@.len() == 1);
    t.build()
}

impl UseGenitive {
    pub fn new() -> (r: UseGenitive)
        ensures
            is_genitive_pattern(r.spec_pattern()),
    {
        let mut primary = WordPatternGroup::new();
        primary.add("there", trigger("there"));
        primary.add("they're", trigger("they're"));
        assert(primary.entries@.len() == 2);
        let mut prelude: Vec<Pattern> = Vec::new();
        prelude.push(single_word_or_lowercase("Is"));
        prelude.push(single_word_or_lowercase("Were"));
        let adjective = SequencePattern::new().then_adjective();
        assert(adjective.parts@ =~= seq![Pattern::Adjective]);
        prelude.push(adjective.build());
        let pattern = SequencePattern::new().then_pattern(
            Pattern::Invert(Invert::new(Pattern::Either(prelude))),
        ).then_whitespace();
        assert(pattern.parts@.len() == 2);
        let pattern = pattern.then_pattern(Pattern::WordGroup(primary));
        assert(pattern.parts@.len() == 3);
        assert(pattern.parts@[1] == Pattern::Whitespace);
        let pattern = pattern.build();
        UseGenitive { pattern }
    }

    pub closed spec fn spec_pattern(&self) -> Pattern {
        self.pattern
    }

    pub fn pattern(&self) -> (r: &Pattern)
        ensures
            *r == self.spec_pattern(),
    {
        &self.pattern
    }

    /// The lint for a window of matched tokens.
    pub fn match_to_lint(&self, matched_tokens: &[Token]) -> (r: Option<Lint>)
        ensures
            matched_tokens@.len() >= 1 && trigger_index(matched_tokens@) < matched_tokens@.len()
                ==> r is Some && r->0@ == genitive_lint(matched_tokens@[trigger_index(matched_tokens@)]),
            !(matched_tokens@.len() >= 1 && trigger_index(matched_tokens@)
                < matched_tokens@.len()) ==> r is None,
    {
        if matched_tokens.len() == 0 {
            return None;
        }
        let rest = &matched_tokens[1..matched_tokens.len()];
        let t = 1 + crate::patterns::whitespace_matches(rest);
        if t >= matched_tokens.len() {
            return None;
        }
        let mut suggestions: Vec<Suggestion> = Vec::new();
        suggestions.push(Suggestion::ReplaceWith(str_to_chars("their")));
        let r = Lint::new(
            matched_tokens[t].span,
            LintKind::Miscellaneous,
            suggestions,
            "Use the genitive case.",
            31,
        );
        assert(r@.suggestions =~= genitive_lint(matched_tokens@[t as int]).suggestions);
        Some(r)
    }

    pub fn lint(&self, document: &Document) -> (r: Vec<Lint>)
        ensures
            lints_view(r@) == genitive_lints(
                all_matches(self.spec_pattern(), document.spec_tokens(), document.spec_source()),
                document.spec_tokens(),
            ),
    {
        let tokens = document.get_tokens();
        let wins = self.pattern.find_all_matches(tokens, document.get_source());
        let mut lints: Vec<Lint> = Vec::new();
        let mut k: usize = 0;
        while k < wins.len()
            invariant
                k <= wins@.len(),
                lints_view(lints@) == genitive_lints(wins@.subrange(0, k as int), tokens@),
            decreases wins@.len() - k,
        {
            let w = wins[k];
            assert(wins@.subrange(0, k + 1).drop_last() =~= wins@.subrange(0, k as int));
            if w.start < w.end && w.end <= tokens.len() {
                let m = &tokens[w.start..w.end];
                assert(m@ == tokens@.subrange(w.start as int, w.end as int));
                if let Some(l) = self.match_to_lint(m) {
                    proof {
                        lemma_lints_view_push(lints@, l);
                    }
                    lints.push(l);
                }
            }
            k += 1;
        }
        assert(wins@.subrange(0, k as int) =~= wins@);
        lints
    }
}

impl Default for UseGenitive {
    fn default() -> (r: UseGenitive)
        ensures
            is_genitive_pattern(r.spec_pattern()),
    {
        UseGenitive::new()
    }
}

/// `p` and `q` take the same number of tokens from any tokens.
pub open spec fn agree(p: Pattern, q: Pattern, src: Seq<char>) -> bool {
    forall|t: Seq<Token>| #[trigger] pattern_len(p, t, src) == pattern_len(q, t, src)
}

proof fn lemma_sequence_congruent(ps: Seq<Pattern>, qs: Seq<Pattern>, src: Seq<char>, toks: Seq<Token>)
    requires
        ps.len() == qs.len(),
        forall|i: int| 0 <= i < ps.len() ==> agree(#[trigger] ps[i], qs[i], src),
    ensures
        sequence_len(ps, toks, src) == sequence_len(qs, toks, src),
    decreases ps.len(),
{
    if ps.len() > 0 {
        assert(agree(ps[0], qs[0], src));
        assert(pattern_len(ps[0], toks, src) == pattern_len(qs[0], toks, src));
        let l = pattern_len(ps[0], toks, src);
        if l != 0 && l <= toks.len() && ps.len() > 1 {
            let pr = ps.subrange(1, ps.len() as int);
            let qr = qs.subrange(1, qs.len() as int);
            assert forall|i: int| 0 <= i < pr.len() implies agree(#[trigger] pr[i], qr[i], src) by {
                assert(pr[i] == ps[i + 1] && qr[i] == qs[i + 1]);
            }
            lemma_sequence_congruent(pr, qr, src, toks.subrange(l as int, toks.len() as int));
        }
    }
}

proof fn lemma_either_congruent(ps: Seq<Pattern>, qs: Seq<Pattern>, src: Seq<char>, toks: Seq<Token>)
    requires
        ps.len() == qs.len(),
        forall|i: int| 0 <= i < ps.len() ==> agree(#[trigger] ps[i], qs[i], src),
    ensures
        either_len(ps, toks, src) == either_len(qs, toks, src),
    decreases ps.len(),
{
    if ps.len() > 0 {
        assert(agree(ps[0], qs[0], src));
        assert(pattern_len(ps[0], toks, src) == pattern_len(qs[0], toks, src));
        let pr = ps.subrange(1, ps.len() as int);
        let qr = qs.subrange(1, qs.len() as int);
        assert forall|i: int| 0 <= i < pr.len() implies agree(#[trigger] pr[i], qr[i], src) by {
            assert(pr[i] == ps[i + 1] && qr[i] == qs[i + 1]);
        }
        lemma_either_congruent(pr, qr, src, toks);
    }
}

proof fn lemma_group_congruent(
    es: Seq<WordPattern>,
    fs: Seq<WordPattern>,
    src: Seq<char>,
    toks: Seq<Token>,
)
    requires
        es.len() == fs.len(),
        forall|i: int|
            0 <= i < es.len() ==> (#[trigger] es[i]).word@ == fs[i].word@ && agree(
                es[i].pattern,
                fs[i].pattern,
                src,
            ),
    ensures
        group_len(es, toks, src) == group_len(fs, toks, src),
    decreases es.len(),
{
    if es.len() > 0 {
        assert(es[0].word@ == fs[0].word@ && agree(es[0].pattern, fs[0].pattern, src));
        assert(pattern_len(es[0].pattern, toks, src) == pattern_len(fs[0].pattern, toks, src));
        let er = es.subrange(1, es.len() as int);
        let fr = fs.subrange(1, fs.len() as int);
        assert forall|i: int| 0 <= i < er.len() implies (#[trigger] er[i]).word@ == fr[i].word@
            && agree(er[i].pattern, fr[i].pattern, src) by {
            assert(er[i] == es[i + 1] && fr[i] == fs[i + 1]);
        }
        lemma_group_congruent(er, fr, src, toks);
    }
}

/// Sequences whose parts agree agree.
proof fn lemma_sequences_agree(p: Pattern, q: Pattern, src: Seq<char>)
    requires
        p is Sequence,
        q is Sequence,
        p->Sequence_0@.len() == q->Sequence_0@.len(),
        forall|i: int|
            0 <= i < p->Sequence_0@.len() ==> agree(#[trigger] p->Sequence_0@[i], q->Sequence_0@[i], src),
    ensures
        agree(p, q, src),
{
    assert forall|t: Seq<Token>| #[trigger] pattern_len(p, t, src) == pattern_len(q, t, src) by {
        lemma_sequence_congruent(p->Sequence_0@, q->Sequence_0@, src, t);
    }
}

proof fn lemma_eithers_agree(p: Pattern, q: Pattern, src: Seq<char>)
    requires
        p is Either,
        q is Either,
        p->Either_0@.len() == q->Either_0@.len(),
        forall|i: int|
            0 <= i < p->Either_0@.len() ==> agree(#[trigger] p->Either_0@[i], q->Either_0@[i], src),
    ensures
        agree(p, q, src),
{
    assert forall|t: Seq<Token>| #[trigger] pattern_len(p, t, src) == pattern_len(q, t, src) by {
        lemma_either_congruent(p->Either_0@, q->Either_0@, src, t);
    }
}

proof fn lemma_equal_sequences_agree(p: Pattern, q: Pattern, src: Seq<char>)
    requires
        p is Sequence,
        q is Sequence,
        p->Sequence_0@ == q->Sequence_0@,
    ensures
        agree(p, q, src),
{
    lemma_sequences_agree(p, q, src);
}

proof fn lemma_environments_agree(p: Pattern, q: Pattern, src: Seq<char>)
    requires
        is_environment(p),
        is_environment(q),
    ensures
        agree(p, q, src),
{
    let ps = p->Sequence_0@;
    let qs = q->Sequence_0@;
    let pc = ps[1]->Either_0@;
    let qc = qs[1]->Either_0@;
    assert(pc[0]->Sequence_0@ =~= qc[0]->Sequence_0@);
    lemma_equal_sequences_agree(pc[0], qc[0], src);
    lemma_equal_sequences_agree(pc[1], qc[1], src);
    assert forall|i: int| 0 <= i < pc.len() implies agree(#[trigger] pc[i], qc[i], src) by {}
    lemma_eithers_agree(ps[1], qs[1], src);
    assert forall|i: int| 0 <= i < ps.len() implies agree(#[trigger] ps[i], qs[i], src) by {}
    lemma_sequences_agree(p, q, src);
}

proof fn lemma_triggers_agree(p: Pattern, q: Pattern, word: Seq<char>, src: Seq<char>)
    requires
        is_trigger(p, word),
        is_trigger(q, word),
    ensures
        agree(p, q, src),
{
    let ps = p->Sequence_0@;
    let qs = q->Sequence_0@;
    lemma_environments_agree(ps[1], qs[1], src);
    assert(ps[0]->ExactWord_0@ == qs[0]->ExactWord_0@);
    assert forall|t: Seq<Token>| #[trigger] pattern_len(ps[0], t, src) == pattern_len(qs[0], t, src) by {}
    assert forall|i: int| 0 <= i < ps.len() implies agree(#[trigger] ps[i], qs[i], src) by {}
    lemma_sequences_agree(p, q, src);
}

proof fn lemma_single_words_agree(p: Pattern, q: Pattern, word: Seq<char>, src: Seq<char>)
    requires
        is_single_word_or_lowercase(p, word),
        is_single_word_or_lowercase(q, word),
    ensures
        agree(p, q, src),
{
    let ps = p->Sequence_0@;
    let qs = q->Sequence_0@;
    assert(ps[0]->ExactWordOrLowercase_0@ == qs[0]->ExactWordOrLowercase_0@);
    assert forall|t: Seq<Token>| #[trigger] pattern_len(ps[0], t, src) == pattern_len(qs[0], t, src) by {}
    assert forall|i: int| 0 <= i < ps.len() implies agree(#[trigger] ps[i], qs[i], src) by {}
    lemma_sequences_agree(p, q, src);
}

/// Two patterns of the genitive shape take the same tokens from any tokens.
pub proof fn lemma_genitive_patterns_agree(p: Pattern, q: Pattern, src: Seq<char>)
    requires
        is_genitive_pattern(p),
        is_genitive_pattern(q),
    ensures
        agree(p, q, src),
{
    let v = p->Sequence_0@;
    let w = q->Sequence_0@;
    let pe = v[0]->Invert_0.inner;
    let qe = w[0]->Invert_0.inner;
    let pes = pe->Either_0@;
    let qes = qe->Either_0@;
    lemma_single_words_agree(pes[0], qes[0], "Is"@, src);
    lemma_single_words_agree(pes[1], qes[1], "Were"@, src);
    lemma_equal_sequences_agree(pes[2], qes[2], src);
    assert forall|i: int| 0 <= i < pes.len() implies agree(#[trigger] pes[i], qes[i], src) by {}
    lemma_eithers_agree(*pe, *qe, src);
    assert forall|t: Seq<Token>| #[trigger] pattern_len(v[0], t, src) == pattern_len(w[0], t, src) by {
        assert(pattern_len(*pe, t, src) == pattern_len(*qe, t, src));
    }
    let pg = v[2]->WordGroup_0.entries@;
    let qg = w[2]->WordGroup_0.entries@;
    lemma_triggers_agree(pg[0].pattern, qg[0].pattern, "there"@, src);
    lemma_triggers_agree(pg[1].pattern, qg[1].pattern, "they're"@, src);
    assert forall|i: int| 0 <= i < pg.len() implies (#[trigger] pg[i]).word@ == qg[i].word@
        && agree(pg[i].pattern, qg[i].pattern, src) by {}
    assert forall|t: Seq<Token>| #[trigger] pattern_len(v[2], t, src) == pattern_len(w[2], t, src) by {
        lemma_group_congruent(pg, qg, src, t);
    }
    assert forall|i: int| 0 <= i < v.len() implies agree(#[trigger] v[i], w[i], src) by {}
    lemma_sequences_agree(p, q, src);
}

} // verus!
