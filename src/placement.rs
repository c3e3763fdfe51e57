use vstd::prelude::*;

use crate::dictionary::Entries;
use crate::document::Document;
use crate::lint_group::{rule_at, rule_enabled, LintGroup, Rule};
use crate::linting::LintView;
use crate::overlaps::{resolve_state, resolved, sorted_lints, insert_pos};
use crate::parsers::lemma_tile_window;
use crate::repeated_words::repeated_words_lints;
use crate::spell_check::spell_check_lints;
use crate::spelled_numbers::spelled_numbers_lints;
use crate::token::{tokens_tile, Token};
use crate::token_rules::{token_lint, token_rule_lints, TokenRule};
use crate::unclosed_quotes::unclosed_quotes_lints;
use crate::use_genitive::{genitive_lints, trigger_index};
use crate::window_rules::{
    lemma_first_phrase, period_run, sentence_end, window_lint, window_rule_lints, WindowRule,
};
use crate::span::Span;

verus! {

/// Every lint's span lies within `[0, n)`.
pub open spec fn spans_within(s: Seq<LintView>, n: int) -> bool {
    forall|k: int| 0 <= k < s.len() ==> (#[trigger] s[k]).span.start <= s[k].span.end <= n
}

/// Each token lies within `[0, n)`, and a later token ends after an earlier
/// one starts.
pub open spec fn placed(toks: Seq<Token>, n: int) -> bool {
    &&& forall|k: int| 0 <= k < toks.len() ==> 0 <= (#[trigger] toks[k]).span.start <= toks[k].span.end <= n
    &&& forall|a: int, b: int|
        #![trigger toks[a].span.start, toks[b].span.end]
        0 <= a <= b < toks.len() ==> toks[a].span.start <= toks[b].span.end
    &&& forall|k: int|
        #![trigger toks[k].span.end, toks[k + 1].span.start]
        0 <= k < toks.len() - 1 ==> toks[k].span.end <= toks[k + 1].span.start
}

pub proof fn lemma_placed(toks: Seq<Token>, n: int)
    requires
        tokens_tile(toks, 0, n),
    ensures
        placed(toks, n),
{
    assert forall|k: int| 0 <= k < toks.len() implies 0 <= (#[trigger] toks[k]).span.start
        <= toks[k].span.end <= n by {
        lemma_tile_window(toks, 0, n, k, k + 1);
    }
    assert forall|a: int, b: int|
        #![trigger toks[a].span.start, toks[b].span.end]
        0 <= a <= b < toks.len() implies toks[a].span.start <= toks[b].span.end by {
        lemma_tile_window(toks, 0, n, a, b + 1);
    }
    assert forall|k: int|
        #![trigger toks[k].span.end, toks[k + 1].span.start]
        0 <= k < toks.len() - 1 implies toks[k].span.end <= toks[k + 1].span.start by {
        lemma_tile_window(toks, 0, n, k, k + 1);
    }
}

proof fn lemma_spelled_within(toks: Seq<Token>, n: int)
    requires
        placed(toks, n),
    ensures
        spans_within(spelled_numbers_lints(toks), n),
    decreases toks.len(),
{
    if toks.len() > 0 {
        lemma_spelled_within(toks.drop_last(), n);
        assert(toks.drop_last().len() < toks.len());
        assert(placed(toks.drop_last(), n));
    }
}

proof fn lemma_unclosed_within(toks: Seq<Token>, n: int)
    requires
        placed(toks, n),
    ensures
        spans_within(unclosed_quotes_lints(toks), n),
    decreases toks.len(),
{
    if toks.len() > 0 {
        assert(placed(toks.drop_last(), n));
        lemma_unclosed_within(toks.drop_last(), n);
    }
}

proof fn lemma_spell_within(toks: Seq<Token>, src: Seq<char>, dict: Seq<Entries>, n: int)
    requires
        placed(toks, n),
    ensures
        spans_within(spell_check_lints(toks, src, dict), n),
    decreases toks.len(),
{
    if toks.len() > 0 {
        assert(placed(toks.drop_last(), n));
        lemma_spell_within(toks.drop_last(), src, dict, n);
    }
}

proof fn lemma_token_rule_within(rule: TokenRule, toks: Seq<Token>, src: Seq<char>, n: int)
    requires
        placed(toks, n),
    ensures
        spans_within(token_rule_lints(rule, toks, src), n),
    decreases toks.len(),
{
    if toks.len() > 0 {
        assert(placed(toks.drop_last(), n));
        lemma_token_rule_within(rule, toks.drop_last(), src, n);
        assert(toks.last() == toks[toks.len() - 1]);
    }
}

proof fn lemma_repeated_within(toks: Seq<Token>, src: Seq<char>, n: int, m: int)
    requires
        placed(toks, n),
    ensures
        spans_within(repeated_words_lints(toks, src, m), n),
    decreases m,
{
    if m > 0 {
        lemma_repeated_within(toks, src, n, m - 1);
        let i = m - 1;
        let prev = repeated_words_lints(toks, src, m - 1);
        let cur = repeated_words_lints(toks, src, m);
        if 0 <= i && i + 2 < toks.len() {
            assert(toks[i].span.start <= toks[i].span.end);
            assert(toks[i + 1].span.start <= toks[i + 1].span.end);
            assert(toks[i + 2].span.start <= toks[i + 2].span.end);
            assert(toks[i].span.end <= toks[i + 1].span.start);
            let j = i + 1;
            assert(toks[j].span.end <= toks[j + 1].span.start);
        }
        assert forall|k: int| 0 <= k < cur.len() implies (#[trigger] cur[k]).span.start
            <= cur[k].span.end <= n by {
            if k < prev.len() {
                assert(cur[k] == prev[k]);
            }
        }
    }
}

proof fn lemma_period_run(toks: Seq<Token>, i: int)
    requires
        0 <= i <= toks.len(),
    ensures
        i + period_run(toks, i) <= toks.len(),
    decreases toks.len() - i,
{
    if i < toks.len() {
        lemma_period_run(toks, i + 1);
    }
}

proof fn lemma_sentence_end(toks: Seq<Token>, i: int)
    requires
        0 <= i < toks.len(),
    ensures
        i < sentence_end(toks, i) <= toks.len(),
    decreases toks.len() - i,
{
    if i + 1 < toks.len() {
        lemma_sentence_end(toks, i + 1);
    } else {
        assert(sentence_end(toks, i + 1) == toks.len());
    }
}

proof fn lemma_window_lint_within(rule: WindowRule, toks: Seq<Token>, src: Seq<char>, n: int, i: int)
    requires
        placed(toks, n),
    ensures
        window_lint(rule, toks, src, i) matches Some(l) ==> l.span.start <= l.span.end <= n,
{
    lemma_first_phrase(toks, src, i, 0);
    if 0 <= i < toks.len() {
        assert(toks[i].span.start <= toks[i].span.end);
        match rule {
            WindowRule::EllipsisLength => {
                lemma_period_run(toks, i);
                if period_run(toks, i) >= 2 {
                    let e = i + period_run(toks, i) - 1;
                    assert(toks[i].span.start <= toks[e].span.end);
                    assert(toks[e].span.start <= toks[e].span.end);
                }
            },
            WindowRule::LongSentences => {
                lemma_sentence_end(toks, i);
                let e = sentence_end(toks, i) - 1;
                assert(toks[i].span.start <= toks[e].span.end);
                assert(toks[e].span.start <= toks[e].span.end);
            },
            WindowRule::Matcher => {
                lemma_first_phrase(toks, src, i, 0);
                if let Some(k) = crate::window_rules::first_phrase(toks, src, i, 0) {
                    let e = crate::window_rules::phrase_last(i, k);
                    if e != i {
                        assert(crate::window_rules::word_pair_at(toks, src, i));
                    }
                    assert(toks[e].span.start <= toks[e].span.end);
                    assert(toks[i].span.start <= toks[e].span.end);
                }
            },
            _ => {
                if i + 2 < toks.len() {
                    assert(toks[i + 2].span.start <= toks[i + 2].span.end);
                    assert(toks[i].span.start <= toks[i + 2].span.end);
                }
            },
        }
    }
}

proof fn lemma_window_within(rule: WindowRule, toks: Seq<Token>, src: Seq<char>, n: int, m: int)
    requires
        placed(toks, n),
    ensures
        spans_within(window_rule_lints(rule, toks, src, m), n),
    decreases m,
{
    if m > 0 {
        lemma_window_within(rule, toks, src, n, m - 1);
        lemma_window_lint_within(rule, toks, src, n, m - 1);
        let prev = window_rule_lints(rule, toks, src, m - 1);
        let cur = window_rule_lints(rule, toks, src, m);
        assert forall|k: int| 0 <= k < cur.len() implies (#[trigger] cur[k]).span.start
            <= cur[k].span.end <= n by {
            if k < prev.len() {
                assert(cur[k] == prev[k]);
            }
        }
    }
}

proof fn lemma_genitive_within(wins: Seq<Span>, toks: Seq<Token>, n: int)
    requires
        placed(toks, n),
    ensures
        spans_within(genitive_lints(wins, toks), n),
    decreases wins.len(),
{
    if wins.len() > 0 {
        lemma_genitive_within(wins.drop_last(), toks, n);
        let w = wins.last();
        let m = toks.subrange(w.start as int, w.end as int);
        if w.start < w.end <= toks.len() && trigger_index(m) < m.len() && 0 <= trigger_index(m) {
            let t = w.start + trigger_index(m);
            assert(m[trigger_index(m)] == toks[t]);
            assert(toks[t].span.start <= toks[t].span.end);
        }
    }
}

proof fn lemma_trigger_nonneg(m: Seq<Token>)
    ensures
        trigger_index(m) >= 1,
{
}

proof fn lemma_rule_within(group: &LintGroup, rule: Rule, doc: &Document, n: int)
    requires
        placed(doc.spec_tokens(), n),
    ensures
        spans_within(group.rule_lints(rule, doc), n),
{
    let toks = doc.spec_tokens();
    let src = doc.spec_source();
    match rule {
        Rule::SpelledNumbers => lemma_spelled_within(toks, n),
        Rule::UnclosedQuotes => lemma_unclosed_within(toks, n),
        Rule::RepeatedWords => lemma_repeated_within(toks, src, n, toks.len() as int),
        Rule::UseGenitive => {
            let wins = crate::patterns::all_matches(group.use_genitive.spec_pattern(), toks, src);
            lemma_genitive_within(wins, toks, n);
        },
        Rule::SpellCheck => lemma_spell_within(toks, src, group.spell_check.dictionary@, n),
        Rule::Spaces => lemma_token_rule_within(TokenRule::Spaces, toks, src, n),
        Rule::CorrectNumberSuffix => lemma_token_rule_within(TokenRule::CorrectNumberSuffix, toks, src, n),
        Rule::NumberSuffixCapitalization => lemma_token_rule_within(
            TokenRule::NumberSuffixCapitalization,
            toks,
            src,
            n,
        ),
        Rule::AvoidCurses => lemma_token_rule_within(TokenRule::AvoidCurses, toks, src, n),
        Rule::DotInitialisms => lemma_token_rule_within(TokenRule::DotInitialisms, toks, src, n),
        Rule::BoringWords => lemma_token_rule_within(TokenRule::BoringWords, toks, src, n),
        Rule::CapitalizePersonalPronouns => lemma_token_rule_within(
            TokenRule::CapitalizePersonalPronouns,
            toks,
            src,
            n,
        ),
        Rule::AnA => lemma_window_within(WindowRule::AnA, toks, src, n, toks.len() as int),
        Rule::SentenceCapitalization => lemma_window_within(
            WindowRule::SentenceCapitalization,
            toks,
            src,
            n,
            toks.len() as int,
        ),
        Rule::WrongQuotes => lemma_window_within(WindowRule::WrongQuotes, toks, src, n, toks.len() as int),
        Rule::LongSentences => lemma_window_within(WindowRule::LongSentences, toks, src, n, toks.len() as int),
        Rule::Matcher => lemma_window_within(WindowRule::Matcher, toks, src, n, toks.len() as int),
        Rule::MultipleSequentialPronouns => lemma_window_within(
            WindowRule::MultipleSequentialPronouns,
            toks,
            src,
            n,
            toks.len() as int,
        ),
        Rule::LinkingVerbs => lemma_window_within(WindowRule::LinkingVerbs, toks, src, n, toks.len() as int),
        Rule::TerminatingConjunctions => lemma_window_within(
            WindowRule::TerminatingConjunctions,
            toks,
            src,
            n,
            toks.len() as int,
        ),
        Rule::EllipsisLength => lemma_window_within(WindowRule::EllipsisLength, toks, src, n, toks.len() as int),
        Rule::ThatWhich => lemma_window_within(WindowRule::ThatWhich, toks, src, n, toks.len() as int),
    }
}

proof fn lemma_upto_within(group: &LintGroup, doc: &Document, n: int, k: int)
    requires
        placed(doc.spec_tokens(), n),
    ensures
        spans_within(group.lints_upto(doc, k), n),
    decreases k,
{
    if k > 0 {
        lemma_upto_within(group, doc, n, k - 1);
        lemma_rule_within(group, rule_at(k - 1), doc, n);
    }
}

proof fn lemma_sorted_within(s: Seq<LintView>, n: int)
    requires
        spans_within(s, n),
    ensures
        spans_within(sorted_lints(s), n),
    decreases s.len(),
{
    if s.len() > 0 {
        lemma_sorted_within(s.drop_last(), n);
        let t = sorted_lints(s.drop_last());
        let p = insert_pos(t, s.last(), 0);
        crate::overlaps::lemma_insert_pos_bound(t, s.last(), 0);
        let r = t.insert(p, s.last());
        assert forall|k: int| 0 <= k < r.len() implies (#[trigger] r[k]).span.start
            <= r[k].span.end <= n by {
            if k < p {
                assert(r[k] == t[k]);
            } else if k > p {
                assert(r[k] == t[k - 1]);
            }
        }
    }
}

proof fn lemma_resolve_within(s: Seq<LintView>, n: int, m: int)
    requires
        spans_within(s, n),
    ensures
        spans_within(resolve_state(s, m).0, n),
        resolve_state(s, m).1 matches Some(li) ==> 0 <= li < resolve_state(s, m).0.len(),
    decreases m,
{
    if m > 0 && m <= s.len() {
        lemma_resolve_within(s, n, m - 1);
        let kept = resolve_state(s, m - 1).0;
        let last = resolve_state(s, m - 1).1;
        let nk = resolve_state(s, m).0;
        let c = s[m - 1];
        assert(c.span.start <= c.span.end <= n);
        if crate::overlaps::is_empty_span(c) {
            assert(nk == kept.push(c));
        } else {
            match last {
                None => {
                    assert(nk == kept.push(c));
                },
                Some(li) => {
                    if kept[li].span.spec_overlaps(c.span) {
                        if c.priority < kept[li].priority {
                            assert(nk == kept.update(li, c));
                        } else {
                            assert(nk == kept);
                        }
                    } else {
                        assert(nk == kept.push(c));
                    }
                },
            }
        }
        assert forall|k: int| 0 <= k < nk.len() implies (#[trigger] nk[k]).span.start
            <= nk[k].span.end <= n by {
            if k < kept.len() && nk[k] != c {
                assert(nk[k] == kept[k]);
            }
        }
    }
}

/// The lints a group leaves for a document, overlaps resolved, lie within its
/// text.
pub proof fn lemma_resolved_lints_within(group: &LintGroup, doc: &Document, n: int)
    requires
        tokens_tile(doc.spec_tokens(), 0, n),
    ensures
        spans_within(resolved(group.lints_spec(doc)), n),
{
    lemma_placed(doc.spec_tokens(), n);
    lemma_upto_within(group, doc, n, crate::lint_group::RULE_COUNT as int);
    lemma_sorted_within(group.lints_spec(doc), n);
    let s = sorted_lints(group.lints_spec(doc));
    lemma_resolve_within(s, n, s.len() as int);
}

} // verus!
