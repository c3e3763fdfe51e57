use vstd::prelude::*;

use crate::dictionary::{curated_entries, Entries, MergedDictionary};
use crate::document::tokens_with_metadata;
use crate::parsers::parse_spec;
use crate::document::Document;
use crate::language::{is_doc_likely_english, likely_english};
use crate::lint_group::{LintGroup, LintGroupConfig};
use crate::linting::{applied, lints_view, replacement_of, LintView, SuggestionView};
use crate::overlaps::{no_overlaps, remove_overlaps, resolved};
use crate::parsers::{IsolateEnglish, Parser};
use crate::text::{chars_to_string, str_to_chars};

verus! {

/// A range of characters, as handed to and from a host.
#[derive(Clone, Copy, Debug, PartialEq, Eq, Structural)]
pub struct Span {
    pub start: usize,
    pub end: usize,
}

impl Span {
    pub fn new(start: usize, end: usize) -> (r: Span)
        ensures
            r.start == start,
            r.end == end,
    {
        Span { start, end }
    }

    pub open spec fn spec_inner(self) -> crate::span::Span {
        crate::span::Span { start: self.start, end: self.end }
    }
}

#[derive(Clone, Copy, Debug, PartialEq, Eq, Structural)]
pub enum SuggestionKind {
    Replace,
    Remove,
}

/// A suggested change, as handed to a host.
pub struct Suggestion {
    inner: crate::linting::Suggestion,
}

impl Suggestion {
    pub closed spec fn spec_inner(&self) -> crate::linting::Suggestion {
        self.inner
    }

    pub fn new(inner: crate::linting::Suggestion) -> (r: Suggestion)
        ensures
            r.spec_inner() == inner,
    {
        Suggestion { inner }
    }

    /// The text that would replace the problem; empty for a removal.
    pub fn get_replacement_text(&self) -> (r: String)
        ensures
            r@ == replacement_of(self.spec_inner()),
    {
        match &self.inner {
            crate::linting::Suggestion::Remove => String::new(),
            crate::linting::Suggestion::ReplaceWith(chars) => chars_to_string(chars.as_slice()),
        }
    }

    pub fn kind(&self) -> (r: SuggestionKind)
        ensures
            r == (if self.spec_inner() is Remove {
                SuggestionKind::Remove
            } else {
                SuggestionKind::Replace
            }),
    {
        match &self.inner {
            crate::linting::Suggestion::Remove => SuggestionKind::Remove,
            crate::linting::Suggestion::ReplaceWith(_) => SuggestionKind::Replace,
        }
    }
}

/// A lint together with the text it was found in.
pub struct Lint {
    inner: crate::linting::Lint,
    source: Vec<char>,
}

impl Lint {
    pub closed spec fn spec_inner(&self) -> LintView {
        self.inner@
    }

    pub closed spec fn spec_source(&self) -> Seq<char> {
        self.source@
    }

    pub fn new(inner: crate::linting::Lint, source: Vec<char>) -> (r: Lint)
        ensures
            r.spec_inner() == inner@,
            r.spec_source() == source@,
    {
        Lint { inner, source }
    }

    /// The text under the lint's span; empty where the span is not within
    /// the text.
    pub fn get_problem_text(&self) -> (r: String)
        ensures
            self.spec_inner().span.start <= self.spec_inner().span.end <= self.spec_source().len()
                ==> r@ == self.spec_source().subrange(
                self.spec_inner().span.start as int,
                self.spec_inner().span.end as int,
            ),
            !(self.spec_inner().span.start <= self.spec_inner().span.end
                <= self.spec_source().len()) ==> r@ == Seq::<char>::empty(),
    {
        let s = self.inner.span;
        if s.start <= s.end && s.end <= self.source.len() {
            let chars = s.get_content(self.source.as_slice());
            chars_to_string(chars.as_slice())
        } else {
            String::new()
        }
    }

    /// The name of the lint's category.
    pub fn lint_kind(&self) -> (r: String)
        ensures
            r@ == crate::linting::kind_name(self.spec_inner().lint_kind),
    {
        self.inner.lint_kind.to_string()
    }

    pub fn suggestion_count(&self) -> (r: usize)
        ensures
            r == self.spec_inner().suggestions.len(),
    {
        self.inner.suggestions.len()
    }

    pub fn suggestions(&self) -> (r: Vec<Suggestion>)
        ensures
            r@.len() == self.spec_inner().suggestions.len(),
            forall|i: int|
                0 <= i < r@.len() ==> (#[trigger] r@[i]).spec_inner()@
                    == self.spec_inner().suggestions[i],
    {
        let mut out: Vec<Suggestion> = Vec::new();
        let mut i: usize = 0;
        while i < self.inner.suggestions.len()
            invariant
                i <= self.inner.suggestions@.len(),
                out@.len() == i,
                forall|k: int|
                    0 <= k < i ==> (#[trigger] out@[k]).spec_inner()@ == self.inner.suggestions@[k]@,
            decreases self.inner.suggestions@.len() - i,
        {
            out.push(Suggestion::new(self.inner.suggestions[i].duplicate()));
            i += 1;
        }
        out
    }

    pub fn span(&self) -> (r: Span)
        ensures
            r.spec_inner() == self.spec_inner().span,
    {
        Span::new(self.inner.span.start, self.inner.span.end)
    }

    pub fn message(&self) -> (r: String)
        ensures
            r@ == self.spec_inner().message,
    {
        chars_to_string(str_to_chars(self.inner.message.as_str()).as_slice())
    }
}

/// The tokens of `text` read as plain English with `dict`.
pub open spec fn plain_tokens(text: Seq<char>, dict: Seq<Entries>) -> Seq<crate::token::Token> {
    tokens_with_metadata(parse_spec(Parser::PlainEnglish, text), text, dict)
}

pub open spec fn web_lints_view(lints: Seq<Lint>) -> Seq<LintView> {
    Seq::new(lints.len(), |i: int| lints[i].spec_inner())
}

/// Lints `text` as plain English with `dictionary` and the rules that
/// `config` enables, with overlaps resolved.
pub fn lint_with_dictionary(text: &str, config: &LintGroupConfig, dictionary: MergedDictionary) -> (r:
    Vec<Lint>)
    ensures
        exists|doc: Document, group: LintGroup|
            doc.spec_source() == text@ && doc.spec_tokens() == plain_tokens(text@, dictionary@)
                && group.is_built_with(*config, dictionary@) && web_lints_view(r@) == resolved(
                group.lints_spec(&doc),
            ),
        no_overlaps(web_lints_view(r@)),
        forall|i: int| 0 <= i < r@.len() ==> (#[trigger] r@[i]).spec_source() == text@,
        forall|i: int|
            0 <= i < r@.len() ==> (#[trigger] r@[i]).spec_inner().span.start <= r@[i].spec_inner().span.end
                <= text@.len(),
{
    let source = str_to_chars(text);
    let document = Document::new_from_vec(source, &Parser::PlainEnglish, &dictionary);
    let group = LintGroup::new(*config, dictionary);
    let mut lints = group.lint(&document);
    remove_overlaps(&mut lints);
    let toks = document.get_tokens();
    proof {
        crate::placement::lemma_resolved_lints_within(
            &group,
            &document,
            document.spec_source().len() as int,
        );
    }
    let src = document.get_source();
    let mut out: Vec<Lint> = Vec::new();
    let mut rest = lints;
    let ghost all = lints_view(rest@);
    let ghost mut n: int = 0;
    assert(all.subrange(0, all.len() as int) =~= all);
    while rest.len() > 0
        invariant
            0 <= n <= all.len(),
            lints_view(rest@) == all.subrange(n, all.len() as int),
            web_lints_view(out@) == all.subrange(0, n),
            forall|i: int| 0 <= i < out@.len() ==> (#[trigger] out@[i]).spec_source() == text@,
            src@ == text@,
        decreases rest@.len(),
    {
        proof {
            assert(lints_view(rest@).len() == rest@.len());
            assert(all.subrange(n, all.len() as int)[0] == all[n]);
            assert(lints_view(rest@)[0] == rest@[0]@);
            assert(lints_view(rest@.remove(0)) =~= lints_view(rest@).subrange(1, rest@.len() as int));
            assert(all.subrange(n + 1, all.len() as int) =~= all.subrange(n, all.len() as int).subrange(
                1,
                all.len() - n,
            ));
        }
        let l = rest.remove(0);
        assert(l@ == all[n]);
        let whole = crate::span::Span::new(0, src.len());
        let copy = whole.get_content(src);
        assert(src@.subrange(0, src@.len() as int) =~= src@);
        let w = Lint::new(l, copy);
        let ghost before = out@;
        out.push(w);
        proof {
            assert(out@ == before.push(w));
            assert(web_lints_view(out@) =~= web_lints_view(before).push(w.spec_inner()));
            assert(web_lints_view(out@) =~= all.subrange(0, n + 1));
            n = n + 1;
        }
    }
    assert(web_lints_view(out@) =~= all);
    assert forall|i: int| 0 <= i < out@.len() implies (#[trigger] out@[i]).spec_inner().span.start
        <= out@[i].spec_inner().span.end <= text@.len() by {
        assert(web_lints_view(out@)[i] == out@[i].spec_inner());
    }
    out
}

/// Linting the same text twice gives the same lints: any two results that
/// `lint_with_dictionary` may give for one text, configuration and
/// dictionary are equal.
pub proof fn lemma_lint_results_agree(
    text: Seq<char>,
    config: LintGroupConfig,
    dictionary: Seq<Entries>,
    first: Seq<LintView>,
    second: Seq<LintView>,
)
    requires
        exists|doc: Document, group: LintGroup|
            doc.spec_source() == text && doc.spec_tokens() == plain_tokens(text, dictionary)
                && group.is_built_with(config, dictionary) && first == resolved(group.lints_spec(&doc)),
        exists|doc: Document, group: LintGroup|
            doc.spec_source() == text && doc.spec_tokens() == plain_tokens(text, dictionary)
                && group.is_built_with(config, dictionary) && second == resolved(group.lints_spec(&doc)),
    ensures
        first == second,
{
    let (d1, g1) = choose|doc: Document, group: LintGroup|
        doc.spec_source() == text && doc.spec_tokens() == plain_tokens(text, dictionary)
            && group.is_built_with(config, dictionary) && first == resolved(group.lints_spec(&doc));
    let (d2, g2) = choose|doc: Document, group: LintGroup|
        doc.spec_source() == text && doc.spec_tokens() == plain_tokens(text, dictionary)
            && group.is_built_with(config, dictionary) && second == resolved(group.lints_spec(&doc));
    crate::lint_group::lemma_built_groups_agree(&g1, &g2, config, dictionary, &d1, &d2);
}

/// Lints `text` as plain English with the built-in word list.
pub fn lint(text: &str, config: &LintGroupConfig) -> (r: Vec<Lint>)
    ensures
        exists|doc: Document, group: LintGroup|
            doc.spec_source() == text@ && doc.spec_tokens() == plain_tokens(text@, seq![curated_entries()])
                && group.is_built_with(*config, seq![curated_entries()]) && web_lints_view(r@)
                == resolved(group.lints_spec(&doc)),
        no_overlaps(web_lints_view(r@)),
        forall|i: int| 0 <= i < r@.len() ==> (#[trigger] r@[i]).spec_source() == text@,
        forall|i: int|
            0 <= i < r@.len() ==> (#[trigger] r@[i]).spec_inner().span.start <= r@[i].spec_inner().span.end
                <= text@.len(),
{
    lint_with_dictionary(text, config, MergedDictionary::curated())
}

/// Applies `suggestion` to `span` of `text`; an error where the span does not
/// lie within the text.
pub fn apply_suggestion(text: &str, span: Span, suggestion: &Suggestion) -> (r: Result<String, String>)
    ensures
        r is Ok <==> span.start <= span.end <= text@.len(),
        r matches Ok(s) ==> s@ == applied(text@, span.spec_inner(), suggestion.spec_inner()),
{
    let mut source = str_to_chars(text);
    if span.start > span.end || span.end > source.len() {
        return Err(String::from_str("The span does not lie within the text."));
    }
    let inner = crate::span::Span::new(span.start, span.end);
    suggestion.inner.apply(inner, &mut source);
    Ok(chars_to_string(source.as_slice()))
}

/// Whether a plain string reads as English, judged with `dictionary`.
pub fn is_likely_english_with(text: &str, dictionary: &MergedDictionary) -> (r: bool)
    ensures
        r == likely_english(plain_tokens(text@, dictionary@), text@, dictionary@),
{
    let document = Document::new(text, &Parser::PlainEnglish, dictionary);
    is_doc_likely_english(&document, dictionary)
}

/// Whether a plain string reads as English, judged with the built-in word
/// list.
pub fn is_likely_english(text: &str) -> (r: bool)
    ensures
        r == likely_english(
            plain_tokens(text@, seq![curated_entries()]),
            text@,
            seq![curated_entries()],
        ),
{
    is_likely_english_with(text, &MergedDictionary::curated())
}

/// The text of a document whose non-English chunks are made unlintable;
/// every character stays where it was.
pub fn isolate_english(text: &str) -> (r: String)
    ensures
        r@ == text@,
{
    let parser = Parser::IsolateEnglish(
        Box::new(IsolateEnglish::new(Parser::PlainEnglish, MergedDictionary::curated())),
    );
    let document = Document::new(text, &parser, &MergedDictionary::curated());
    document.to_string()
}

} // verus!
