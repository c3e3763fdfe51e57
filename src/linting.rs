use vstd::prelude::*;

use crate::span::Span;
use crate::text::str_to_chars;

verus! {

#[derive(Clone, Copy, Debug, PartialEq, Eq, Structural)]
pub enum LintKind {
    Spelling,
    Capitalization,
    Punctuation,
    Readability,
    Style,
    Miscellaneous,
    Repetition,
    Enhancement,
    BoundaryError,
    WordChoice,
}

/// The name of a category as shown to a reader.
pub open spec fn kind_name(k: LintKind) -> Seq<char> {
    match k {
        LintKind::Spelling => "Spelling"@,
        LintKind::Capitalization => "Capitalization"@,
        LintKind::Punctuation => "Punctuation"@,
        LintKind::Readability => "Readability"@,
        LintKind::Style => "Style"@,
        LintKind::Miscellaneous => "Miscellaneous"@,
        LintKind::Repetition => "Repetition"@,
        LintKind::Enhancement => "Enhancement"@,
        LintKind::BoundaryError => "Boundary Error"@,
        LintKind::WordChoice => "Word Choice"@,
    }
}

impl LintKind {
    /// The name of the category as shown to a reader.
    pub fn to_string(&self) -> (r: String)
        ensures
            r@ == kind_name(*self),
    {
        let s = match self {
            LintKind::Spelling => "Spelling",
            LintKind::Capitalization => "Capitalization",
            LintKind::Punctuation => "Punctuation",
            LintKind::Readability => "Readability",
            LintKind::Style => "Style",
            LintKind::Miscellaneous => "Miscellaneous",
            LintKind::Repetition => "Repetition",
            LintKind::Enhancement => "Enhancement",
            LintKind::BoundaryError => "Boundary Error",
            LintKind::WordChoice => "Word Choice",
        };
        String::from_str(s)
    }
}

/// A change to the text that would fix a lint.
#[derive(Clone, Debug)]
pub enum Suggestion {
    ReplaceWith(Vec<char>),
    Remove,
}

/// The text that a suggestion puts in place of the span.
pub open spec fn replacement_of(s: Suggestion) -> Seq<char> {
    match s {
        Suggestion::ReplaceWith(v) => v@,
        Suggestion::Remove => Seq::empty(),
    }
}

/// `source` with `span` replaced as `s` says.
pub open spec fn applied(source: Seq<char>, span: Span, s: Suggestion) -> Seq<char> {
    source.subrange(0, span.start as int) + replacement_of(s) + source.subrange(
        span.end as int,
        source.len() as int,
    )
}

impl Suggestion {
    /// A copy of this suggestion.
    pub fn duplicate(&self) -> (r: Suggestion)
        ensures
            r@ == self@,
    {
        match self {
            Suggestion::ReplaceWith(v) => {
                let s = crate::span::Span::new(0, v.len());
                assert(v@.subrange(0, v@.len() as int) =~= v@);
                Suggestion::ReplaceWith(s.get_content(v.as_slice()))
            },
            Suggestion::Remove => Suggestion::Remove,
        }
    }

    /// Replaces the characters under `span` in `source`.
    pub fn apply(&self, span: Span, source: &mut Vec<char>)
        requires
            span.start <= span.end <= old(source)@.len(),
        ensures
            final(source)@ == applied(old(source)@, span, *self),
    {
        let mut out: Vec<char> = Vec::new();
        let mut i: usize = 0;
        while i < span.start
            invariant
                i <= span.start <= span.end <= source@.len(),
                out@ == source@.subrange(0, i as int),
            decreases span.start - i,
        {
            out.push(source[i]);
            i += 1;
        }
        if let Suggestion::ReplaceWith(r) = self {
            let mut k: usize = 0;
            while k < r.len()
                invariant
                    k <= r@.len(),
                    out@ == source@.subrange(0, span.start as int) + r@.subrange(0, k as int),
                decreases r@.len() - k,
            {
                out.push(r[k]);
                k += 1;
            }
            assert(r@.subrange(0, r@.len() as int) =~= r@);
        }
        let ghost mid = out@;
        assert(mid =~= source@.subrange(0, span.start as int) + replacement_of(*self));
        let mut j: usize = span.end;
        while j < source.len()
            invariant
                span.end <= j <= source@.len(),
                out@ == mid + source@.subrange(span.end as int, j as int),
            decreases source@.len() - j,
        {
            out.push(source[j]);
            j += 1;
        }
        assert(out@ =~= applied(source@, span, *self));
        *source = out;
    }
}

/// A diagnostic: where, what kind, what to do about it, and how much it
/// matters (lower numbers win where lints overlap).
#[derive(Clone, Debug)]
pub struct Lint {
    pub span: Span,
    pub lint_kind: LintKind,
    pub suggestions: Vec<Suggestion>,
    pub message: String,
    pub priority: u8,
}

impl Lint {
    pub fn new(
        span: Span,
        lint_kind: LintKind,
        suggestions: Vec<Suggestion>,
        message: &str,
        priority: u8,
    ) -> (r: Lint)
        ensures
            r.span == span,
            r.lint_kind == lint_kind,
            r.suggestions@ == suggestions@,
            r.message@ == message@,
            r.priority == priority,
    {
        Lint { span, lint_kind, suggestions, message: String::from_str(message), priority }
    }
}

/// A suggestion that replaces with the characters of `s`.
pub fn replace_with_str(s: &str) -> (r: Suggestion)
    ensures
        r matches Suggestion::ReplaceWith(v) && v@ == s@,
{
    Suggestion::ReplaceWith(str_to_chars(s))
}

/// Applying a replacement changes the length by the replacement's length
/// less the span's.
pub proof fn lemma_apply_length(source: Seq<char>, span: Span, s: Suggestion)
    requires
        span.start <= span.end <= source.len(),
    ensures
        applied(source, span, s).len() == source.len() + replacement_of(s).len() - (span.end
            - span.start),
{
}

/// Replacing a span with its own text gives the text back.
pub proof fn lemma_apply_identity(source: Seq<char>, span: Span, s: Suggestion)
    requires
        span.start <= span.end <= source.len(),
        replacement_of(s) == source.subrange(span.start as int, span.end as int),
    ensures
        applied(source, span, s) == source,
{
    assert(applied(source, span, s) =~= source);
}

/// What a lint says, as values.
pub struct LintView {
    pub span: Span,
    pub lint_kind: LintKind,
    pub suggestions: Seq<SuggestionView>,
    pub message: Seq<char>,
    pub priority: u8,
}

pub enum SuggestionView {
    ReplaceWith(Seq<char>),
    Remove,
}

impl View for Suggestion {
    type V = SuggestionView;

    open spec fn view(&self) -> SuggestionView {
        match self {
            Suggestion::ReplaceWith(v) => SuggestionView::ReplaceWith(v@),
            Suggestion::Remove => SuggestionView::Remove,
        }
    }
}

impl View for Lint {
    type V = LintView;

    open spec fn view(&self) -> LintView {
        LintView {
            span: self.span,
            lint_kind: self.lint_kind,
            suggestions: Seq::new(self.suggestions@.len(), |i: int| self.suggestions@[i]@),
            message: self.message@,
            priority: self.priority,
        }
    }
}

pub open spec fn lints_view(lints: Seq<Lint>) -> Seq<LintView> {
    Seq::new(lints.len(), |i: int| lints[i]@)
}

pub proof fn lemma_lints_view_push(lints: Seq<Lint>, l: Lint)
    ensures
        lints_view(lints.push(l)) == lints_view(lints).push(l@),
{
    assert(lints_view(lints.push(l)) =~= lints_view(lints).push(l@));
}

pub proof fn lemma_lints_view_append(a: Seq<Lint>, b: Seq<Lint>)
    ensures
        lints_view(a + b) == lints_view(a) + lints_view(b),
{
    assert(lints_view(a + b) =~= lints_view(a) + lints_view(b));
}

/// Appends the lints of `more` to `lints`.
pub fn append_lints(lints: &mut Vec<Lint>, more: Vec<Lint>)
    ensures
        lints_view(final(lints)@) == lints_view(old(lints)@) + lints_view(more@),
{
    let mut more = more;
    lints.append(&mut more);
    proof {
        lemma_lints_view_append(old(lints)@, more@);
    }
}

} // verus!
