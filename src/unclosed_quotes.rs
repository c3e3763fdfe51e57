use vstd::prelude::*;

use crate::document::Document;
use crate::linting::{lemma_lints_view_push, lints_view, Lint, LintKind, LintView, Suggestion};
use crate::token::{Token, TokenKind};

verus! {

pub open spec fn unclosed_quote_lint(t: Token) -> LintView {
    LintView {
        span: t.span,
        lint_kind: LintKind::Punctuation,
        suggestions: Seq::empty(),
        message: "This quote has no termination."@,
        priority: 255,
    }
}

/// One lint for each quote without a partner, in order.
pub open spec fn unclosed_quotes_lints(toks: Seq<Token>) -> Seq<LintView>
    decreases toks.len(),
{
    if toks.len() == 0 {
        Seq::empty()
    } else {
        let prev = unclosed_quotes_lints(toks.drop_last());
        if toks.last().kind == TokenKind::Quote(None) {
            prev.push(unclosed_quote_lint(toks.last()))
        } else {
            prev
        }
    }
}

/// Flags quotation marks that no other quote closes.
#[derive(Clone, Copy)]
pub struct UnclosedQuotes;

impl UnclosedQuotes {
    pub fn lint(&self, document: &Document) -> (r: Vec<Lint>)
        ensures
            lints_view(r@) == unclosed_quotes_lints(document.spec_tokens()),
    {
        let tokens = document.get_tokens();
        let mut lints: Vec<Lint> = Vec::new();
        let mut k: usize = 0;
        while k < tokens.len()
            invariant
                k <= tokens@.len(),
                tokens@ == document.spec_tokens(),
                lints_view(lints@) == unclosed_quotes_lints(tokens@.subrange(0, k as int)),
            decreases tokens@.len() - k,
        {
            let t = tokens[k];
            assert(tokens@.subrange(0, k + 1).drop_last() =~= tokens@.subrange(0, k as int));
            if t.kind == TokenKind::Quote(None) {
                let l = Lint::new(
                    t.span,
                    LintKind::Punctuation,
                    Vec::new(),
                    "This quote has no termination.",
                    255,
                );
                proof {
                    lemma_lints_view_push(lints@, l);
                    assert(l@.suggestions =~= Seq::<crate::linting::SuggestionView>::empty());
                }
                lints.push(l);
            }
            k += 1;
        }
        assert(tokens@.subrange(0, k as int) =~= tokens@);
        lints
    }
}

} // verus!
