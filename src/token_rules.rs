use vstd::prelude::*;

use crate::document::Document;
use crate::linting::{lemma_lints_view_push, lints_view, Lint, LintKind, LintView, Suggestion, SuggestionView};
use crate::patterns::{span_in, token_chars};
use crate::span::Span;
use crate::text::{is_ascii_upper, str_to_chars};
use crate::token::{OrdinalSuffix, Token, TokenKind};

verus! {

/// The rules that judge one token at a time.
#[derive(Clone, Copy, Debug, PartialEq, Eq, Structural)]
pub enum TokenRule {
    /// A run of two or more spaces.
    Spaces,
    /// A lone lowercase `i`.
    CapitalizePersonalPronouns,
    /// An ordinal suffix with capitals (`2ND`).
    NumberSuffixCapitalization,
    /// An ordinal suffix that does not fit its number (`2st`).
    CorrectNumberSuffix,
    /// An initialism written without its dots (`eg`).
    DotInitialisms,
    /// A word too common to carry much meaning.
    BoringWords,
    /// A curse.
    AvoidCurses,
}

/// The dotted form of an initialism written without dots.
pub open spec fn dotted_initialism(w: Seq<char>) -> Option<Seq<char>> {
    if w == "eg"@ {
        Some("e.g."@)
    } else if w == "ie"@ {
        Some("i.e."@)
    } else if w == "nb"@ {
        Some("n.b."@)
    } else {
        None
    }
}

pub open spec fn is_boring(w: Seq<char>) -> bool {
    w == "very"@ || w == "interesting"@ || w == "several"@ || w == "most"@ || w == "many"@
}

pub open spec fn is_curse(w: Seq<char>) -> bool {
    w == "fuck"@ || w == "fucking"@ || w == "shit"@ || w == "damn"@ || w == "bitch"@ || w == "crap"@
}

/// A lint that only points a problem out.
pub open spec fn advisory_lint(span: Span, kind: LintKind, message: Seq<char>, priority: u8) -> LintView {
    LintView { span, lint_kind: kind, suggestions: Seq::empty(), message, priority }
}

pub open spec fn suffix_text(s: OrdinalSuffix) -> Seq<char> {
    match s {
        OrdinalSuffix::St => "st"@,
        OrdinalSuffix::Nd => "nd"@,
        OrdinalSuffix::Rd => "rd"@,
        OrdinalSuffix::Th => "th"@,
    }
}

/// The suffix that English gives the ordinal of `n`.
pub open spec fn fitting_suffix(n: u64) -> OrdinalSuffix {
    if 11 <= n % 100 <= 13 {
        OrdinalSuffix::Th
    } else if n % 10 == 1 {
        OrdinalSuffix::St
    } else if n % 10 == 2 {
        OrdinalSuffix::Nd
    } else if n % 10 == 3 {
        OrdinalSuffix::Rd
    } else {
        OrdinalSuffix::Th
    }
}

/// The last two characters of a token: where its suffix is written.
pub open spec fn suffix_span(t: Token) -> Span {
    Span { start: (t.span.end - 2) as usize, end: t.span.end }
}

pub open spec fn has_suffix_span(t: Token, src: Seq<char>) -> bool {
    span_in(t, src) && t.span.end >= t.span.start + 2
}

pub open spec fn simple_lint(span: Span, kind: LintKind, text: Seq<char>, message: Seq<char>) -> LintView {
    LintView {
        span,
        lint_kind: kind,
        suggestions: seq![SuggestionView::ReplaceWith(text)],
        message,
        priority: 31,
    }
}

/// What `rule` says of the token `t`, if anything.
pub open spec fn token_lint(rule: TokenRule, t: Token, src: Seq<char>) -> Option<LintView> {
    match rule {
        TokenRule::Spaces => if t.kind matches TokenKind::Space(w) && w >= 2 {
            Some(simple_lint(t.span, LintKind::Style, " "@, "There should be only one space here."@))
        } else {
            None
        },
        TokenRule::CapitalizePersonalPronouns => if t.kind is Word && span_in(t, src)
            && token_chars(t, src) == "i"@ {
            Some(
                simple_lint(
                    t.span,
                    LintKind::Capitalization,
                    "I"@,
                    "The first-person pronoun is written with a capital."@,
                ),
            )
        } else {
            None
        },
        TokenRule::NumberSuffixCapitalization => if t.kind matches TokenKind::Number(n)
            && n.suffix is Some && has_suffix_span(t, src) && (is_ascii_upper(
            src[t.span.end - 2],
        ) || is_ascii_upper(src[t.span.end - 1])) {
            Some(
                simple_lint(
                    suffix_span(t),
                    LintKind::Capitalization,
                    suffix_text(t.kind->Number_0.suffix->0),
                    "This suffix is written in small letters."@,
                ),
            )
        } else {
            None
        },
        TokenRule::CorrectNumberSuffix => if t.kind matches TokenKind::Number(n) && n.is_integer
            && n.suffix is Some && has_suffix_span(t, src) && n.suffix->0 != fitting_suffix(
            n.whole,
        ) {
            Some(
                simple_lint(
                    suffix_span(t),
                    LintKind::Spelling,
                    suffix_text(fitting_suffix(t.kind->Number_0.whole)),
                    "This number needs a different suffix."@,
                ),
            )
        } else {
            None
        },
        TokenRule::DotInitialisms => if t.kind is Word && span_in(t, src) && dotted_initialism(
            token_chars(t, src),
        ) is Some {
            Some(
                simple_lint(
                    t.span,
                    LintKind::Punctuation,
                    dotted_initialism(token_chars(t, src))->0,
                    "Initialisms are written with dots."@,
                ),
            )
        } else {
            None
        },
        TokenRule::BoringWords => if t.kind is Word && span_in(t, src) && is_boring(
            token_chars(t, src),
        ) {
            Some(
                advisory_lint(
                    t.span,
                    LintKind::Enhancement,
                    "This word says little; a more precise one may serve better."@,
                    127,
                ),
            )
        } else {
            None
        },
        TokenRule::AvoidCurses => if t.kind is Word && span_in(t, src) && is_curse(
            token_chars(t, src),
        ) {
            Some(advisory_lint(t.span, LintKind::Miscellaneous, "Try not to curse."@, 63))
        } else {
            None
        },
    }
}

/// The lints of `rule` over `toks`, in token order.
pub open spec fn token_rule_lints(rule: TokenRule, toks: Seq<Token>, src: Seq<char>) -> Seq<LintView>
    decreases toks.len(),
{
    if toks.len() == 0 {
        Seq::empty()
    } else {
        let prev = token_rule_lints(rule, toks.drop_last(), src);
        match token_lint(rule, toks.last(), src) {
            Some(l) => prev.push(l),
            None => prev,
        }
    }
}

fn suffix_str(s: OrdinalSuffix) -> (r: &'static str)
    ensures
        r@ == suffix_text(s),
{
    match s {
        OrdinalSuffix::St => "st",
        OrdinalSuffix::Nd => "nd",
        OrdinalSuffix::Rd => "rd",
        OrdinalSuffix::Th => "th",
    }
}

fn fitting_suffix_exec(n: u64) -> (r: OrdinalSuffix)
    ensures
        r == fitting_suffix(n),
{
    if 11 <= n % 100 && n % 100 <= 13 {
        OrdinalSuffix::Th
    } else if n % 10 == 1 {
        OrdinalSuffix::St
    } else if n % 10 == 2 {
        OrdinalSuffix::Nd
    } else if n % 10 == 3 {
        OrdinalSuffix::Rd
    } else {
        OrdinalSuffix::Th
    }
}

fn make_lint(span: Span, kind: LintKind, text: &str, message: &str) -> (r: Lint)
    ensures
        r@ == simple_lint(span, kind, text@, message@),
{
    let mut suggestions: Vec<Suggestion> = Vec::new();
    suggestions.push(Suggestion::ReplaceWith(str_to_chars(text)));
    let r = Lint::new(span, kind, suggestions, message, 31);
    assert(r@.suggestions =~= simple_lint(span, kind, text@, message@).suggestions);
    r
}

fn make_advisory(span: Span, kind: LintKind, message: &str, priority: u8) -> (r: Lint)
    ensures
        r@ == advisory_lint(span, kind, message@, priority),
{
    let r = Lint::new(span, kind, Vec::new(), message, priority);
    assert(r@.suggestions =~= Seq::<SuggestionView>::empty());
    r
}

fn is_word(w: &[char], s: &str) -> (r: bool)
    ensures
        r == (w@ == s@),
{
    let chars = str_to_chars(s);
    crate::text::chars_equal(w, chars.as_slice())
}

fn dotted_initialism_exec(w: &[char]) -> (r: Option<&'static str>)
    ensures
        match r {
            Some(d) => dotted_initialism(w@) == Some(d@),
            None => dotted_initialism(w@) is None,
        },
{
    if is_word(w, "eg") {
        Some("e.g.")
    } else if is_word(w, "ie") {
        Some("i.e.")
    } else if is_word(w, "nb") {
        Some("n.b.")
    } else {
        None
    }
}

fn is_upper(c: char) -> (r: bool)
    ensures
        r == is_ascii_upper(c),
{
    'A' <= c && c <= 'Z'
}

/// What `rule` says of one token.
fn lint_token(rule: TokenRule, t: Token, src: &[char]) -> (r: Option<Lint>)
    ensures
        match r {
            Some(l) => token_lint(rule, t, src@) == Some(l@),
            None => token_lint(rule, t, src@) is None,
        },
{
    let in_source = t.span.start <= t.span.end && t.span.end <= src.len();
    match rule {
        TokenRule::Spaces => match t.kind {
            TokenKind::Space(w) => if w >= 2 {
                Some(make_lint(t.span, LintKind::Style, " ", "There should be only one space here."))
            } else {
                None
            },
            _ => None,
        },
        TokenRule::CapitalizePersonalPronouns => {
            if !t.kind.is_word() || !in_source {
                return None;
            }
            let text = t.span.get_content(src);
            let i = str_to_chars("i");
            if crate::text::chars_equal(text.as_slice(), i.as_slice()) {
                Some(
                    make_lint(
                        t.span,
                        LintKind::Capitalization,
                        "I",
                        "The first-person pronoun is written with a capital.",
                    ),
                )
            } else {
                None
            }
        },
        TokenRule::NumberSuffixCapitalization => match t.kind {
            TokenKind::Number(n) => match n.suffix {
                Some(s) => {
                    if !in_source || t.span.end - t.span.start < 2 {
                        return None;
                    }
                    if is_upper(src[t.span.end - 2]) || is_upper(src[t.span.end - 1]) {
                        Some(
                            make_lint(
                                Span::new(t.span.end - 2, t.span.end),
                                LintKind::Capitalization,
                                suffix_str(s),
                                "This suffix is written in small letters.",
                            ),
                        )
                    } else {
                        None
                    }
                },
                None => None,
            },
            _ => None,
        },
        TokenRule::CorrectNumberSuffix => match t.kind {
            TokenKind::Number(n) => match n.suffix {
                Some(s) => {
                    if !n.is_integer || !in_source || t.span.end - t.span.start < 2 {
                        return None;
                    }
                    let fit = fitting_suffix_exec(n.whole);
                    if s != fit {
                        Some(
                            make_lint(
                                Span::new(t.span.end - 2, t.span.end),
                                LintKind::Spelling,
                                suffix_str(fit),
                                "This number needs a different suffix.",
                            ),
                        )
                    } else {
                        None
                    }
                },
                None => None,
            },
            _ => None,
        },
        TokenRule::DotInitialisms => {
            if !t.kind.is_word() || !in_source {
                return None;
            }
            let text = t.span.get_content(src);
            match dotted_initialism_exec(text.as_slice()) {
                Some(d) => Some(
                    make_lint(t.span, LintKind::Punctuation, d, "Initialisms are written with dots."),
                ),
                None => None,
            }
        },
        TokenRule::BoringWords => {
            if !t.kind.is_word() || !in_source {
                return None;
            }
            let text = t.span.get_content(src);
            let w = text.as_slice();
            if is_word(w, "very") || is_word(w, "interesting") || is_word(w, "several") || is_word(
                w,
                "most",
            ) || is_word(w, "many") {
                Some(
                    make_advisory(
                        t.span,
                        LintKind::Enhancement,
                        "This word says little; a more precise one may serve better.",
                        127,
                    ),
                )
            } else {
                None
            }
        },
        TokenRule::AvoidCurses => {
            if !t.kind.is_word() || !in_source {
                return None;
            }
            let text = t.span.get_content(src);
            let w = text.as_slice();
            if is_word(w, "fuck") || is_word(w, "fucking") || is_word(w, "shit") || is_word(
                w,
                "damn",
            ) || is_word(w, "bitch") || is_word(w, "crap") {
                Some(make_advisory(t.span, LintKind::Miscellaneous, "Try not to curse.", 63))
            } else {
                None
            }
        },
    }
}

/// Runs a one-token rule over a document.
pub fn lint_tokens(rule: TokenRule, document: &Document) -> (r: Vec<Lint>)
    ensures
        lints_view(r@) == token_rule_lints(rule, document.spec_tokens(), document.spec_source()),
{
    let tokens = document.get_tokens();
    let source = document.get_source();
    let mut lints: Vec<Lint> = Vec::new();
    let mut k: usize = 0;
    while k < tokens.len()
        invariant
            k <= tokens@.len(),
            lints_view(lints@) == token_rule_lints(rule, tokens@.subrange(0, k as int), source@),
        decreases tokens@.len() - k,
    {
        assert(tokens@.subrange(0, k + 1).drop_last() =~= tokens@.subrange(0, k as int));
        if let Some(l) = lint_token(rule, tokens[k], source) {
            proof {
                lemma_lints_view_push(lints@, l);
            }
            lints.push(l);
        }
        k += 1;
    }
    assert(tokens@.subrange(0, k as int) =~= tokens@);
    lints
}

} // verus!
