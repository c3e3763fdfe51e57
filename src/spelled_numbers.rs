use vstd::prelude::*;

use crate::document::Document;
use crate::linting::{lemma_lints_view_push, lints_view, Lint, LintKind, LintView, Suggestion, SuggestionView};
use crate::text::str_to_chars;
use crate::token::{Token, TokenKind};

verus! {

/// The name of a number that English writes as a single word: `0..=20` and
/// the tens up to ninety.
pub open spec fn single_word_number(n: nat) -> Option<Seq<char>> {
    if n == 0 { Some("zero"@) }
    else if n == 1 { Some("one"@) }
    else if n == 2 { Some("two"@) }
    else if n == 3 { Some("three"@) }
    else if n == 4 { Some("four"@) }
    else if n == 5 { Some("five"@) }
    else if n == 6 { Some("six"@) }
    else if n == 7 { Some("seven"@) }
    else if n == 8 { Some("eight"@) }
    else if n == 9 { Some("nine"@) }
    else if n == 10 { Some("ten"@) }
    else if n == 11 { Some("eleven"@) }
    else if n == 12 { Some("twelve"@) }
    else if n == 13 { Some("thirteen"@) }
    else if n == 14 { Some("fourteen"@) }
    else if n == 15 { Some("fifteen"@) }
    else if n == 16 { Some("sixteen"@) }
    else if n == 17 { Some("seventeen"@) }
    else if n == 18 { Some("eighteen"@) }
    else if n == 19 { Some("nineteen"@) }
    else if n == 20 { Some("twenty"@) }
    else if n == 30 { Some("thirty"@) }
    else if n == 40 { Some("forty"@) }
    else if n == 50 { Some("fifty"@) }
    else if n == 60 { Some("sixty"@) }
    else if n == 70 { Some("seventy"@) }
    else if n == 80 { Some("eighty"@) }
    else if n == 90 { Some("ninety"@) }
    else { None }
}

/// The English spelling of `n`, for `n < 1000`.
///
/// Multiples of a hundred read `"<digit> hundred"`; any other number that is
/// not a single word is split at its largest power of ten into a leading part
/// and a remainder, joined by `-` below a hundred and by a space above.
pub open spec fn number_words(n: nat) -> Seq<char>
    decreases n,
{
    if n >= 1000 {
        Seq::empty()
    } else if single_word_number(n) is Some {
        single_word_number(n)->0
    } else if n % 100 == 0 {
        number_words(n / 100) + " hundred"@
    } else if n < 100 {
        number_words((n / 10) * 10) + "-"@ + number_words(n % 10)
    } else {
        number_words((n / 100) * 100) + " "@ + number_words(n % 100)
    }
}

/// Converts a number to its spelled-out form (`100` gives `"one hundred"`).
///
/// Defined for every number below a thousand; `None` above.
pub fn spell_out_number(num: u64) -> (r: Option<String>)
    ensures
        r is Some <==> num < 1000,
        r is Some ==> r->0@ == number_words(num as nat),
    decreases num,
{
    if num > 999 {
        return None;
    }
    let word: Option<&str> = match num {
        0 => Some("zero"),
        1 => Some("one"),
        2 => Some("two"),
        3 => Some("three"),
        4 => Some("four"),
        5 => Some("five"),
        6 => Some("six"),
        7 => Some("seven"),
        8 => Some("eight"),
        9 => Some("nine"),
        10 => Some("ten"),
        11 => Some("eleven"),
        12 => Some("twelve"),
        13 => Some("thirteen"),
        14 => Some("fourteen"),
        15 => Some("fifteen"),
        16 => Some("sixteen"),
        17 => Some("seventeen"),
        18 => Some("eighteen"),
        19 => Some("nineteen"),
        20 => Some("twenty"),
        30 => Some("thirty"),
        40 => Some("forty"),
        50 => Some("fifty"),
        60 => Some("sixty"),
        70 => Some("seventy"),
        80 => Some("eighty"),
        90 => Some("ninety"),
        _ => None,
    };
    if let Some(w) = word {
        return Some(String::from_str(w));
    }
    if num % 100 == 0 {
        let digit = spell_out_number(num / 100);
        return match digit {
            Some(d) => Some(d.concat(" hundred")),
            None => None,
        };
    }
    let n: u64 = if num < 100 { 10 } else { 100 };
    let parent = spell_out_number((num / n) * n);
    let child = spell_out_number(num % n);
    match (parent, child) {
        (Some(p), Some(c)) => {
            let joined = if num < 100 { p.concat("-") } else { p.concat(" ") };
            Some(joined.concat(c.as_str()))
        }
        _ => None,
    }
}

/// An integer below ten, written in digits.
pub open spec fn is_small_integer(t: Token) -> bool {
    t.kind matches TokenKind::Number(n) && n.is_integer && n.whole < 10
}

pub open spec fn spelled_number_lint(t: Token) -> LintView {
    LintView {
        span: t.span,
        lint_kind: LintKind::Readability,
        suggestions: seq![SuggestionView::ReplaceWith(number_words(t.kind->Number_0.whole as nat))],
        message: "Try to spell out numbers less than ten."@,
        priority: 63,
    }
}

/// One lint for each integer below ten, in order.
pub open spec fn spelled_numbers_lints(toks: Seq<Token>) -> Seq<LintView>
    decreases toks.len(),
{
    if toks.len() == 0 {
        Seq::empty()
    } else {
        let prev = spelled_numbers_lints(toks.drop_last());
        if is_small_integer(toks.last()) {
            prev.push(spelled_number_lint(toks.last()))
        } else {
            prev
        }
    }
}

/// Asks for small integers (below ten) to be spelled out.
#[derive(Clone, Copy)]
pub struct SpelledNumbers;

impl SpelledNumbers {
    pub fn lint(&self, document: &Document) -> (r: Vec<Lint>)
        ensures
            lints_view(r@) == spelled_numbers_lints(document.spec_tokens()),
    {
        let tokens = document.get_tokens();
        let mut lints: Vec<Lint> = Vec::new();
        let mut k: usize = 0;
        while k < tokens.len()
            invariant
                k <= tokens@.len(),
                tokens@ == document.spec_tokens(),
                lints_view(lints@) == spelled_numbers_lints(tokens@.subrange(0, k as int)),
            decreases tokens@.len() - k,
        {
            let t = tokens[k];
            assert(tokens@.subrange(0, k + 1).drop_last() =~= tokens@.subrange(0, k as int));
            if let TokenKind::Number(n) = t.kind {
                if n.is_integer && n.whole < 10 {
                    if let Some(words) = spell_out_number(n.whole) {
                        let mut suggestions: Vec<Suggestion> = Vec::new();
                        suggestions.push(Suggestion::ReplaceWith(str_to_chars(words.as_str())));
                        let l = Lint::new(
                            t.span,
                            LintKind::Readability,
                            suggestions,
                            "Try to spell out numbers less than ten.",
                            63,
                        );
                        proof {
                            lemma_lints_view_push(lints@, l);
                            assert(l@.suggestions =~= spelled_number_lint(t).suggestions);
                        }
                        lints.push(l);
                    }
                }
            }
            k += 1;
        }
        assert(tokens@.subrange(0, k as int) =~= tokens@);
        lints
    }
}

} // verus!
