use vstd::prelude::*;

use crate::dictionary::{layers_lookup, Entries, MergedDictionary};
use crate::document::Document;
use crate::patterns::{span_in, token_chars};
use crate::token::Token;

verus! {

/// A word token whose text the dictionary knows.
pub open spec fn is_known_word(t: Token, src: Seq<char>, dict: Seq<Entries>) -> bool {
    t.kind is Word && span_in(t, src) && layers_lookup(dict, token_chars(t, src)) is Some
}

/// A token that fits English text: a known word, punctuation or whitespace.
pub open spec fn fits_english(t: Token, src: Seq<char>, dict: Seq<Entries>) -> bool {
    is_known_word(t, src, dict) || t.kind is Punctuation || t.kind.spec_is_whitespace()
}

/// How many of the tokens fit English, and how many are known words.
pub open spec fn english_counts(toks: Seq<Token>, src: Seq<char>, dict: Seq<Entries>) -> (nat, nat)
    decreases toks.len(),
{
    if toks.len() == 0 {
        (0, 0)
    } else {
        let (fit, known) = english_counts(toks.drop_last(), src, dict);
        let t = toks.last();
        (
            if fits_english(t, src, dict) { fit + 1 } else { fit },
            if is_known_word(t, src, dict) { known + 1 } else { known },
        )
    }
}

/// At least half of the tokens fit English, and at least one is a known word.
pub open spec fn likely_english(toks: Seq<Token>, src: Seq<char>, dict: Seq<Entries>) -> bool {
    let (fit, known) = english_counts(toks, src, dict);
    2 * fit >= toks.len() && known >= 1
}

proof fn lemma_counts_bound(toks: Seq<Token>, src: Seq<char>, dict: Seq<Entries>)
    ensures
        english_counts(toks, src, dict).0 <= toks.len(),
        english_counts(toks, src, dict).1 <= toks.len(),
    decreases toks.len(),
{
    if toks.len() > 0 {
        lemma_counts_bound(toks.drop_last(), src, dict);
    }
}

/// Whether the tokens `toks` read as English.
pub fn tokens_likely_english(toks: &[Token], source: &[char], dict: &MergedDictionary) -> (r: bool)
    ensures
        r == likely_english(toks@, source@, dict@),
{
    let mut fit: usize = 0;
    let mut known: usize = 0;
    let mut k: usize = 0;
    while k < toks.len()
        invariant
            k <= toks@.len(),
            (fit as nat, known as nat) == english_counts(toks@.subrange(0, k as int), source@, dict@),
        decreases toks@.len() - k,
    {
        let t = toks[k];
        assert(toks@.subrange(0, k + 1).drop_last() =~= toks@.subrange(0, k as int));
        proof {
            lemma_counts_bound(toks@.subrange(0, k as int), source@, dict@);
        }
        let mut is_known = false;
        if t.kind.is_word() && t.span.start <= t.span.end && t.span.end <= source.len() {
            let text = t.span.get_content(source);
            is_known = dict.contains_word(text.as_slice());
        }
        let is_punct = match t.kind {
            crate::token::TokenKind::Punctuation(_) => true,
            _ => false,
        };
        if is_known || is_punct || t.kind.is_whitespace() {
            fit += 1;
        }
        if is_known {
            known += 1;
        }
        k += 1;
    }
    assert(toks@.subrange(0, k as int) =~= toks@);
    proof {
        lemma_counts_bound(toks@, source@, dict@);
    }
    fit <= toks.len() && toks.len() - fit <= fit && known >= 1
}

/// Whether a document reads as English.
pub fn is_doc_likely_english(doc: &Document, dict: &MergedDictionary) -> (r: bool)
    ensures
        r == likely_english(doc.spec_tokens(), doc.spec_source(), dict@),
{
    tokens_likely_english(doc.get_tokens(), doc.get_source(), dict)
}

} // verus!
