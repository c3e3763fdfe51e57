use vstd::prelude::*;

use crate::token::{Token, TokenKind};

verus! {

/// Before token `k` is read from left to right: the quote that waits for its
/// partner, if any. A quote pairs with the next quote of its paragraph.
pub open spec fn open_quote_before(toks: Seq<Token>, k: int) -> Option<int>
    decreases k,
{
    if k <= 0 || k > toks.len() {
        None
    } else {
        let prev = open_quote_before(toks, k - 1);
        let kind = toks[k - 1].kind;
        if kind is Quote {
            if prev is Some {
                None
            } else {
                Some(k - 1)
            }
        } else if kind.spec_is_paragraph_break() {
            None
        } else {
            prev
        }
    }
}

/// The first quote at or after `j` that comes before the paragraph ends.
pub open spec fn next_quote_from(toks: Seq<Token>, j: int) -> Option<int>
    decreases toks.len() - j,
{
    if j < 0 || j >= toks.len() {
        None
    } else if toks[j].kind is Quote {
        Some(j)
    } else if toks[j].kind.spec_is_paragraph_break() {
        None
    } else {
        next_quote_from(toks, j + 1)
    }
}

/// The partner of the quote at `k`: the quote that was waiting when `k` was
/// read, or else the next quote of the paragraph.
pub open spec fn quote_partner(toks: Seq<Token>, k: int) -> Option<int> {
    match open_quote_before(toks, k) {
        Some(p) => Some(p),
        None => next_quote_from(toks, k + 1),
    }
}

pub open spec fn as_index(o: Option<int>) -> Option<usize> {
    match o {
        Some(j) => Some(j as usize),
        None => None,
    }
}

/// `toks` with every quote carrying the index of its partner.
pub open spec fn paired_quotes(toks: Seq<Token>) -> Seq<Token> {
    Seq::new(
        toks.len(),
        |k: int|
            if toks[k].kind is Quote {
                Token { span: toks[k].span, kind: TokenKind::Quote(as_index(quote_partner(toks, k))) }
            } else {
                toks[k]
            },
    )
}

/// No quote and no paragraph break lies strictly between `a` and `b`.
pub open spec fn quiet_between(toks: Seq<Token>, a: int, b: int) -> bool {
    forall|i: int|
        a < i < b ==> !(#[trigger] toks[i].kind is Quote) && !toks[i].kind.spec_is_paragraph_break()
}

proof fn lemma_open_quote(toks: Seq<Token>, k: int)
    requires
        0 <= k <= toks.len(),
    ensures
        open_quote_before(toks, k) matches Some(p) ==> {
            &&& 0 <= p < k
            &&& toks[p].kind is Quote
            &&& open_quote_before(toks, p) is None
            &&& quiet_between(toks, p, k)
        },
    decreases k,
{
    if k > 0 {
        lemma_open_quote(toks, k - 1);
    }
}

proof fn lemma_open_quote_stays(toks: Seq<Token>, p: int, k: int)
    requires
        0 <= p < k <= toks.len(),
        toks[p].kind is Quote,
        open_quote_before(toks, p) is None,
        quiet_between(toks, p, k),
    ensures
        open_quote_before(toks, k) == Some(p),
    decreases k,
{
    if k > p + 1 {
        lemma_open_quote_stays(toks, p, k - 1);
        assert(toks[k - 1].kind is Quote == false);
    }
}

proof fn lemma_next_quote(toks: Seq<Token>, j: int)
    requires
        0 <= j,
    ensures
        next_quote_from(toks, j) matches Some(q) ==> {
            &&& j <= q < toks.len()
            &&& toks[q].kind is Quote
            &&& quiet_between(toks, j - 1, q)
        },
    decreases toks.len() - j,
{
    if j < toks.len() && !(toks[j].kind is Quote) && !toks[j].kind.spec_is_paragraph_break() {
        lemma_next_quote(toks, j + 1);
    }
}

proof fn lemma_next_quote_found(toks: Seq<Token>, j: int, q: int)
    requires
        0 <= j <= q < toks.len(),
        toks[q].kind is Quote,
        quiet_between(toks, j - 1, q),
    ensures
        next_quote_from(toks, j) == Some(q),
    decreases q - j,
{
    if j < q {
        assert(!(toks[j].kind is Quote));
        lemma_next_quote_found(toks, j + 1, q);
    }
}

/// Quote pairing is symmetric: when the quote at `i` pairs with `j`, the
/// quote at `j` pairs with `i`.
pub proof fn lemma_quote_pairing_symmetric(toks: Seq<Token>, i: int, j: usize)
    requires
        0 <= i < toks.len(),
        toks.len() <= usize::MAX,
        paired_quotes(toks)[i].kind == TokenKind::Quote(Some(j)),
    ensures
        j < toks.len(),
        paired_quotes(toks)[j as int].kind == TokenKind::Quote(Some(i as usize)),
{
    assert(toks[i].kind is Quote);
    lemma_partner_symmetric(toks, i);
    let q = quote_partner(toks, i)->0;
    assert(q as usize == j);
    assert(q == j as int);
}

proof fn lemma_partner_symmetric(toks: Seq<Token>, i: int)
    requires
        0 <= i < toks.len(),
        toks[i].kind is Quote,
    ensures
        quote_partner(toks, i) matches Some(j) ==> {
            &&& 0 <= j < toks.len()
            &&& j != i
            &&& toks[j].kind is Quote
            &&& quote_partner(toks, j) == Some(i)
        },
{
    lemma_open_quote(toks, i);
    match open_quote_before(toks, i) {
        Some(p) => {
            lemma_open_quote(toks, p);
            lemma_next_quote_found(toks, p + 1, i);
        },
        None => {
            lemma_next_quote(toks, i + 1);
            if let Some(q) = next_quote_from(toks, i + 1) {
                lemma_open_quote_stays(toks, i, q);
            }
        },
    }
}

/// Gives every quote of `tokens` the index of its partner, in place.
pub fn pair_quotes(tokens: &mut Vec<Token>)
    ensures
        final(tokens)@ == paired_quotes(old(tokens)@),
{
    let ghost orig = tokens@;
    let mut pending: Option<usize> = None;
    let mut k: usize = 0;
    while k < tokens.len()
        invariant
            0 <= k <= tokens@.len(),
            tokens@.len() == orig.len(),
            as_index(open_quote_before(orig, k as int)) == pending,
            open_quote_before(orig, k as int) matches Some(p) ==> 0 <= p < k,
            forall|m: int| k <= m < orig.len() ==> tokens@[m] == orig[m],
            forall|m: int|
                #![trigger tokens@[m]]
                0 <= m < k ==> tokens@[m] == if orig[m].kind is Quote {
                    Token {
                        span: orig[m].span,
                        kind: TokenKind::Quote(
                            match quote_partner(orig, m) {
                                Some(j) => if j < k { Some(j as usize) } else { None },
                                None => None,
                            },
                        ),
                    }
                } else {
                    orig[m]
                },
        decreases tokens@.len() - k,
    {
        let t = tokens[k];
        proof {
            lemma_open_quote(orig, k as int);
        }
        if t.kind.is_quote() {
            proof {
                lemma_partner_symmetric(orig, k as int);
                assert forall|m: int| 0 <= m < k && orig[m].kind is Quote && quote_partner(
                    orig,
                    m,
                ) == Some(k as int) implies open_quote_before(orig, k as int) == Some(m) by {
                    lemma_partner_symmetric(orig, m);
                    lemma_next_quote(orig, k + 1);
                };
            }
            match pending {
                Some(p) => {
                    proof {
                        lemma_open_quote(orig, p as int);
                        lemma_next_quote_found(orig, p + 1, k as int);
                    }
                    tokens[p] = Token { span: tokens[p].span, kind: TokenKind::Quote(Some(k)) };
                    tokens[k] = Token { span: t.span, kind: TokenKind::Quote(Some(p)) };
                    pending = None;
                },
                None => {
                    proof {
                        lemma_next_quote(orig, k + 1);
                    }
                    tokens[k] = Token { span: t.span, kind: TokenKind::Quote(None) };
                    pending = Some(k);
                },
            }
        } else {
            proof {
                assert forall|m: int| 0 <= m < k && orig[m].kind is Quote implies quote_partner(
                    orig,
                    m,
                ) != Some(k as int) by {
                    lemma_partner_symmetric(orig, m);
                };
            }
            if t.kind.is_paragraph_break() {
                pending = None;
            }
        }
        k += 1;
    }
    proof {
        assert forall|m: int| 0 <= m < orig.len() && orig[m].kind is Quote implies quote_partner(
            orig,
            m,
        ) matches Some(j) ==> j < orig.len() by {
            lemma_partner_symmetric(orig, m);
        };
        assert(tokens@ =~= paired_quotes(orig));
    }
}

} // verus!
