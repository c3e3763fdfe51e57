use vstd::prelude::*;

use crate::dictionary::WordMetadata;
use crate::span::Span;
use crate::token::{tokens_tile, Number, OrdinalSuffix, Punctuation, Token, TokenKind};

verus! {

/// Whether `c` has Unicode's `Alphabetic` property.
pub uninterp spec fn alphabetic(c: char) -> bool;

/// Relies on `char::is_alphabetic`, whose result is fixed by the character
/// alone (Unicode's `Alphabetic` property); among ASCII characters exactly
/// the 52 letters have it.
#[verifier::external_body]
fn is_alphabetic(c: char) -> (r: bool)
    ensures
        r == alphabetic(c),
        (c as u32) < 128 ==> (r <==> ('a' <= c <= 'z' || 'A' <= c <= 'Z')),
{
    c.is_alphabetic()
}

pub open spec fn is_digit(c: char) -> bool {
    '0' <= c <= '9'
}

pub open spec fn is_word_char(c: char) -> bool {
    alphabetic(c) || c == '\''
}

pub open spec fn is_blank(c: char) -> bool {
    c == ' ' || c == '\t'
}

pub open spec fn is_quote_char(c: char) -> bool {
    c == '"' || c == '\u{201c}' || c == '\u{201d}'
}

pub open spec fn punctuation_of(c: char) -> Option<Punctuation> {
    if c == '.' { Some(Punctuation::Period) }
    else if c == ',' { Some(Punctuation::Comma) }
    else if c == ';' { Some(Punctuation::Semicolon) }
    else if c == ':' { Some(Punctuation::Colon) }
    else if c == '!' { Some(Punctuation::Bang) }
    else if c == '?' { Some(Punctuation::Question) }
    else if c == '\u{2014}' { Some(Punctuation::EmDash) }
    else if c == '\u{2013}' { Some(Punctuation::EnDash) }
    else if c == '-' { Some(Punctuation::Hyphen) }
    else if c == '_' { Some(Punctuation::Underscore) }
    else if c == '(' { Some(Punctuation::OpenRound) }
    else if c == ')' { Some(Punctuation::CloseRound) }
    else if c == '[' { Some(Punctuation::OpenSquare) }
    else if c == ']' { Some(Punctuation::CloseSquare) }
    else if c == '{' { Some(Punctuation::OpenCurly) }
    else if c == '}' { Some(Punctuation::CloseCurly) }
    else if c == '/' { Some(Punctuation::ForwardSlash) }
    else if c == '\\' { Some(Punctuation::Backslash) }
    else if c == '&' { Some(Punctuation::Ampersand) }
    else if c == '@' { Some(Punctuation::At) }
    else if c == '#' { Some(Punctuation::Hash) }
    else if c == '$' { Some(Punctuation::Dollar) }
    else if c == '%' { Some(Punctuation::Percent) }
    else if c == '*' { Some(Punctuation::Asterisk) }
    else { None }
}

fn punctuation_of_char(c: char) -> (r: Option<Punctuation>)
    ensures
        r == punctuation_of(c),
{
    match c {
        '.' => Some(Punctuation::Period),
        ',' => Some(Punctuation::Comma),
        ';' => Some(Punctuation::Semicolon),
        ':' => Some(Punctuation::Colon),
        '!' => Some(Punctuation::Bang),
        '?' => Some(Punctuation::Question),
        '\u{2014}' => Some(Punctuation::EmDash),
        '\u{2013}' => Some(Punctuation::EnDash),
        '-' => Some(Punctuation::Hyphen),
        '_' => Some(Punctuation::Underscore),
        '(' => Some(Punctuation::OpenRound),
        ')' => Some(Punctuation::CloseRound),
        '[' => Some(Punctuation::OpenSquare),
        ']' => Some(Punctuation::CloseSquare),
        '{' => Some(Punctuation::OpenCurly),
        '}' => Some(Punctuation::CloseCurly),
        '/' => Some(Punctuation::ForwardSlash),
        '\\' => Some(Punctuation::Backslash),
        '&' => Some(Punctuation::Ampersand),
        '@' => Some(Punctuation::At),
        '#' => Some(Punctuation::Hash),
        '$' => Some(Punctuation::Dollar),
        '%' => Some(Punctuation::Percent),
        '*' => Some(Punctuation::Asterisk),
        _ => None,
    }
}

/// The classes of characters that form runs.
#[derive(Clone, Copy, PartialEq, Eq, Structural)]
pub enum RunClass {
    Digits,
    WordChars,
    Blanks,
}

pub open spec fn in_run(cls: RunClass, c: char) -> bool {
    match cls {
        RunClass::Digits => is_digit(c),
        RunClass::WordChars => is_word_char(c),
        RunClass::Blanks => is_blank(c),
    }
}

/// The end of the maximal run of `cls` characters that starts at `i`.
pub open spec fn run_end(src: Seq<char>, i: int, cls: RunClass) -> int
    decreases src.len() - i,
{
    if 0 <= i < src.len() && in_run(cls, src[i]) {
        run_end(src, i + 1, cls)
    } else {
        i
    }
}

/// The width of the line break at `i`: 1 for `\n`, 2 for `\r\n`, else 0.
pub open spec fn line_break_at(src: Seq<char>, i: int) -> int {
    if 0 <= i < src.len() && src[i] == '\n' {
        1
    } else if 0 <= i && i + 1 < src.len() && src[i] == '\r' && src[i + 1] == '\n' {
        2
    } else {
        0
    }
}

pub open spec fn line_breaks_end(src: Seq<char>, i: int) -> int
    decreases src.len() - i,
{
    if line_break_at(src, i) > 0 {
        line_breaks_end(src, i + line_break_at(src, i))
    } else {
        i
    }
}

pub open spec fn line_breaks_count(src: Seq<char>, i: int) -> nat
    decreases src.len() - i,
{
    if line_break_at(src, i) > 0 {
        1 + line_breaks_count(src, i + line_break_at(src, i))
    } else {
        0
    }
}

/// The value of the decimal digits `src[i..j]`.
pub open spec fn digits_value(src: Seq<char>, i: int, j: int) -> nat
    decreases j - i,
{
    if j <= i {
        0
    } else {
        digits_value(src, i, j - 1) * 10 + (src[j - 1] as nat - '0' as nat) as nat
    }
}

pub open spec fn all_zeros(src: Seq<char>, i: int, j: int) -> bool {
    forall|t: int| i <= t < j ==> src[t] == '0'
}

/// The end of the whole part of a number that starts at `i`.
pub open spec fn whole_end(src: Seq<char>, i: int) -> int {
    run_end(src, i, RunClass::Digits)
}

/// The end of the digits of a number that starts at `i`, fraction included.
pub open spec fn digits_end(src: Seq<char>, i: int) -> int {
    let j = whole_end(src, i);
    if src.len() - j > 1 && src[j] == '.' && is_digit(src[j + 1]) {
        run_end(src, j + 1, RunClass::Digits)
    } else {
        j
    }
}

pub open spec fn suffix_at(src: Seq<char>, k: int) -> Option<OrdinalSuffix> {
    if 0 <= k && k + 2 <= src.len() {
        let a = src[k];
        let b = src[k + 1];
        if (a == 's' || a == 'S') && (b == 't' || b == 'T') {
            Some(OrdinalSuffix::St)
        } else if (a == 'n' || a == 'N') && (b == 'd' || b == 'D') {
            Some(OrdinalSuffix::Nd)
        } else if (a == 'r' || a == 'R') && (b == 'd' || b == 'D') {
            Some(OrdinalSuffix::Rd)
        } else if (a == 't' || a == 'T') && (b == 'h' || b == 'H') {
            Some(OrdinalSuffix::Th)
        } else {
            None
        }
    } else {
        None
    }
}

pub open spec fn number_token_end(src: Seq<char>, i: int) -> int {
    let k = digits_end(src, i);
    if suffix_at(src, k) is Some {
        k + 2
    } else {
        k
    }
}

pub open spec fn number_at(src: Seq<char>, i: int) -> Number {
    let j = whole_end(src, i);
    let k = digits_end(src, i);
    let v = digits_value(src, i, j);
    Number {
        whole: if v > u64::MAX { u64::MAX } else { v as u64 },
        is_integer: k == j || all_zeros(src, j + 1, k),
        suffix: suffix_at(src, k),
    }
}

/// Where the token that starts at `i` ends.
pub open spec fn token_end(src: Seq<char>, i: int) -> int {
    let c = src[i];
    if is_digit(c) {
        number_token_end(src, i)
    } else if is_word_char(c) {
        run_end(src, i, RunClass::WordChars)
    } else if line_break_at(src, i) > 0 {
        line_breaks_end(src, i)
    } else if is_blank(c) {
        run_end(src, i, RunClass::Blanks)
    } else {
        i + 1
    }
}

/// The kind of the token that starts at `i`, with unknown word metadata.
pub open spec fn token_kind(src: Seq<char>, i: int) -> TokenKind {
    let c = src[i];
    if is_digit(c) {
        TokenKind::Number(number_at(src, i))
    } else if is_word_char(c) {
        TokenKind::Word(crate::dictionary::unknown_metadata())
    } else if is_quote_char(c) {
        TokenKind::Quote(None)
    } else if punctuation_of(c) is Some {
        TokenKind::Punctuation(punctuation_of(c)->0)
    } else if line_break_at(src, i) > 0 {
        TokenKind::Newline(line_breaks_count(src, i) as usize)
    } else if is_blank(c) {
        TokenKind::Space((run_end(src, i, RunClass::Blanks) - i) as usize)
    } else {
        TokenKind::Unlintable
    }
}

/// The tokens of `src[i..]`, one after another.
pub open spec fn lex_from(src: Seq<char>, i: int) -> Seq<Token>
    decreases src.len() - i,
{
    if i < 0 || i >= src.len() {
        Seq::empty()
    } else {
        let e = token_end(src, i);
        if e <= i || e > src.len() {
            Seq::empty()
        } else {
            seq![Token { span: Span { start: i as usize, end: e as usize }, kind: token_kind(src, i) }]
                + lex_from(src, e)
        }
    }
}

/// The tokens of a whole text.
pub open spec fn lex(src: Seq<char>) -> Seq<Token> {
    lex_from(src, 0)
}

proof fn lemma_run_end(src: Seq<char>, i: int, cls: RunClass)
    requires
        0 <= i <= src.len(),
    ensures
        i <= run_end(src, i, cls) <= src.len(),
        i < src.len() && in_run(cls, src[i]) ==> run_end(src, i, cls) > i,
    decreases src.len() - i,
{
    if i < src.len() && in_run(cls, src[i]) {
        lemma_run_end(src, i + 1, cls);
    }
}

proof fn lemma_line_breaks_end(src: Seq<char>, i: int)
    requires
        0 <= i <= src.len(),
    ensures
        i <= line_breaks_end(src, i) <= src.len(),
        line_breaks_count(src, i) <= line_breaks_end(src, i) - i,
        line_break_at(src, i) > 0 ==> line_breaks_end(src, i) > i,
    decreases src.len() - i,
{
    if line_break_at(src, i) > 0 {
        lemma_line_breaks_end(src, i + line_break_at(src, i));
    }
}

proof fn lemma_token_end(src: Seq<char>, i: int)
    requires
        0 <= i < src.len(),
    ensures
        i < token_end(src, i) <= src.len(),
{
    lemma_run_end(src, i, RunClass::Digits);
    lemma_run_end(src, i, RunClass::WordChars);
    lemma_run_end(src, i, RunClass::Blanks);
    lemma_line_breaks_end(src, i);
    let j = whole_end(src, i);
    if src.len() - j > 1 && src[j] == '.' && is_digit(src[j + 1]) {
        lemma_run_end(src, j + 1, RunClass::Digits);
    }
}

/// The tokens of `src[i..]` tile `[i, |src|)`.
pub proof fn lemma_lex_from_tiles(src: Seq<char>, i: int)
    requires
        0 <= i <= src.len(),
        src.len() <= usize::MAX,
    ensures
        tokens_tile(lex_from(src, i), i, src.len() as int),
    decreases src.len() - i,
{
    if i < src.len() {
        lemma_token_end(src, i);
        let e = token_end(src, i);
        lemma_lex_from_tiles(src, e);
        let rest = lex_from(src, e);
        let t = Token { span: Span { start: i as usize, end: e as usize }, kind: token_kind(src, i) };
        let all = seq![t] + rest;
        assert(lex_from(src, i) == all);
        assert forall|k: int| 0 <= k < all.len() implies all[k].span.start < all[k].span.end by {
            if k > 0 {
                assert(all[k] == rest[k - 1]);
            }
        }
        assert forall|k: int| 0 <= k < all.len() - 1 implies #[trigger] all[k].span.end
            == all[k + 1].span.start by {
            if k > 0 {
                assert(all[k] == rest[k - 1]);
                assert(all[k + 1] == rest[k]);
            }
        }
    }
}

fn in_run_exec(cls: RunClass, c: char) -> (r: bool)
    ensures
        r == in_run(cls, c),
{
    match cls {
        RunClass::Digits => '0' <= c && c <= '9',
        RunClass::WordChars => is_alphabetic(c) || c == '\'',
        RunClass::Blanks => c == ' ' || c == '\t',
    }
}

fn run_end_exec(src: &[char], i: usize, cls: RunClass) -> (r: usize)
    requires
        i <= src@.len(),
    ensures
        r == run_end(src@, i as int, cls),
        i <= r <= src@.len(),
{
    let mut j: usize = i;
    while j < src.len() && in_run_exec(cls, src[j])
        invariant
            i <= j <= src@.len(),
            run_end(src@, i as int, cls) == run_end(src@, j as int, cls),
        decreases src@.len() - j,
    {
        j += 1;
    }
    j
}

fn line_break_at_exec(src: &[char], i: usize) -> (r: usize)
    requires
        i <= src@.len(),
    ensures
        r == line_break_at(src@, i as int),
{
    if i < src.len() && src[i] == '\n' {
        1
    } else if src.len() - i > 1 && src[i] == '\r' && src[i + 1] == '\n' {
        2
    } else {
        0
    }
}

/// The end and the count of the run of line breaks at `i`.
fn line_breaks_exec(src: &[char], i: usize) -> (r: (usize, usize))
    requires
        i <= src@.len(),
    ensures
        r.0 == line_breaks_end(src@, i as int),
        r.1 == line_breaks_count(src@, i as int),
{
    let n = src.len();
    let mut j: usize = i;
    let mut count: usize = 0;
    proof {
        lemma_line_breaks_end(src@, i as int);
    }
    loop
        invariant
            i <= j <= src@.len(),
            n == src@.len(),
            line_breaks_end(src@, i as int) == line_breaks_end(src@, j as int),
            line_breaks_count(src@, i as int) == count + line_breaks_count(src@, j as int),
            count <= j - i,
        decreases src@.len() - j,
    {
        let w = line_break_at_exec(src, j);
        if w == 0 {
            return (j, count);
        }
        assert(j + w <= src@.len());
        j += w;
        count += 1;
    }
}

/// The value of `src[i..j]` as digits, saturated at `u64::MAX`.
fn digits_value_exec(src: &[char], i: usize, j: usize) -> (r: u64)
    requires
        i <= j <= src@.len(),
        forall|t: int| i <= t < j ==> is_digit(src@[t]),
    ensures
        r == if digits_value(src@, i as int, j as int) > u64::MAX {
            u64::MAX as nat
        } else {
            digits_value(src@, i as int, j as int)
        },
{
    let mut v: u64 = 0;
    let mut k: usize = i;
    while k < j
        invariant
            i <= k <= j <= src@.len(),
            forall|t: int| i <= t < j ==> is_digit(src@[t]),
            v == if digits_value(src@, i as int, k as int) > u64::MAX {
                u64::MAX as nat
            } else {
                digits_value(src@, i as int, k as int)
            },
        decreases j - k,
    {
        let d: u64 = (src[k] as u32 - '0' as u32) as u64;
        let ghost old_val = digits_value(src@, i as int, k as int);
        let ghost new_val = digits_value(src@, i as int, k + 1);
        assert(new_val == old_val * 10 + d);
        if v > (u64::MAX - d) / 10 {
            assert(new_val > u64::MAX) by (nonlinear_arith)
                requires
                    new_val == old_val * 10 + d,
                    old_val >= v,
                    v > (u64::MAX - d) / 10,
                    d <= 9,
            ;
            v = u64::MAX;
        } else {
            assert(v * 10 + d <= u64::MAX) by (nonlinear_arith)
                requires
                    v <= (u64::MAX - d) / 10,
                    d <= 9,
            ;
            assert(old_val <= u64::MAX);
            v = v * 10 + d;
        }
        k += 1;
    }
    v
}

fn suffix_at_exec(src: &[char], k: usize) -> (r: Option<OrdinalSuffix>)
    requires
        k <= src@.len(),
    ensures
        r == suffix_at(src@, k as int),
{
    if src.len() - k >= 2 {
        let a = src[k];
        let b = src[k + 1];
        if (a == 's' || a == 'S') && (b == 't' || b == 'T') {
            Some(OrdinalSuffix::St)
        } else if (a == 'n' || a == 'N') && (b == 'd' || b == 'D') {
            Some(OrdinalSuffix::Nd)
        } else if (a == 'r' || a == 'R') && (b == 'd' || b == 'D') {
            Some(OrdinalSuffix::Rd)
        } else if (a == 't' || a == 'T') && (b == 'h' || b == 'H') {
            Some(OrdinalSuffix::Th)
        } else {
            None
        }
    } else {
        None
    }
}

proof fn lemma_run_chars(src: Seq<char>, i: int, cls: RunClass)
    requires
        0 <= i <= src.len(),
    ensures
        forall|t: int| i <= t < run_end(src, i, cls) ==> in_run(cls, src[t]),
    decreases src.len() - i,
{
    if i < src.len() && in_run(cls, src[i]) {
        lemma_run_chars(src, i + 1, cls);
    }
}

/// The number that starts at `i` and where it ends.
fn number_exec(src: &[char], i: usize) -> (r: (usize, Number))
    requires
        i < src@.len(),
        is_digit(src@[i as int]),
    ensures
        r.0 == number_token_end(src@, i as int),
        r.1 == number_at(src@, i as int),
{
    let j = run_end_exec(src, i, RunClass::Digits);
    proof {
        lemma_run_chars(src@, i as int, RunClass::Digits);
    }
    let whole = digits_value_exec(src, i, j);
    let mut k = j;
    let mut is_integer = true;
    if src.len() - j > 1 && src[j] == '.' && '0' <= src[j + 1] && src[j + 1] <= '9' {
        k = run_end_exec(src, j + 1, RunClass::Digits);
        let mut t: usize = j + 1;
        while t < k
            invariant
                j + 1 <= t <= k <= src@.len(),
                is_integer == all_zeros(src@, j + 1, t as int),
            decreases k - t,
        {
            if src[t] != '0' {
                is_integer = false;
            }
            t += 1;
        }
    }
    let suffix = suffix_at_exec(src, k);
    let end = if suffix.is_some() { k + 2 } else { k };
    (end, Number { whole, is_integer, suffix })
}

/// The end and kind of the token that starts at `i`.
fn next_token(src: &[char], i: usize) -> (r: (usize, TokenKind))
    requires
        i < src@.len(),
    ensures
        r.0 == token_end(src@, i as int),
        r.1 == token_kind(src@, i as int),
{
    let c = src[i];
    proof {
        lemma_token_end(src@, i as int);
        lemma_run_end(src@, i as int, RunClass::Blanks);
    }
    if '0' <= c && c <= '9' {
        let (end, n) = number_exec(src, i);
        return (end, TokenKind::Number(n));
    }
    if in_run_exec(RunClass::WordChars, c) {
        let end = run_end_exec(src, i, RunClass::WordChars);
        return (end, TokenKind::Word(WordMetadata::default()));
    }
    if c == '"' || c == '\u{201c}' || c == '\u{201d}' {
        return (i + 1, TokenKind::Quote(None));
    }
    if let Some(p) = punctuation_of_char(c) {
        return (i + 1, TokenKind::Punctuation(p));
    }
    if line_break_at_exec(src, i) > 0 {
        let (end, count) = line_breaks_exec(src, i);
        return (end, TokenKind::Newline(count));
    }
    if c == ' ' || c == '\t' {
        let end = run_end_exec(src, i, RunClass::Blanks);
        return (end, TokenKind::Space(end - i));
    }
    (i + 1, TokenKind::Unlintable)
}

/// Splits `source` into tokens (words, numbers, punctuation, whitespace),
/// with no quote paired yet.
pub fn lex_tokens(source: &[char]) -> (r: Vec<Token>)
    ensures
        r@ == lex(source@),
        tokens_tile(r@, 0, source@.len() as int),
{
    let mut tokens: Vec<Token> = Vec::new();
    let mut i: usize = 0;
    while i < source.len()
        invariant
            i <= source@.len(),
            tokens@ + lex_from(source@, i as int) == lex(source@),
        decreases source@.len() - i,
    {
        let (end, kind) = next_token(source, i);
        proof {
            lemma_token_end(source@, i as int);
        }
        let t = Token { span: Span { start: i, end }, kind };
        assert(lex_from(source@, i as int) == seq![t] + lex_from(source@, end as int));
        tokens.push(t);
        assert(tokens@ == tokens@.drop_last().push(t));
        assert(tokens@ + lex_from(source@, end as int) =~= (tokens@.drop_last() + seq![t])
            + lex_from(source@, end as int));
        i = end;
    }
    assert(lex_from(source@, i as int) == Seq::<Token>::empty());
    assert(tokens@ =~= lex(source@));
    proof {
        lemma_lex_from_tiles(source@, 0);
    }
    tokens
}

} // verus!
