use vstd::prelude::*;

use crate::text::{chars_to_string, str_to_chars};

verus! {

/// A stretch of text before a match, whether a match follows, the match, and
/// its first two capture groups (empty where a group took no part). The
/// last piece holds the text after the last match.
#[derive(Default)]
pub struct RegexPiece {
    pub before: String,
    pub matched: bool,
    pub whole: String,
    pub first: String,
    pub second: String,
}

pub type PieceView = (Seq<char>, bool, Seq<char>, Seq<char>, Seq<char>);

pub open spec fn piece_view(p: RegexPiece) -> PieceView {
    (p.before@, p.matched, p.whole@, p.first@, p.second@)
}

pub open spec fn pieces_view(v: Seq<RegexPiece>) -> Seq<PieceView> {
    Seq::new(v.len(), |i: int| piece_view(v[i]))
}

pub open spec fn pieces_opt_view(r: Option<Vec<RegexPiece>>) -> Option<Seq<PieceView>> {
    match r {
        Some(v) => Some(pieces_view(v@)),
        None => None,
    }
}

/// The pieces that the regular expression `pattern` cuts `text` into, or
/// `None` where `pattern` is not a valid expression.
pub uninterp spec fn regex_pieces(pattern: Seq<char>, text: Seq<char>) -> Option<Seq<PieceView>>;

/// The text the pieces were cut from.
pub open spec fn joined(ps: Seq<PieceView>) -> Seq<char>
    decreases ps.len(),
{
    if ps.len() == 0 {
        Seq::empty()
    } else {
        joined(ps.drop_last()) + ps.last().0 + ps.last().2
    }
}

/// Relies on `regex::Regex::new`, which compiles `pattern` or fails, and on
/// `Regex::captures_iter`, which yields the non-overlapping matches in `text`
/// from left to right: the stretches between them and the matches put
/// together give `text` back.
#[verifier::external_body]
fn regex_split(pattern: &str, text: &str) -> (r: Option<Vec<RegexPiece>>)
    ensures
        pieces_opt_view(r) == regex_pieces(pattern@, text@),
        r matches Some(v) ==> joined(pieces_view(v@)) == text@,
{
    let re = regex::Regex::new(pattern).ok()?;
    let (mut out, mut last) = (Vec::new(), 0);
    for c in re.captures_iter(text) {
        let m = c.get(0)?;
        let group = |i| c.get(i).map_or("", |g| g.as_str()).into();
        let before = text[last..m.start()].into();
        out.push(RegexPiece { before, matched: true, whole: m.as_str().into(), first: group(1), second: group(2) });
        last = m.end();
    }
    out.push(RegexPiece { before: text[last..].into(), ..Default::default() });
    Some(out)
}

pub open spec fn spaces(n: nat) -> Seq<char> {
    Seq::new(n, |i: int| ' ')
}

/// How a match is rewritten.
#[derive(Clone, Copy, PartialEq, Eq, Structural)]
pub enum Rewrite {
    /// `![alt](target)`: two spaces, the alt text, then spaces.
    Image,
    /// `[text](target)`: a space, the link text, then spaces.
    Link,
    /// All spaces.
    Blank,
    /// `` `code` ``: spaces where the code is short and on one line.
    InlineCode,
    /// `name="value"`: spaces, then the quoted value.
    Attribute,
}

pub open spec fn has_newline(s: Seq<char>) -> bool {
    exists|i: int| 0 <= i < s.len() && s[i] == '\n'
}

/// What a match `whole` with groups `first` becomes; the length stays.
pub open spec fn rewrite_match(rule: Rewrite, whole: Seq<char>, first: Seq<char>) -> Seq<char> {
    match rule {
        Rewrite::Image => if whole.len() >= first.len() + 2 {
            spaces(2) + first + spaces((whole.len() - first.len() - 2) as nat)
        } else {
            whole
        },
        Rewrite::Link => if whole.len() >= first.len() + 1 {
            spaces(1) + first + spaces((whole.len() - first.len() - 1) as nat)
        } else {
            whole
        },
        Rewrite::Blank => spaces(whole.len()),
        Rewrite::InlineCode => if first.len() <= 50 && !has_newline(first) {
            spaces(whole.len())
        } else {
            whole
        },
        Rewrite::Attribute => if whole.len() >= first.len() + 2 {
            spaces((whole.len() - first.len() - 2) as nat) + seq!['"'] + first + seq!['"']
        } else {
            whole
        },
    }
}

/// The pieces put back together with each match rewritten.
pub open spec fn rewritten(ps: Seq<PieceView>, rule: Rewrite) -> Seq<char>
    decreases ps.len(),
{
    if ps.len() == 0 {
        Seq::empty()
    } else {
        let p = ps.last();
        rewritten(ps.drop_last(), rule) + p.0 + if p.1 {
            rewrite_match(rule, p.2, p.3)
        } else {
            p.2
        }
    }
}

/// `text` with every match of `pattern` rewritten by `rule`; unchanged where
/// the pattern does not compile.
pub open spec fn rewrite_all(pattern: Seq<char>, rule: Rewrite, text: Seq<char>) -> Seq<char> {
    match regex_pieces(pattern, text) {
        Some(ps) => rewritten(ps, rule),
        None => text,
    }
}

pub open spec fn attribute_pattern() -> Seq<char> {
    "\\b[\\w\\-]+=\"([^\"]*)\""@
}

/// An HTML tag `<name attributes>`: spaces for the name, the attributes with
/// their names blanked, and a space; where the lengths would differ, the
/// tag stays.
pub open spec fn rewrite_tag(whole: Seq<char>, name: Seq<char>, attributes: Seq<char>) -> Seq<char> {
    let r = spaces(name.len() + 1) + rewrite_all(attribute_pattern(), Rewrite::Attribute, attributes)
        + spaces(1);
    if r.len() == whole.len() {
        r
    } else {
        whole
    }
}

pub open spec fn tags_rewritten(ps: Seq<PieceView>) -> Seq<char>
    decreases ps.len(),
{
    if ps.len() == 0 {
        Seq::empty()
    } else {
        let p = ps.last();
        tags_rewritten(ps.drop_last()) + p.0 + if p.1 {
            rewrite_tag(p.2, p.3, p.4)
        } else {
            p.2
        }
    }
}

pub open spec fn rewrite_tags(pattern: Seq<char>, text: Seq<char>) -> Seq<char> {
    match regex_pieces(pattern, text) {
        Some(ps) => tags_rewritten(ps),
        None => text,
    }
}

pub open spec fn image_pattern() -> Seq<char> { "\\!\\[([^\\]]+)\\]\\([^\\)]+\\)"@ }
pub open spec fn link_pattern() -> Seq<char> { "\\[([^\\]]+)\\]\\([^\\)]+\\)"@ }
pub open spec fn code_block_pattern() -> Seq<char> {
    "\\s*```\\s*[\\s\\S]*?\\s*```\\s*|\\s*``````\\s*[\\s\\S]*?\\s*``````\\s*"@
}
pub open spec fn tag_pattern() -> Seq<char> { "<(/?[\\w\\-]+)([^>]*)>"@ }
pub open spec fn url_pattern() -> Seq<char> { "(https?://[^\\s]+)"@ }
pub open spec fn email_pattern() -> Seq<char> { "[a-zA-Z0-9._%+-]+@[a-zA-Z0-9.-]+\\.[a-zA-Z]{2,}"@ }
pub open spec fn inline_code_pattern() -> Seq<char> { "`([^`]+)`"@ }
pub open spec fn emoji_pattern() -> Seq<char> { "\\p{Extended_Pictographic}"@ }
pub open spec fn dash_pattern() -> Seq<char> { "-{2,}"@ }
pub open spec fn non_ascii_pattern() -> Seq<char> { "[^\\x00-\\x7F]+"@ }

/// MDX with everything but its prose blanked: images and links keep their
/// text, then code blocks, tag names, URLs, emails, short inline code,
/// emoji, runs of dashes and non-ASCII runs become spaces.
pub open spec fn clean_mdx(text: Seq<char>) -> Seq<char> {
    let t1 = rewrite_all(image_pattern(), Rewrite::Image, text);
    let t2 = rewrite_all(link_pattern(), Rewrite::Link, t1);
    let t3 = rewrite_all(code_block_pattern(), Rewrite::Blank, t2);
    let t4 = rewrite_tags(tag_pattern(), t3);
    let t5 = rewrite_all(url_pattern(), Rewrite::Blank, t4);
    let t6 = rewrite_all(email_pattern(), Rewrite::Blank, t5);
    let t7 = rewrite_all(inline_code_pattern(), Rewrite::InlineCode, t6);
    let t8 = rewrite_all(emoji_pattern(), Rewrite::Blank, t7);
    let t9 = rewrite_all(dash_pattern(), Rewrite::Blank, t8);
    rewrite_all(non_ascii_pattern(), Rewrite::Blank, t9)
}

fn push_spaces(out: &mut Vec<char>, n: usize)
    ensures
        final(out)@ == old(out)@ + spaces(n as nat),
{
    let mut i: usize = 0;
    while i < n
        invariant
            i <= n,
            out@ == old(out)@ + spaces(i as nat),
        decreases n - i,
    {
        out.push(' ');
        i += 1;
        assert(out@ =~= old(out)@ + spaces(i as nat));
    }
}

fn push_chars(out: &mut Vec<char>, s: &[char])
    ensures
        final(out)@ == old(out)@ + s@,
{
    let mut i: usize = 0;
    while i < s.len()
        invariant
            i <= s@.len(),
            out@ == old(out)@ + s@.subrange(0, i as int),
        decreases s@.len() - i,
    {
        out.push(s[i]);
        i += 1;
    }
    assert(s@.subrange(0, s@.len() as int) =~= s@);
}

fn contains_newline(s: &[char]) -> (r: bool)
    ensures
        r == has_newline(s@),
{
    let mut i: usize = 0;
    while i < s.len()
        invariant
            i <= s@.len(),
            forall|k: int| 0 <= k < i ==> s@[k] != '\n',
        decreases s@.len() - i,
    {
        if s[i] == '\n' {
            return true;
        }
        i += 1;
    }
    false
}

/// Appends the rewriting of one match.
fn push_rewrite(out: &mut Vec<char>, rule: Rewrite, whole: &[char], first: &[char])
    ensures
        final(out)@ == old(out)@ + rewrite_match(rule, whole@, first@),
        rewrite_match(rule, whole@, first@).len() == whole@.len(),
{
    let (w, f) = (whole.len(), first.len());
    match rule {
        Rewrite::Image => {
            if w >= 2 && w - 2 >= f {
                push_spaces(out, 2);
                push_chars(out, first);
                push_spaces(out, w - f - 2);
            } else {
                push_chars(out, whole);
            }
        },
        Rewrite::Link => {
            if w >= 1 && w - 1 >= f {
                push_spaces(out, 1);
                push_chars(out, first);
                push_spaces(out, w - f - 1);
            } else {
                push_chars(out, whole);
            }
        },
        Rewrite::Blank => push_spaces(out, w),
        Rewrite::InlineCode => {
            if f <= 50 && !contains_newline(first) {
                push_spaces(out, w);
            } else {
                push_chars(out, whole);
            }
        },
        Rewrite::Attribute => {
            if w >= 2 && w - 2 >= f {
                push_spaces(out, w - f - 2);
                out.push('"');
                push_chars(out, first);
                out.push('"');
            } else {
                push_chars(out, whole);
            }
        },
    }
    assert(out@ =~= old(out)@ + rewrite_match(rule, whole@, first@));
}

pub proof fn lemma_joined_len(ps: Seq<PieceView>, rule: Rewrite)
    ensures
        rewritten(ps, rule).len() == joined(ps).len(),
    decreases ps.len(),
{
    if ps.len() > 0 {
        lemma_joined_len(ps.drop_last(), rule);
        let p = ps.last();
        if p.1 {
            lemma_rewrite_len(rule, p.2, p.3);
        }
    }
}

proof fn lemma_rewrite_len(rule: Rewrite, whole: Seq<char>, first: Seq<char>)
    ensures
        rewrite_match(rule, whole, first).len() == whole.len(),
{
}

proof fn lemma_tags_len(ps: Seq<PieceView>)
    ensures
        tags_rewritten(ps).len() == joined(ps).len(),
    decreases ps.len(),
{
    if ps.len() > 0 {
        lemma_tags_len(ps.drop_last());
    }
}

/// Rewrites each match of `pattern` in `text` by `rule`.
fn rewrite_text(pattern: &str, rule: Rewrite, text: &str) -> (r: String)
    ensures
        r@ == rewrite_all(pattern@, rule, text@),
        r@.len() == text@.len(),
{
    match regex_split(pattern, text) {
        None => String::from_str(text),
        Some(pieces) => {
            let mut out: Vec<char> = Vec::new();
            let mut k: usize = 0;
            while k < pieces.len()
                invariant
                    k <= pieces@.len(),
                    out@ == rewritten(pieces_view(pieces@).subrange(0, k as int), rule),
                decreases pieces@.len() - k,
            {
                let p = &pieces[k];
                let ghost before = out@;
                push_chars(&mut out, str_to_chars(p.before.as_str()).as_slice());
                let whole = str_to_chars(p.whole.as_str());
                if p.matched {
                    let first = str_to_chars(p.first.as_str());
                    push_rewrite(&mut out, rule, whole.as_slice(), first.as_slice());
                } else {
                    push_chars(&mut out, whole.as_slice());
                }
                assert(pieces_view(pieces@).subrange(0, k + 1).drop_last() =~= pieces_view(
                    pieces@,
                ).subrange(0, k as int));
                k += 1;
            }
            assert(pieces_view(pieces@).subrange(0, k as int) =~= pieces_view(pieces@));
            proof {
                lemma_joined_len(pieces_view(pieces@), rule);
            }
            chars_to_string(out.as_slice())
        },
    }
}

/// Rewrites each HTML tag in `text`, keeping attribute values.
fn rewrite_tags_text(text: &str) -> (r: String)
    ensures
        r@ == rewrite_tags(tag_pattern(), text@),
        r@.len() == text@.len(),
{
    match regex_split("<(/?[\\w\\-]+)([^>]*)>", text) {
        None => String::from_str(text),
        Some(pieces) => {
            let mut out: Vec<char> = Vec::new();
            let mut k: usize = 0;
            while k < pieces.len()
                invariant
                    k <= pieces@.len(),
                    out@ == tags_rewritten(pieces_view(pieces@).subrange(0, k as int)),
                decreases pieces@.len() - k,
            {
                let p = &pieces[k];
                push_chars(&mut out, str_to_chars(p.before.as_str()).as_slice());
                let whole = str_to_chars(p.whole.as_str());
                if p.matched {
                    let attrs = rewrite_text("\\b[\\w\\-]+=\"([^\"]*)\"", Rewrite::Attribute, p.second.as_str());
                    let mut r: Vec<char> = Vec::new();
                    let name = str_to_chars(p.first.as_str());
                    if name.len() >= usize::MAX - 1 {
                        let wl = whole.len();
                        assert(wl == whole@.len());
                        push_chars(&mut out, whole.as_slice());
                        assert(pieces_view(pieces@).subrange(0, k + 1).drop_last() =~= pieces_view(
                            pieces@,
                        ).subrange(0, k as int));
                        k += 1;
                        continue;
                    }
                    push_spaces(&mut r, name.len() + 1);
                    push_chars(&mut r, str_to_chars(attrs.as_str()).as_slice());
                    push_spaces(&mut r, 1);
                    if r.len() == whole.len() {
                        push_chars(&mut out, r.as_slice());
                    } else {
                        push_chars(&mut out, whole.as_slice());
                    }
                } else {
                    push_chars(&mut out, whole.as_slice());
                }
                assert(pieces_view(pieces@).subrange(0, k + 1).drop_last() =~= pieces_view(
                    pieces@,
                ).subrange(0, k as int));
                k += 1;
            }
            assert(pieces_view(pieces@).subrange(0, k as int) =~= pieces_view(pieces@));
            proof {
                lemma_tags_len(pieces_view(pieces@));
            }
            chars_to_string(out.as_slice())
        },
    }
}

/// Blanks the parts of MDX text that are not prose, keeping every character
/// position: the result is as long as the input.
pub fn clean_mdx_content(mdx: &str) -> (r: String)
    ensures
        r@ == clean_mdx(mdx@),
        r@.len() == mdx@.len(),
{
    let t = rewrite_text("\\!\\[([^\\]]+)\\]\\([^\\)]+\\)", Rewrite::Image, mdx);
    let t = rewrite_text("\\[([^\\]]+)\\]\\([^\\)]+\\)", Rewrite::Link, t.as_str());
    let t = rewrite_text(
        "\\s*```\\s*[\\s\\S]*?\\s*```\\s*|\\s*``````\\s*[\\s\\S]*?\\s*``````\\s*",
        Rewrite::Blank,
        t.as_str(),
    );
    let t = rewrite_tags_text(t.as_str());
    let t = rewrite_text("(https?://[^\\s]+)", Rewrite::Blank, t.as_str());
    let t = rewrite_text("[a-zA-Z0-9._%+-]+@[a-zA-Z0-9.-]+\\.[a-zA-Z]{2,}", Rewrite::Blank, t.as_str());
    let t = rewrite_text("`([^`]+)`", Rewrite::InlineCode, t.as_str());
    let t = rewrite_text("\\p{Extended_Pictographic}", Rewrite::Blank, t.as_str());
    let t = rewrite_text("-{2,}", Rewrite::Blank, t.as_str());
    rewrite_text("[^\\x00-\\x7F]+", Rewrite::Blank, t.as_str())
}

} // verus!
