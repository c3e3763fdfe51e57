use vstd::prelude::*;

verus! {

/// Relies on `str::chars` collected into a `Vec`: the characters of `s`, in
/// order.
#[verifier::external_body]
pub(crate) fn str_to_chars(s: &str) -> (r: Vec<char>)
    ensures
        r@ == s@,
{
    s.chars().collect()
}

/// Relies on `String`'s `FromIterator<&char>`: the string of the characters
/// of `v`, in order.
#[verifier::external_body]
pub(crate) fn chars_to_string(v: &[char]) -> (r: String)
    ensures
        r@ == v@,
{
    v.iter().collect()
}

pub open spec fn is_ascii_upper(c: char) -> bool {
    'A' <= c <= 'Z'
}

/// `l` is `w` with its ASCII capitals made small.
pub open spec fn ascii_lowered(w: Seq<char>, l: Seq<char>) -> bool {
    &&& l.len() == w.len()
    &&& forall|i: int|
        0 <= i < w.len() ==> if is_ascii_upper(w[i]) {
            #[trigger] l[i] as u32 == w[i] as u32 + 32
        } else {
            l[i] == w[i]
        }
}

pub fn lower_char(c: char) -> (r: char)
    ensures
        if is_ascii_upper(c) {
            r as u32 == c as u32 + 32
        } else {
            r == c
        },
{
    if 'A' <= c && c <= 'Z' {
        ((c as u8) + 32) as char
    } else {
        c
    }
}

pub fn to_ascii_lower(w: &[char]) -> (r: Vec<char>)
    ensures
        ascii_lowered(w@, r@),
{
    let mut out: Vec<char> = Vec::new();
    let mut i: usize = 0;
    while i < w.len()
        invariant
            i <= w@.len(),
            out@.len() == i,
            forall|k: int|
                0 <= k < i ==> if is_ascii_upper(w@[k]) {
                    #[trigger] out@[k] as u32 == w@[k] as u32 + 32
                } else {
                    out@[k] == w@[k]
                },
        decreases w@.len() - i,
    {
        out.push(lower_char(w[i]));
        i += 1;
    }
    out
}

pub fn chars_equal(a: &[char], b: &[char]) -> (r: bool)
    ensures
        r == (a@ == b@),
{
    if a.len() != b.len() {
        return false;
    }
    let mut i: usize = 0;
    while i < a.len()
        invariant
            i <= a@.len() == b@.len(),
            forall|k: int| 0 <= k < i ==> a@[k] == b@[k],
        decreases a@.len() - i,
    {
        if a[i] != b[i] {
            return false;
        }
        i += 1;
    }
    assert(a@ =~= b@);
    true
}

/// The lowering of a word is unique.
pub proof fn lemma_ascii_lowered_unique(w: Seq<char>, a: Seq<char>, b: Seq<char>)
    requires
        ascii_lowered(w, a),
    ensures
        ascii_lowered(w, b) <==> a == b,
{
    if ascii_lowered(w, b) {
        assert forall|k: int| 0 <= k < a.len() implies a[k] == b[k] by {
            if is_ascii_upper(w[k]) {
                assert(a[k] as u32 == w[k] as u32 + 32);
                assert(b[k] as u32 == w[k] as u32 + 32);
                vstd::utf8::char_u32_cast(a[k], a[k] as u32);
                vstd::utf8::char_u32_cast(b[k], b[k] as u32);
            }
        };
        assert(a =~= b);
    }
}

} // verus!
