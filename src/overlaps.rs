use vstd::prelude::*;

use crate::linting::{lemma_lints_view_push, lints_view, Lint, LintView};

verus! {

/// `a` sorts strictly before `b` by start, then end, then priority.
pub open spec fn key_lt(a: LintView, b: LintView) -> bool {
    ||| a.span.start < b.span.start
    ||| a.span.start == b.span.start && a.span.end < b.span.end
    ||| a.span.start == b.span.start && a.span.end == b.span.end && a.priority < b.priority
}

/// Where `x` goes in `s` after every lint that does not sort after it.
pub open spec fn insert_pos(s: Seq<LintView>, x: LintView, i: int) -> int
    decreases s.len() - i,
{
    if i < 0 || i >= s.len() {
        s.len() as int
    } else if key_lt(x, s[i]) {
        i
    } else {
        insert_pos(s, x, i + 1)
    }
}

/// `s` sorted by start, end and priority; equal keys keep their order.
pub open spec fn sorted_lints(s: Seq<LintView>) -> Seq<LintView>
    decreases s.len(),
{
    if s.len() == 0 {
        Seq::empty()
    } else {
        let t = sorted_lints(s.drop_last());
        t.insert(insert_pos(t, s.last(), 0), s.last())
    }
}

pub open spec fn is_empty_span(l: LintView) -> bool {
    l.span.start >= l.span.end
}

/// The lints kept from the first `n` of the sorted `s`, and where the last
/// kept lint with a non-empty span stands among them.
pub open spec fn resolve_state(s: Seq<LintView>, n: int) -> (Seq<LintView>, Option<int>)
    decreases n,
{
    if n <= 0 || n > s.len() {
        (Seq::empty(), None)
    } else {
        let (kept, last) = resolve_state(s, n - 1);
        let c = s[n - 1];
        if is_empty_span(c) {
            (kept.push(c), last)
        } else {
            match last {
                None => (kept.push(c), Some(kept.len() as int)),
                Some(li) => if kept[li].span.spec_overlaps(c.span) {
                    if c.priority < kept[li].priority {
                        (kept.update(li, c), Some(li))
                    } else {
                        (kept, last)
                    }
                } else {
                    (kept.push(c), Some(kept.len() as int))
                },
            }
        }
    }
}

/// The lints that remain of `lints` once overlaps are resolved: sorted, then
/// each overlap of a lint with the last one kept goes to the lower priority
/// number, the earlier one on a tie.
pub open spec fn resolved(lints: Seq<LintView>) -> Seq<LintView> {
    let s = sorted_lints(lints);
    resolve_state(s, s.len() as int).0
}

pub open spec fn no_overlaps(s: Seq<LintView>) -> bool {
    forall|i: int, j: int|
        0 <= i < s.len() && 0 <= j < s.len() && i != j ==> !s[i].span.spec_overlaps(s[j].span)
}

pub open spec fn starts_sorted(s: Seq<LintView>) -> bool {
    forall|i: int, j: int| 0 <= i <= j < s.len() ==> s[i].span.start <= s[j].span.start
}

proof fn lemma_insert_pos(s: Seq<LintView>, x: LintView, i: int)
    requires
        0 <= i <= s.len(),
    ensures
        i <= insert_pos(s, x, i) <= s.len(),
        forall|k: int| i <= k < insert_pos(s, x, i) ==> !key_lt(x, #[trigger] s[k]),
        insert_pos(s, x, i) < s.len() ==> key_lt(x, s[insert_pos(s, x, i)]),
    decreases s.len() - i,
{
    if i < s.len() && !key_lt(x, s[i]) {
        lemma_insert_pos(s, x, i + 1);
    }
}

pub proof fn lemma_insert_pos_bound(s: Seq<LintView>, x: LintView, i: int)
    requires
        0 <= i <= s.len(),
    ensures
        i <= insert_pos(s, x, i) <= s.len(),
{
    lemma_insert_pos(s, x, i);
}

proof fn lemma_sorted_lints(s: Seq<LintView>)
    ensures
        sorted_lints(s).len() == s.len(),
        starts_sorted(sorted_lints(s)),
    decreases s.len(),
{
    if s.len() > 0 {
        let t = sorted_lints(s.drop_last());
        lemma_sorted_lints(s.drop_last());
        let x = s.last();
        lemma_insert_pos(t, x, 0);
        let p = insert_pos(t, x, 0);
        let r = t.insert(p, x);
        assert forall|i: int, j: int| 0 <= i <= j < r.len() implies r[i].span.start
            <= r[j].span.start by {
            if i < p && j > p {
                assert(r[i] == t[i]);
                assert(r[j] == t[j - 1]);
            } else if i == p && j > p {
                assert(r[j] == t[j - 1]);
                assert(t[p].span.start <= t[j - 1].span.start);
            } else if i < p && j == p {
                assert(r[i] == t[i]);
                assert(!key_lt(x, t[i]));
            } else if i > p {
                assert(r[i] == t[i - 1]);
                assert(r[j] == t[j - 1]);
            }
        }
    }
}

/// What holds of the lints kept so far.
pub open spec fn resolve_inv(s: Seq<LintView>, n: int) -> bool {
    let (kept, last) = resolve_state(s, n);
    &&& no_overlaps(kept)
    &&& forall|k: int| 0 <= k < kept.len() ==> forall|m: int|
        n <= m < s.len() ==> (#[trigger] kept[k]).span.start <= #[trigger] s[m].span.start
    &&& match last {
        None => forall|k: int| 0 <= k < kept.len() ==> is_empty_span(#[trigger] kept[k]),
        Some(li) => {
            &&& 0 <= li < kept.len()
            &&& !is_empty_span(kept[li])
            &&& forall|k: int|
                0 <= k < kept.len() && k != li && !is_empty_span(#[trigger] kept[k])
                    ==> kept[k].span.end <= kept[li].span.start
        },
    }
}

proof fn lemma_resolve_inv(s: Seq<LintView>, n: int)
    requires
        starts_sorted(s),
        0 <= n <= s.len(),
    ensures
        resolve_inv(s, n),
    decreases n,
{
    if n > 0 {
        lemma_resolve_inv(s, n - 1);
        let (kept, last) = resolve_state(s, n - 1);
        let c = s[n - 1];
        assert forall|k: int| 0 <= k < kept.len() implies (#[trigger] kept[k]).span.start
            <= c.span.start by {
            assert(kept[k].span.start <= s[n - 1].span.start);
        }
        assert forall|m: int| n <= m < s.len() implies c.span.start <= #[trigger] s[m].span.start by {
        }
        let (nk, nl) = resolve_state(s, n);
        if is_empty_span(c) {
            assert(nk == kept.push(c));
            assert forall|i: int, j: int|
                0 <= i < nk.len() && 0 <= j < nk.len() && i != j implies !nk[i].span.spec_overlaps(
                nk[j].span) by {
                if i < kept.len() && j < kept.len() {
                    assert(nk[i] == kept[i] && nk[j] == kept[j]);
                }
            }
            assert forall|k: int| 0 <= k < nk.len() implies forall|m: int|
                n <= m < s.len() ==> (#[trigger] nk[k]).span.start <= #[trigger] s[m].span.start by {
                if k < kept.len() {
                    assert(nk[k] == kept[k]);
                }
            }
        } else {
            match last {
                None => {
                    assert forall|i: int, j: int|
                        0 <= i < nk.len() && 0 <= j < nk.len() && i != j implies !nk[i].span.spec_overlaps(
                        nk[j].span) by {
                        if i < kept.len() {
                            assert(is_empty_span(kept[i]));
                        }
                        if j < kept.len() {
                            assert(is_empty_span(kept[j]));
                        }
                    }
                    assert forall|k: int| 0 <= k < nk.len() implies forall|m: int|
                        n <= m < s.len() ==> (#[trigger] nk[k]).span.start <= #[trigger] s[m].span.start by {
                        if k < kept.len() {
                            assert(nk[k] == kept[k]);
                        }
                    }
                    assert forall|k: int|
                        0 <= k < nk.len() && k != kept.len() && !is_empty_span(#[trigger] nk[k])
                            implies nk[k].span.end <= nk[kept.len() as int].span.start by {
                        assert(nk[k] == kept[k]);
                    }
                },
                Some(li) => {
                    let l = kept[li];
                    if l.span.spec_overlaps(c.span) {
                        if c.priority < l.priority {
                            assert forall|i: int, j: int|
                                0 <= i < nk.len() && 0 <= j < nk.len() && i != j implies !nk[i].span.spec_overlaps(
                                nk[j].span) by {
                                if i != li && j != li {
                                    assert(nk[i] == kept[i] && nk[j] == kept[j]);
                                } else if i == li {
                                    assert(nk[j] == kept[j]);
                                } else {
                                    assert(nk[i] == kept[i]);
                                }
                            }
                            assert forall|k: int| 0 <= k < nk.len() implies forall|m: int|
                                n <= m < s.len() ==> (#[trigger] nk[k]).span.start <= #[trigger] s[m].span.start by {
                                if k != li {
                                    assert(nk[k] == kept[k]);
                                }
                            }
                            assert forall|k: int|
                                0 <= k < nk.len() && k != li && !is_empty_span(#[trigger] nk[k])
                                    implies nk[k].span.end <= nk[li].span.start by {
                                assert(nk[k] == kept[k]);
                            }
                        }
                    } else {
                        assert(c.span.start >= l.span.end);
                        assert forall|i: int, j: int|
                            0 <= i < nk.len() && 0 <= j < nk.len() && i != j implies !nk[i].span.spec_overlaps(
                            nk[j].span) by {
                            if i < kept.len() && j < kept.len() {
                                assert(nk[i] == kept[i] && nk[j] == kept[j]);
                            } else if i < kept.len() {
                                assert(nk[i] == kept[i]);
                            } else if j < kept.len() {
                                assert(nk[j] == kept[j]);
                            }
                        }
                        assert forall|k: int| 0 <= k < nk.len() implies forall|m: int|
                            n <= m < s.len() ==> (#[trigger] nk[k]).span.start <= #[trigger] s[m].span.start by {
                            if k < kept.len() {
                                assert(nk[k] == kept[k]);
                            }
                        }
                        assert forall|k: int|
                            0 <= k < nk.len() && k != kept.len() && !is_empty_span(#[trigger] nk[k])
                                implies nk[k].span.end <= nk[kept.len() as int].span.start by {
                            assert(nk[k] == kept[k]);
                        }
                    }
                },
            }
        }
    }
}

/// No two lints left by overlap resolution share a character.
pub proof fn lemma_resolved_no_overlaps(lints: Seq<LintView>)
    ensures
        no_overlaps(resolved(lints)),
{
    let s = sorted_lints(lints);
    lemma_sorted_lints(lints);
    lemma_resolve_inv(s, s.len() as int);
}

fn key_lt_exec(a: &Lint, b: &Lint) -> (r: bool)
    ensures
        r == key_lt(a@, b@),
{
    a.span.start < b.span.start || (a.span.start == b.span.start && a.span.end < b.span.end) || (
    a.span.start == b.span.start && a.span.end == b.span.end && a.priority < b.priority)
}

proof fn lemma_lints_view_insert(s: Seq<Lint>, p: int, x: Lint)
    requires
        0 <= p <= s.len(),
    ensures
        lints_view(s.insert(p, x)) == lints_view(s).insert(p, x@),
{
    assert(lints_view(s.insert(p, x)) =~= lints_view(s).insert(p, x@));
}

proof fn lemma_lints_view_update(s: Seq<Lint>, p: int, x: Lint)
    requires
        0 <= p < s.len(),
    ensures
        lints_view(s.remove(p).insert(p, x)) == lints_view(s).update(p, x@),
{
    assert(lints_view(s.remove(p).insert(p, x)) =~= lints_view(s).update(p, x@));
}

proof fn lemma_lints_view_drop_first(s: Seq<Lint>)
    requires
        s.len() > 0,
    ensures
        lints_view(s.remove(0)) == lints_view(s).subrange(1, s.len() as int),
{
    assert(lints_view(s.remove(0)) =~= lints_view(s).subrange(1, s.len() as int));
}

/// Sorts `lints` by start, end and priority; equal keys keep their order.
fn sort_lints(lints: Vec<Lint>) -> (r: Vec<Lint>)
    ensures
        lints_view(r@) == sorted_lints(lints_view(lints@)),
{
    let ghost orig = lints_view(lints@);
    let mut rest = lints;
    let mut sorted: Vec<Lint> = Vec::new();
    let ghost mut taken: int = 0;
    assert(orig.subrange(0, orig.len() as int) =~= orig);
    assert(orig.subrange(0, 0) =~= Seq::<LintView>::empty());
    while rest.len() > 0
        invariant
            0 <= taken <= orig.len(),
            lints_view(rest@) == orig.subrange(taken, orig.len() as int),
            lints_view(sorted@) == sorted_lints(orig.subrange(0, taken)),
        decreases rest@.len(),
    {
        proof {
            lemma_lints_view_drop_first(rest@);
            assert(lints_view(rest@).len() == rest@.len());
            assert(orig.subrange(taken, orig.len() as int)[0] == orig[taken]);
            assert(lints_view(rest@)[0] == rest@[0]@);
        }
        let x = rest.remove(0);
        assert(x@ == orig[taken]);
        let ghost sv = lints_view(sorted@);
        let mut p: usize = 0;
        while p < sorted.len() && !key_lt_exec(&x, &sorted[p])
            invariant
                p <= sorted@.len(),
                sv == lints_view(sorted@),
                insert_pos(sv, x@, p as int) == insert_pos(sv, x@, 0),
            decreases sorted@.len() - p,
        {
            p += 1;
        }
        proof {
            lemma_lints_view_insert(sorted@, p as int, x);
            let pre = orig.subrange(0, taken + 1);
            assert(pre.drop_last() =~= orig.subrange(0, taken));
            assert(pre.last() == x@);
            assert(orig.subrange(taken + 1, orig.len() as int) =~= orig.subrange(
                taken,
                orig.len() as int,
            ).subrange(1, orig.len() - taken));
            taken = taken + 1;
        }
        sorted.insert(p, x);
    }
    sorted
}

/// Removes overlapping lints: after sorting by start, end and priority, a
/// lint that overlaps the last one kept replaces it only with a lower
/// priority number.
pub fn remove_overlaps(lints: &mut Vec<Lint>)
    ensures
        lints_view(final(lints)@) == resolved(lints_view(old(lints)@)),
        no_overlaps(lints_view(final(lints)@)),
{
    let mut all: Vec<Lint> = Vec::new();
    std::mem::swap(lints, &mut all);
    let mut rest = sort_lints(all);
    let ghost s = lints_view(rest@);
    let mut kept: Vec<Lint> = Vec::new();
    let mut last: Option<usize> = None;
    let ghost mut n: int = 0;
    assert(s.subrange(0, s.len() as int) =~= s);
    while rest.len() > 0
        invariant
            0 <= n <= s.len(),
            lints_view(rest@) == s.subrange(n, s.len() as int),
            resolve_state(s, n).0 == lints_view(kept@),
            resolve_state(s, n).1 == match last {
                Some(li) => Some(li as int),
                None => None::<int>,
            },
            last matches Some(li) ==> li < kept@.len(),
        decreases rest@.len(),
    {
        proof {
            lemma_lints_view_drop_first(rest@);
            assert(lints_view(rest@).len() == rest@.len());
            assert(s.subrange(n, s.len() as int)[0] == s[n]);
            assert(lints_view(rest@)[0] == rest@[0]@);
            assert(s.subrange(n + 1, s.len() as int) =~= s.subrange(n, s.len() as int).subrange(
                1,
                s.len() - n,
            ));
        }
        let c = rest.remove(0);
        assert(c@ == s[n]);
        if c.span.start >= c.span.end {
            proof {
                lemma_lints_view_push(kept@, c);
            }
            kept.push(c);
        } else {
            match last {
                None => {
                    proof {
                        lemma_lints_view_push(kept@, c);
                    }
                    last = Some(kept.len());
                    kept.push(c);
                },
                Some(li) => {
                    if kept[li].span.overlaps_with(&c.span) {
                        if c.priority < kept[li].priority {
                            proof {
                                lemma_lints_view_update(kept@, li as int, c);
                            }
                            kept.remove(li);
                            kept.insert(li, c);
                        }
                    } else {
                        proof {
                            lemma_lints_view_push(kept@, c);
                        }
                        last = Some(kept.len());
                        kept.push(c);
                    }
                },
            }
        }
        proof {
            n = n + 1;
        }
    }
    proof {
        lemma_resolved_no_overlaps(lints_view(old(lints)@));
    }
    *lints = kept;
}

} // verus!
