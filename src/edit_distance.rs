use vstd::prelude::*;

verus! {

pub open spec fn min2(x: nat, y: nat) -> nat {
    if x <= y { x } else { y }
}

/// The optimal-string-alignment distance between `a[..i]` and `b[..j]`:
/// the fewest insertions, deletions, substitutions and swaps of two
/// neighbouring characters that turn one into the other.
pub open spec fn osa(a: Seq<char>, b: Seq<char>, i: int, j: int) -> nat
    decreases i + j,
{
    if i <= 0 {
        if j <= 0 { 0 } else { j as nat }
    } else if j <= 0 {
        i as nat
    } else {
        let del = osa(a, b, i - 1, j) + 1;
        let ins = osa(a, b, i, j - 1) + 1;
        let sub = osa(a, b, i - 1, j - 1) + if a[i - 1] == b[j - 1] { 0nat } else { 1nat };
        let m = min2(min2(del, ins), sub);
        if i > 1 && j > 1 && a[i - 1] == b[j - 2] && a[i - 2] == b[j - 1] {
            min2(m, osa(a, b, i - 2, j - 2) + 1)
        } else {
            m
        }
    }
}

pub open spec fn edit_distance(a: Seq<char>, b: Seq<char>) -> nat {
    osa(a, b, a.len() as int, b.len() as int)
}

proof fn lemma_osa_bound(a: Seq<char>, b: Seq<char>, i: int, j: int)
    requires
        0 <= i,
        0 <= j,
    ensures
        osa(a, b, i, j) <= if i >= j { i } else { j },
    decreases i + j,
{
    if i > 0 && j > 0 {
        lemma_osa_bound(a, b, i - 1, j - 1);
    }
}

/// The distance between `a` and `b` (whose lengths fit below `usize::MAX`,
/// so that a count one past either still fits).
pub fn distance(a: &[char], b: &[char]) -> (r: usize)
    requires
        a@.len() < usize::MAX,
        b@.len() < usize::MAX,
    ensures
        r == edit_distance(a@, b@),
{
    let n = b.len();
    let mut prev2: Vec<usize> = Vec::new();
    let mut prev: Vec<usize> = Vec::new();
    let mut j: usize = 0;
    while j <= n
        invariant
            j <= n + 1,
            n == b@.len() < usize::MAX,
            prev@.len() == j,
            forall|k: int| 0 <= k < j ==> prev@[k] == osa(a@, b@, 0, k),
        decreases n + 1 - j,
    {
        prev.push(j);
        j += 1;
    }
    let mut i: usize = 1;
    while i <= a.len()
        invariant
            1 <= i <= a@.len() + 1,
            a@.len() < usize::MAX,
            n == b@.len() < usize::MAX,
            prev@.len() == n + 1,
            forall|k: int| 0 <= k <= n ==> prev@[k] == osa(a@, b@, i - 1, k),
            i >= 2 ==> prev2@.len() == n + 1,
            i >= 2 ==> forall|k: int| 0 <= k <= n ==> prev2@[k] == osa(a@, b@, i - 2, k),
        decreases a@.len() + 1 - i,
    {
        let mut cur: Vec<usize> = Vec::new();
        cur.push(i);
        let mut j: usize = 1;
        while j <= n
            invariant
                1 <= i <= a@.len(),
                1 <= j <= n + 1,
                a@.len() < usize::MAX,
                n == b@.len() < usize::MAX,
                prev@.len() == n + 1,
                forall|k: int| 0 <= k <= n ==> prev@[k] == osa(a@, b@, i - 1, k),
                i >= 2 ==> prev2@.len() == n + 1,
                i >= 2 ==> forall|k: int| 0 <= k <= n ==> prev2@[k] == osa(a@, b@, i - 2, k),
                cur@.len() == j,
                forall|k: int| 0 <= k < j ==> cur@[k] == osa(a@, b@, i as int, k),
            decreases n + 1 - j,
        {
            proof {
                lemma_osa_bound(a@, b@, i - 1, j as int);
                lemma_osa_bound(a@, b@, i as int, j - 1);
                lemma_osa_bound(a@, b@, i - 1, j - 1);
            }
            let del = prev[j] + 1;
            let ins = cur[j - 1] + 1;
            let sub = prev[j - 1] + if a[i - 1] == b[j - 1] { 0 } else { 1 };
            let mut m = if del <= ins { del } else { ins };
            if sub < m {
                m = sub;
            }
            if i > 1 && j > 1 && a[i - 1] == b[j - 2] && a[i - 2] == b[j - 1] {
                proof {
                    lemma_osa_bound(a@, b@, i - 2, j - 2);
                }
                let swap = prev2[j - 2] + 1;
                if swap < m {
                    m = swap;
                }
            }
            cur.push(m);
            j += 1;
        }
        prev2 = prev;
        prev = cur;
        i += 1;
    }
    prev[n]
}

} // verus!
