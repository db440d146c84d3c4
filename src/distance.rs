//! Levenshtein edit distance between two strings, counted in characters.
use vstd::prelude::*;

verus! {

pub open spec fn min3(x: nat, y: nat, z: nat) -> nat {
    if x <= y && x <= z {
        x
    } else if y <= z {
        y
    } else {
        z
    }
}

/// The least number of single-character insertions, deletions or
/// substitutions that turn `a` into `b`.
pub open spec fn lev(a: Seq<char>, b: Seq<char>) -> nat
    decreases a.len() + b.len(),
{
    if a.len() == 0 {
        b.len()
    } else if b.len() == 0 {
        a.len()
    } else {
        let cost: nat = if a.last() == b.last() { 0 } else { 1 };
        min3(
            lev(a.drop_last(), b) + 1,
            lev(a, b.drop_last()) + 1,
            lev(a.drop_last(), b.drop_last()) + cost,
        )
    }
}

/// The distance never exceeds the longer of the two lengths.
pub proof fn lemma_lev_bounded(a: Seq<char>, b: Seq<char>)
    ensures
        lev(a, b) <= if a.len() >= b.len() { a.len() } else { b.len() },
    decreases a.len() + b.len(),
{
    if a.len() > 0 && b.len() > 0 {
        lemma_lev_bounded(a.drop_last(), b.drop_last());
    }
}

/// A string is at distance zero from itself.
pub proof fn lemma_lev_identity(a: Seq<char>)
    ensures
        lev(a, a) == 0,
    decreases a.len(),
{
    if a.len() > 0 {
        lemma_lev_identity(a.drop_last());
    }
}

/// The distance does not depend on the order of its arguments.
pub proof fn lemma_lev_symmetric(a: Seq<char>, b: Seq<char>)
    ensures
        lev(a, b) == lev(b, a),
    decreases a.len() + b.len(),
{
    if a.len() > 0 && b.len() > 0 {
        lemma_lev_symmetric(a.drop_last(), b);
        lemma_lev_symmetric(a, b.drop_last());
        lemma_lev_symmetric(a.drop_last(), b.drop_last());
    }
}

fn chars_of(s: &str) -> (r: Vec<char>)
    ensures
        r@ == s@,
{
    let n = s.unicode_len();
    let mut r: Vec<char> = Vec::new();
    let mut i: usize = 0;
    while i < n
        invariant
            n == s@.len(),
            i <= n,
            r@ == s@.subrange(0, i as int),
        decreases n - i,
    {
        r.push(s.get_char(i));
        i = i + 1;
    }
    assert(r@ == s@);
    r
}

fn succ_capped(x: usize) -> (r: usize)
    ensures
        x < usize::MAX ==> r == x + 1,
        x == usize::MAX ==> r == x,
{
    if x < usize::MAX {
        x + 1
    } else {
        x
    }
}

/// The edit distance between `a` and `b`, by the classic two-row table.
pub fn levenshtein(a: &str, b: &str) -> (r: usize)
    ensures
        r == lev(a@, b@),
{
    let av = chars_of(a);
    let bv = chars_of(b);
    let n = av.len();
    let m = bv.len();
    let ghost sa = a@;
    let ghost sb = b@;
    // prev[k] is the distance between the first i characters of a and the
    // first k characters of b.
    let mut prev: Vec<usize> = Vec::new();
    prev.push(0);
    let mut j: usize = 0;
    while j < m
        invariant
            j <= m,
            m == sb.len(),
            prev@.len() == j + 1,
            forall|k: int| 0 <= k <= j ==> prev@[k] == k,
        decreases m - j,
    {
        j = j + 1;
        prev.push(j);
    }
    assert forall|k: int| 0 <= k <= m implies prev@[k] == lev(
        sa.subrange(0, 0),
        sb.subrange(0, k),
    ) by {
        assert(sa.subrange(0, 0).len() == 0);
    }
    let mut i: usize = 0;
    while i < n
        invariant
            n == sa.len(),
            m == sb.len(),
            av@ == sa,
            bv@ == sb,
            i <= n,
            prev@.len() == m + 1,
            forall|k: int|
                0 <= k <= m ==> prev@[k] == lev(sa.subrange(0, i as int), sb.subrange(0, k)),
        decreases n - i,
    {
        let ghost pa = sa.subrange(0, i as int);
        let ghost na = sa.subrange(0, i + 1);
        assert(na.drop_last() == pa);
        assert(na.last() == sa[i as int]);
        let mut cur: Vec<usize> = Vec::new();
        cur.push(i + 1);
        assert(sb.subrange(0, 0).len() == 0);
        let ai = av[i];
        let mut k: usize = 0;
        while k < m
            invariant
                n == sa.len(),
                m == sb.len(),
                av@ == sa,
                bv@ == sb,
                i < n,
                ai == sa[i as int],
                pa == sa.subrange(0, i as int),
                na == sa.subrange(0, i + 1),
                na.drop_last() == pa,
                na.last() == ai,
                prev@.len() == m + 1,
                forall|t: int| 0 <= t <= m ==> prev@[t] == lev(pa, sb.subrange(0, t)),
                k <= m,
                cur@.len() == k + 1,
                forall|t: int| 0 <= t <= k ==> cur@[t] == lev(na, sb.subrange(0, t)),
            decreases m - k,
        {
            let ghost pb = sb.subrange(0, k as int);
            let ghost nb = sb.subrange(0, k + 1);
            assert(nb.drop_last() == pb);
            assert(nb.last() == sb[k as int]);
            proof {
                lemma_lev_bounded(na, nb);
            }
            let del = succ_capped(prev[k + 1]);
            let ins = succ_capped(cur[k]);
            let sub = if ai == bv[k] {
                prev[k]
            } else {
                succ_capped(prev[k])
            };
            let mut best = del;
            if ins < best {
                best = ins;
            }
            if sub < best {
                best = sub;
            }
            assert(best == lev(na, nb));
            cur.push(best);
            k = k + 1;
        }
        prev = cur;
        i = i + 1;
    }
    assert(sa.subrange(0, n as int) == sa);
    assert(sb.subrange(0, m as int) == sb);
    prev[m]
}

} // verus!
