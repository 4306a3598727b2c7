//! Ordered sets of texts, the latest of several texts, and joining texts:
//! what the reports take from `BTreeSet`, `BTreeMap`, `Iterator::max` and
//! `join`.

use vstd::prelude::*;

use crate::text::{
    lemma_lex_asymmetric, lemma_lex_irreflexive, lemma_lex_total, lemma_lex_transitive, lex_lt,
    text_less,
};

verus! {

/// The characters of each text.
pub open spec fn texts(v: Seq<String>) -> Seq<Seq<char>> {
    v.map_values(|s: String| s@)
}

/// Strictly ascending in code-point order (so without repetitions).
pub open spec fn ascending(ks: Seq<Seq<char>>) -> bool {
    forall|i: int, j: int| 0 <= i < j < ks.len() ==> lex_lt(#[trigger] ks[i], #[trigger] ks[j])
}

/// The same texts occur in both.
pub open spec fn same_elements(a: Seq<Seq<char>>, b: Seq<Seq<char>>) -> bool {
    forall|x: Seq<char>| a.contains(x) <==> b.contains(x)
}

/// The distinct texts of `vals` in ascending order, as a `BTreeSet` yields them.
pub open spec fn sorted_distinct_spec(vals: Seq<Seq<char>>) -> Seq<Seq<char>> {
    choose|ks: Seq<Seq<char>>| ascending(ks) && same_elements(ks, vals)
}

/// Two ascending sequences with the same texts are equal.
pub proof fn lemma_ascending_unique(a: Seq<Seq<char>>, b: Seq<Seq<char>>)
    requires
        ascending(a),
        ascending(b),
        same_elements(a, b),
    ensures
        a == b,
    decreases a.len(),
{
    if a.len() == 0 {
        if b.len() > 0 {
            assert(b.contains(b[0]));
            assert(a.contains(b[0]));
        }
        assert(a =~= b);
    } else {
        assert(a.contains(a[0]));
        assert(b.contains(a[0]));
        let k = choose|k: int| 0 <= k < b.len() && b[k] == a[0];
        assert(b.contains(b[0]));
        assert(a.contains(b[0]));
        let l = choose|l: int| 0 <= l < a.len() && a[l] == b[0];
        if a[0] != b[0] {
            assert(k > 0 && l > 0);
            assert(lex_lt(a[0], a[l]));
            assert(lex_lt(b[0], b[k]));
            lemma_lex_asymmetric(a[0], b[0]);
            assert(false);
        }
        let ra = a.drop_first();
        let rb = b.drop_first();
        assert(ascending(ra)) by {
            assert forall|i: int, j: int| 0 <= i < j < ra.len() implies lex_lt(
                #[trigger] ra[i],
                #[trigger] ra[j],
            ) by {
                assert(ra[i] == a[i + 1] && ra[j] == a[j + 1]);
            }
        }
        assert(ascending(rb)) by {
            assert forall|i: int, j: int| 0 <= i < j < rb.len() implies lex_lt(
                #[trigger] rb[i],
                #[trigger] rb[j],
            ) by {
                assert(rb[i] == b[i + 1] && rb[j] == b[j + 1]);
            }
        }
        assert forall|x: Seq<char>| ra.contains(x) <==> rb.contains(x) by {
            if ra.contains(x) {
                let i = choose|i: int| 0 <= i < ra.len() && ra[i] == x;
                assert(a[i + 1] == x);
                assert(a.contains(x));
                assert(lex_lt(a[0], x));
                lemma_lex_irreflexive(x);
                assert(b.contains(x));
                let j = choose|j: int| 0 <= j < b.len() && b[j] == x;
                assert(j != 0);
                assert(rb[j - 1] == x);
            }
            if rb.contains(x) {
                let i = choose|i: int| 0 <= i < rb.len() && rb[i] == x;
                assert(b[i + 1] == x);
                assert(b.contains(x));
                assert(lex_lt(b[0], x));
                lemma_lex_irreflexive(x);
                assert(a.contains(x));
                let j = choose|j: int| 0 <= j < a.len() && a[j] == x;
                assert(j != 0);
                assert(ra[j - 1] == x);
            }
        }
        lemma_ascending_unique(ra, rb);
        assert(a =~= seq![a[0]] + ra);
        assert(b =~= seq![b[0]] + rb);
    }
}

/// Inserts a text into an ascending sequence, keeping it ascending and
/// without repetitions.
proof fn insert_ascending(ks: Seq<Seq<char>>, x: Seq<char>) -> (r: Seq<Seq<char>>)
    requires
        ascending(ks),
    ensures
        ascending(r),
        forall|y: Seq<char>| r.contains(y) <==> (ks.contains(y) || y == x),
    decreases ks.len(),
{
    if ks.len() == 0 {
        let r = seq![x];
        assert(r[0] == x);
        r
    } else if ks[0] == x {
        assert(ks.contains(ks[0]));
        ks
    } else if lex_lt(x, ks[0]) {
        let r = seq![x] + ks;
        assert forall|a: int, b: int| 0 <= a < b < r.len() implies lex_lt(
            #[trigger] r[a],
            #[trigger] r[b],
        ) by {
            if a == 0 {
                if b > 1 {
                    lemma_lex_transitive(x, ks[0], ks[b - 1]);
                }
            } else {
                assert(r[a] == ks[a - 1] && r[b] == ks[b - 1]);
            }
        }
        assert forall|y: Seq<char>| r.contains(y) <==> (ks.contains(y) || y == x) by {
            if r.contains(y) {
                let j = choose|j: int| 0 <= j < r.len() && r[j] == y;
                if j > 0 {
                    assert(ks[j - 1] == y);
                }
            }
            if ks.contains(y) {
                let j = choose|j: int| 0 <= j < ks.len() && ks[j] == y;
                assert(r[j + 1] == y);
            }
            if y == x {
                assert(r[0] == y);
            }
        }
        r
    } else {
        lemma_lex_total(ks[0], x);
        let rest = ks.drop_first();
        assert(ascending(rest)) by {
            assert forall|a: int, b: int| 0 <= a < b < rest.len() implies lex_lt(
                #[trigger] rest[a],
                #[trigger] rest[b],
            ) by {
                assert(rest[a] == ks[a + 1] && rest[b] == ks[b + 1]);
            }
        }
        let t = insert_ascending(rest, x);
        let r = seq![ks[0]] + t;
        assert forall|a: int, b: int| 0 <= a < b < r.len() implies lex_lt(
            #[trigger] r[a],
            #[trigger] r[b],
        ) by {
            if a == 0 {
                assert(t.contains(r[b])) by {
                    assert(t[b - 1] == r[b]);
                }
                if r[b] != x {
                    let j = choose|j: int| 0 <= j < rest.len() && rest[j] == r[b];
                    assert(ks[j + 1] == r[b]);
                }
            } else {
                assert(r[a] == t[a - 1] && r[b] == t[b - 1]);
            }
        }
        assert forall|y: Seq<char>| r.contains(y) <==> (ks.contains(y) || y == x) by {
            if r.contains(y) {
                let j = choose|j: int| 0 <= j < r.len() && r[j] == y;
                if j > 0 {
                    assert(t[j - 1] == y);
                    assert(t.contains(y));
                    if y != x {
                        let q = choose|q: int| 0 <= q < rest.len() && rest[q] == y;
                        assert(ks[q + 1] == y);
                    }
                }
            }
            if ks.contains(y) {
                let j = choose|j: int| 0 <= j < ks.len() && ks[j] == y;
                if j == 0 {
                    assert(r[0] == y);
                } else {
                    assert(rest[j - 1] == y);
                    assert(rest.contains(y));
                    let q = choose|q: int| 0 <= q < t.len() && t[q] == y;
                    assert(r[q + 1] == y);
                }
            }
            if y == x {
                assert(t.contains(y));
                let q = choose|q: int| 0 <= q < t.len() && t[q] == y;
                assert(r[q + 1] == y);
            }
        }
        r
    }
}

/// An ascending sequence with the texts of `vals`, built by insertion.
proof fn ascending_witness(vals: Seq<Seq<char>>) -> (w: Seq<Seq<char>>)
    ensures
        ascending(w),
        same_elements(w, vals),
    decreases vals.len(),
{
    if vals.len() == 0 {
        let w = Seq::<Seq<char>>::empty();
        w
    } else {
        let p = ascending_witness(vals.drop_last());
        let w = insert_ascending(p, vals.last());
        assert forall|y: Seq<char>| w.contains(y) <==> vals.contains(y) by {
            if vals.contains(y) {
                let j = choose|j: int| 0 <= j < vals.len() && vals[j] == y;
                if j < vals.len() - 1 {
                    assert(vals.drop_last()[j] == y);
                }
            }
            if vals.drop_last().contains(y) {
                let j = choose|j: int| 0 <= j < vals.drop_last().len() && vals.drop_last()[j] == y;
                assert(vals[j] == y);
            }
            if y == vals.last() {
                assert(vals[vals.len() - 1] == y);
            }
        }
        w
    }
}

/// The distinct texts of any sequence, in ascending order, exist: they hold
/// each text of the sequence once and nothing else.
pub proof fn lemma_sorted_distinct(vals: Seq<Seq<char>>)
    ensures
        ascending(sorted_distinct_spec(vals)),
        same_elements(sorted_distinct_spec(vals), vals),
{
    let w = ascending_witness(vals);
    assert(ascending(w) && same_elements(w, vals));
}

/// The distinct values of `vals` in ascending order.
pub fn sorted_distinct(vals: &Vec<String>) -> (r: Vec<String>)
    ensures
        texts(r@) == sorted_distinct_spec(texts(vals@)),
{
    let mut out: Vec<String> = Vec::new();
    let n = vals.len();
    let mut i: usize = 0;
    while i < n
        invariant
            n == vals@.len(),
            i <= n,
            ascending(texts(out@)),
            same_elements(texts(out@), texts(vals@.take(i as int))),
        decreases n - i,
    {
        let x = &vals[i];
        let m = out.len();
        let mut k: usize = 0;
        while k < m && text_less(out[k].as_str(), x.as_str())
            invariant
                m == out@.len(),
                k <= m,
                forall|q: int| 0 <= q < k ==> lex_lt(#[trigger] out@[q]@, x@),
            decreases m - k,
        {
            k = k + 1;
        }
        let ghost old_t = texts(out@);
        let ghost prev = texts(vals@.take(i as int));
        let ghost next = texts(vals@.take(i + 1));
        assert(next =~= prev.push(x@));
        if k < m && out[k] == *x {
            assert(old_t[k as int] == x@);
            assert forall|y: Seq<char>| old_t.contains(y) <==> next.contains(y) by {
                if old_t.contains(y) {
                    assert(prev.contains(y));
                    let j = choose|j: int| 0 <= j < prev.len() && prev[j] == y;
                    assert(next[j] == y);
                }
                if next.contains(y) {
                    let j = choose|j: int| 0 <= j < next.len() && next[j] == y;
                    if j == prev.len() {
                        assert(old_t[k as int] == y);
                    } else {
                        assert(prev[j] == y);
                        assert(prev.contains(y));
                    }
                }
            }
        } else {
            let ghost before = out@;
            out.insert(k, x.clone());
            let ghost t = texts(out@);
            assert(t =~= old_t.take(k as int).push(x@) + old_t.skip(k as int));
            proof {
                if k < m {
                    assert(old_t[k as int] != x@);
                    lemma_lex_total(old_t[k as int], x@);
                    assert(lex_lt(x@, old_t[k as int]));
                }
            }
            assert(ascending(t)) by {
                assert forall|a: int, b: int| 0 <= a < b < t.len() implies lex_lt(
                    #[trigger] t[a],
                    #[trigger] t[b],
                ) by {
                    if b < k {
                        assert(t[a] == old_t[a] && t[b] == old_t[b]);
                    } else if b == k {
                        assert(t[a] == old_t[a]);
                        assert(before[a]@ == old_t[a]);
                    } else if a == k {
                        assert(t[b] == old_t[b - 1]);
                        if b - 1 > k {
                            lemma_lex_transitive(x@, old_t[k as int], old_t[b - 1]);
                        }
                    } else if a < k {
                        assert(t[a] == old_t[a] && t[b] == old_t[b - 1]);
                    } else {
                        assert(t[a] == old_t[a - 1] && t[b] == old_t[b - 1]);
                    }
                }
            }
            assert forall|y: Seq<char>| t.contains(y) <==> next.contains(y) by {
                if t.contains(y) {
                    let j = choose|j: int| 0 <= j < t.len() && t[j] == y;
                    if j == k {
                        assert(next[next.len() - 1] == y);
                    } else {
                        if j < k {
                            assert(old_t[j] == y);
                        } else {
                            assert(old_t[j - 1] == y);
                        }
                        assert(old_t.contains(y));
                        assert(prev.contains(y));
                        let q = choose|q: int| 0 <= q < prev.len() && prev[q] == y;
                        assert(next[q] == y);
                    }
                }
                if next.contains(y) {
                    let j = choose|j: int| 0 <= j < next.len() && next[j] == y;
                    if j == prev.len() {
                        assert(t[k as int] == y);
                    } else {
                        assert(prev[j] == y);
                        assert(prev.contains(y));
                        assert(old_t.contains(y));
                        let q = choose|q: int| 0 <= q < old_t.len() && old_t[q] == y;
                        if q < k {
                            assert(t[q] == y);
                        } else {
                            assert(t[q + 1] == y);
                        }
                    }
                }
            }
        }
        i = i + 1;
    }
    assert(vals@.take(n as int) == vals@);
    proof {
        let w = texts(out@);
        assert(ascending(w) && same_elements(w, texts(vals@)));
        let c = sorted_distinct_spec(texts(vals@));
        lemma_ascending_unique(w, c);
    }
    out
}

/// The greatest text in code-point order; of equal ones the last, as
/// `Iterator::max` picks it.
pub open spec fn text_max(vals: Seq<Seq<char>>) -> Option<Seq<char>>
    decreases vals.len(),
{
    if vals.len() == 0 {
        None
    } else {
        match text_max(vals.drop_last()) {
            None => Some(vals.last()),
            Some(m) => if lex_lt(vals.last(), m) {
                Some(m)
            } else {
                Some(vals.last())
            },
        }
    }
}

/// The greatest of the texts is one of them, and none is greater.
pub proof fn lemma_text_max_greatest(vals: Seq<Seq<char>>)
    ensures
        vals.len() == 0 <==> text_max(vals) is None,
        text_max(vals) matches Some(m) ==> vals.contains(m) && forall|k: int|
            0 <= k < vals.len() ==> !lex_lt(m, #[trigger] vals[k]),
    decreases vals.len(),
{
    if vals.len() > 0 {
        let p = vals.drop_last();
        lemma_text_max_greatest(p);
        let m = text_max(vals)->0;
        assert(vals[vals.len() - 1] == vals.last());
        match text_max(p) {
            None => {
                assert(p.len() == 0);
                assert(vals.contains(m));
                lemma_lex_irreflexive(m);
            },
            Some(pm) => {
                let j = choose|j: int| 0 <= j < p.len() && p[j] == pm;
                assert(vals[j] == pm);
                assert(vals.contains(m));
                assert forall|k: int| 0 <= k < vals.len() implies !lex_lt(m, #[trigger] vals[k]) by {
                    if k < p.len() {
                        assert(vals[k] == p[k]);
                        assert(!lex_lt(pm, p[k]));
                        if lex_lt(vals.last(), pm) {
                        } else {
                            // m is the last; pm is not less than it or equal
                            if lex_lt(m, vals[k]) {
                                if pm == m {
                                } else {
                                    lemma_lex_total(pm, m);
                                    lemma_lex_transitive(pm, m, vals[k]);
                                }
                            }
                        }
                    } else {
                        if lex_lt(vals.last(), pm) {
                            lemma_lex_asymmetric(vals.last(), pm);
                        } else {
                            lemma_lex_irreflexive(m);
                        }
                    }
                }
            },
        }
    }
}

/// The latest of the texts, if any.
pub fn latest_text(vals: &Vec<String>) -> (r: Option<String>)
    ensures
        match r {
            Some(s) => text_max(texts(vals@)) == Some(s@),
            None => text_max(texts(vals@)) is None,
        },
{
    let mut best: Option<String> = None;
    let n = vals.len();
    let mut i: usize = 0;
    while i < n
        invariant
            n == vals@.len(),
            i <= n,
            match best {
                Some(s) => text_max(texts(vals@.take(i as int))) == Some(s@),
                None => text_max(texts(vals@.take(i as int))) is None,
            },
        decreases n - i,
    {
        let x = &vals[i];
        assert(texts(vals@.take(i + 1)).drop_last() =~= texts(vals@.take(i as int)));
        assert(texts(vals@.take(i + 1)).last() == x@);
        best = match best {
            None => Some(x.clone()),
            Some(m) => if text_less(x.as_str(), m.as_str()) {
                Some(m)
            } else {
                Some(x.clone())
            },
        };
        i = i + 1;
    }
    assert(vals@.take(n as int) == vals@);
    best
}

/// The texts one after another with `sep` between neighbours.
pub open spec fn join_spec(ks: Seq<Seq<char>>, sep: Seq<char>) -> Seq<char>
    decreases ks.len(),
{
    if ks.len() == 0 {
        Seq::empty()
    } else if ks.len() == 1 {
        ks[0]
    } else {
        join_spec(ks.drop_last(), sep) + sep + ks.last()
    }
}

/// `[String]::join`.
pub fn join_texts(vals: &Vec<String>, sep: &str) -> (r: String)
    ensures
        r@ == join_spec(texts(vals@), sep@),
{
    let mut out = String::new();
    let n = vals.len();
    let mut i: usize = 0;
    while i < n
        invariant
            n == vals@.len(),
            i <= n,
            out@ == join_spec(texts(vals@.take(i as int)), sep@),
        decreases n - i,
    {
        let ghost t = texts(vals@.take(i + 1));
        assert(t.drop_last() =~= texts(vals@.take(i as int)));
        assert(t.last() == vals@[i as int]@);
        if i > 0 {
            out.append(sep);
        } else {
            assert(texts(vals@.take(0)) =~= Seq::<Seq<char>>::empty());
        }
        out.append(vals[i].as_str());
        i = i + 1;
    }
    assert(vals@.take(n as int) == vals@);
    out
}

} // verus!
