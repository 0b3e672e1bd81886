//! The end-of-run summary: total number of findings, a breakdown by lint name
//! (most frequent first) and a breakdown by severity.

use vstd::prelude::*;

use crate::findings::{LintFinding, OutputFormat};
use crate::text::{chars_eq, chars_of, decimal, push_decimal, push_str};

verus! {

// ---------------------------------------------------------------------------
// Lexicographic order on character sequences
// ---------------------------------------------------------------------------

/// Strict lexicographic order on character sequences, by code point; this is
/// the order `String` comparison gives, since UTF-8 preserves code point order.
pub open spec fn lex_lt(a: Seq<char>, b: Seq<char>) -> bool
    decreases a.len(),
{
    if a.len() == 0 {
        b.len() > 0
    } else if b.len() == 0 {
        false
    } else if (a[0] as int) < (b[0] as int) {
        true
    } else if a[0] == b[0] {
        lex_lt(a.drop_first(), b.drop_first())
    } else {
        false
    }
}

/// `lex_lt` is irreflexive.
pub proof fn lemma_lex_irreflexive(a: Seq<char>)
    ensures
        !lex_lt(a, a),
    decreases a.len(),
{
    if a.len() > 0 {
        lemma_lex_irreflexive(a.drop_first());
    }
}

/// `lex_lt` is transitive.
pub proof fn lemma_lex_transitive(a: Seq<char>, b: Seq<char>, c: Seq<char>)
    requires
        lex_lt(a, b),
        lex_lt(b, c),
    ensures
        lex_lt(a, c),
    decreases a.len(),
{
    if a.len() > 0 && b.len() > 0 && c.len() > 0 && a[0] == b[0] && b[0] == c[0] {
        lemma_lex_transitive(a.drop_first(), b.drop_first(), c.drop_first());
    }
}

/// Two different sequences are ordered one way or the other.
pub proof fn lemma_lex_total(a: Seq<char>, b: Seq<char>)
    requires
        a != b,
    ensures
        lex_lt(a, b) || lex_lt(b, a),
    decreases a.len(),
{
    if a.len() == 0 {
        assert(b.len() > 0) by {
            if b.len() == 0 {
                assert(a =~= b);
            }
        }
    } else if b.len() > 0 && a[0] == b[0] {
        if a.drop_first() == b.drop_first() {
            assert(a =~= seq![a[0]] + a.drop_first());
            assert(b =~= seq![b[0]] + b.drop_first());
        }
        lemma_lex_total(a.drop_first(), b.drop_first());
    }
}

/// The code point of a character.
pub fn char_code(c: char) -> (res: u32)
    ensures
        res as int == c as int,
{
    c as u32
}

fn lex_lt_from(a: &Vec<char>, b: &Vec<char>, i: usize) -> (res: bool)
    requires
        i <= a@.len(),
        i <= b@.len(),
    ensures
        res == lex_lt(a@.skip(i as int), b@.skip(i as int)),
    decreases a@.len() - i,
{
    if i == a.len() {
        i < b.len()
    } else if i == b.len() {
        false
    } else if char_code(a[i]) < char_code(b[i]) {
        true
    } else if a[i] == b[i] {
        assert(a@.skip(i as int).drop_first() =~= a@.skip(i + 1));
        assert(b@.skip(i as int).drop_first() =~= b@.skip(i + 1));
        lex_lt_from(a, b, i + 1)
    } else {
        false
    }
}

/// Whether `a` sorts strictly before `b`.
pub fn chars_lt(a: &Vec<char>, b: &Vec<char>) -> (res: bool)
    ensures
        res == lex_lt(a@, b@),
{
    assert(a@.skip(0) =~= a@);
    assert(b@.skip(0) =~= b@);
    lex_lt_from(a, b, 0)
}

// ---------------------------------------------------------------------------
// Tallies
// ---------------------------------------------------------------------------

/// One row of a breakdown: a lint name or severity with its number of findings.
pub struct TallyEntry {
    pub key: String,
    pub count: usize,
}

/// How many elements of `xs` equal `x`.
pub open spec fn occurrences(xs: Seq<Seq<char>>, x: Seq<char>) -> nat
    decreases xs.len(),
{
    if xs.len() == 0 {
        0
    } else {
        occurrences(xs.drop_last(), x) + (if xs.last() == x {
            1nat
        } else {
            0nat
        })
    }
}

/// A key occurs no more often than the sequence is long.
pub proof fn lemma_occurrences_bounded(xs: Seq<Seq<char>>, x: Seq<char>)
    ensures
        occurrences(xs, x) <= xs.len(),
    decreases xs.len(),
{
    if xs.len() > 0 {
        lemma_occurrences_bounded(xs.drop_last(), x);
    }
}

/// A key that occurs is an element.
pub proof fn lemma_occurrences_positive(xs: Seq<Seq<char>>, x: Seq<char>)
    ensures
        occurrences(xs, x) > 0 <==> xs.contains(x),
    decreases xs.len(),
{
    if xs.len() > 0 {
        lemma_occurrences_positive(xs.drop_last(), x);
        if xs.drop_last().contains(x) {
            let k = choose|k: int| 0 <= k < xs.drop_last().len() && xs.drop_last()[k] == x;
            assert(xs[k] == x);
        }
        if xs.contains(x) && xs.last() != x {
            let k = choose|k: int| 0 <= k < xs.len() && xs[k] == x;
            assert(xs.drop_last()[k] == x);
        }
    }
}

/// The keys of `t` are pairwise different.
pub open spec fn keys_distinct(t: Seq<TallyEntry>) -> bool {
    forall|i: int, j: int| 0 <= i < t.len() && 0 <= j < t.len() && i != j ==> t[i].key@ != t[j].key@
}

/// Some entry of `t` has key `x`.
pub open spec fn has_key(t: Seq<TallyEntry>, x: Seq<char>) -> bool {
    exists|i: int| 0 <= i < t.len() && #[trigger] t[i].key@ == x
}

/// `t` lists every distinct element of `xs` exactly once, with its number of occurrences.
pub open spec fn is_tally_of(xs: Seq<Seq<char>>, t: Seq<TallyEntry>) -> bool {
    &&& keys_distinct(t)
    &&& forall|i: int| 0 <= i < t.len() ==> #[trigger] t[i].count == occurrences(xs, t[i].key@)
    &&& forall|i: int| 0 <= i < t.len() ==> xs.contains(#[trigger] t[i].key@)
    &&& forall|k: int| 0 <= k < xs.len() ==> has_key(t, #[trigger] xs[k])
}

/// The order of a breakdown: by count descending then key ascending, or by
/// key descending.
pub open spec fn ranks_before(by_count: bool, a: TallyEntry, b: TallyEntry) -> bool {
    if by_count {
        a.count > b.count || (a.count == b.count && lex_lt(a.key@, b.key@))
    } else {
        lex_lt(b.key@, a.key@)
    }
}

/// Every entry of `t` ranks before every later entry.
pub open spec fn is_ranked(by_count: bool, t: Seq<TallyEntry>) -> bool {
    forall|i: int, j: int| 0 <= i < j < t.len() ==> ranks_before(by_count, #[trigger] t[i], #[trigger] t[j])
}

proof fn lemma_ranks_transitive(by_count: bool, a: TallyEntry, b: TallyEntry, c: TallyEntry)
    requires
        ranks_before(by_count, a, b),
        ranks_before(by_count, b, c),
    ensures
        ranks_before(by_count, a, c),
{
    if by_count {
        if a.count == b.count && b.count == c.count {
            lemma_lex_transitive(a.key@, b.key@, c.key@);
        }
    } else {
        lemma_lex_transitive(c.key@, b.key@, a.key@);
    }
}

proof fn lemma_ranks_total(by_count: bool, a: TallyEntry, b: TallyEntry)
    requires
        a.key@ != b.key@,
    ensures
        ranks_before(by_count, a, b) || ranks_before(by_count, b, a),
{
    lemma_lex_total(a.key@, b.key@);
}

fn ranks_before_exec(by_count: bool, a: &TallyEntry, b: &TallyEntry) -> (res: bool)
    ensures
        res == ranks_before(by_count, *a, *b),
{
    if by_count {
        a.count > b.count || (a.count == b.count && chars_lt(&chars_of(a.key.as_str()), &chars_of(b.key.as_str())))
    } else {
        chars_lt(&chars_of(b.key.as_str()), &chars_of(a.key.as_str()))
    }
}

fn find_key(keys: &Vec<Vec<char>>, x: &Vec<char>) -> (res: Option<usize>)
    ensures
        res matches Some(j) ==> j < keys@.len() && keys@[j as int]@ == x@,
        res is None ==> forall|k: int| 0 <= k < keys@.len() ==> (#[trigger] keys@[k])@ != x@,
{
    let mut j: usize = 0;
    while j < keys.len()
        invariant
            j <= keys@.len(),
            forall|k: int| 0 <= k < j ==> (#[trigger] keys@[k])@ != x@,
        decreases keys@.len() - j,
    {
        if chars_eq(&keys[j], x) {
            return Some(j);
        }
        j = j + 1;
    }
    None
}

/// Counts the elements of `xs`, one entry per distinct element, in order of
/// first appearance.
pub fn tally(xs: &Vec<String>) -> (res: Vec<TallyEntry>)
    ensures
        is_tally_of(xs@.map_values(|s: String| s@), res@),
{
    let ghost views = xs@.map_values(|s: String| s@);
    let mut t: Vec<TallyEntry> = Vec::new();
    let mut keys: Vec<Vec<char>> = Vec::new();
    let mut i: usize = 0;
    while i < xs.len()
        invariant
            i <= xs@.len(),
            views == xs@.map_values(|s: String| s@),
            keys@.len() == t@.len(),
            forall|j: int| 0 <= j < t@.len() ==> (#[trigger] keys@[j])@ == t@[j].key@,
            is_tally_of(views.take(i as int), t@),
            t@.len() <= i,
        decreases xs@.len() - i,
    {
        let ghost prev = views.take(i as int);
        let ghost next = views.take(i + 1);
        assert(next.drop_last() =~= prev);
        assert(next.last() == xs@[i as int]@);
        let x = chars_of(xs[i].as_str());
        let found_at = find_key(&keys, &x);
        proof {
            assert forall|k: int| 0 <= k < t@.len() implies #[trigger] occurrences(next, t@[k].key@)
                == occurrences(prev, t@[k].key@) + (if t@[k].key@ == x@ { 1nat } else { 0nat }) by {}
        }
        let ghost t_before = t@;
        if let Some(j) = found_at {
            assert(t@[j as int].key@ == x@);
            let old_count = t[j].count;
            proof {
                lemma_occurrences_bounded(prev, x@);
            }
            let entry = TallyEntry { key: t[j].key.clone(), count: old_count + 1 };
            t.set(j, entry);
            proof {
                assert forall|k: int| 0 <= k < next.len() implies has_key(t@, #[trigger] next[k]) by {
                    if k < prev.len() {
                        assert(next[k] == prev[k]);
                        assert(has_key(t_before, prev[k]));
                        let m = choose|m: int| 0 <= m < t@.len() && #[trigger] t_before[m].key@ == prev[k];
                        assert(t@[m].key@ == t_before[m].key@);
                    } else {
                        assert(t@[j as int].key@ == next[k]);
                    }
                }
                assert forall|m: int| 0 <= m < t@.len() implies #[trigger] t@[m].count == occurrences(
                    next,
                    t@[m].key@,
                ) by {
                    if m != j {
                        assert(t@[m] == t_before[m]);
                        assert(t_before[m].key@ != t_before[j as int].key@);
                    }
                }
                assert(keys_distinct(t@));
                assert forall|m: int| 0 <= m < t@.len() implies next.contains(#[trigger] t@[m].key@) by {
                    if m != j {
                        assert(t@[m] == t_before[m]);
                        assert(prev.contains(t_before[m].key@));
                        let k = choose|k: int| 0 <= k < prev.len() && prev[k] == t@[m].key@;
                        assert(next[k] == prev[k]);
                    } else {
                        assert(next[i as int] == x@);
                    }
                }
            }
        } else {
            let entry = TallyEntry { key: xs[i].clone(), count: 1 };
            t.push(entry);
            keys.push(x);
            proof {
                lemma_occurrences_positive(prev, x@);
                assert forall|k: int| 0 <= k < next.len() implies has_key(t@, #[trigger] next[k]) by {
                    if k < prev.len() {
                        assert(next[k] == prev[k]);
                        assert(has_key(t_before, prev[k]));
                        let m = choose|m: int| 0 <= m < t_before.len() && #[trigger] t_before[m].key@ == prev[k];
                        assert(t@[m].key@ == t_before[m].key@);
                    } else {
                        assert(t@[t@.len() - 1].key@ == next[k]);
                    }
                }
                assert forall|a: int, b: int| 0 <= a < t@.len() && 0 <= b < t@.len() && a != b implies t@[a].key@
                    != t@[b].key@ by {
                    if a == t@.len() - 1 {
                        assert(keys@[b]@ != x@);
                    } else if b == t@.len() - 1 {
                        assert(keys@[a]@ != x@);
                    } else {
                        assert(t@[a] == t_before[a]);
                        assert(t@[b] == t_before[b]);
                    }
                }
                assert forall|m: int| 0 <= m < t@.len() implies next.contains(#[trigger] t@[m].key@) by {
                    if m < t@.len() - 1 {
                        assert(t@[m] == t_before[m]);
                        assert(prev.contains(t_before[m].key@));
                        let k = choose|k: int| 0 <= k < prev.len() && prev[k] == t@[m].key@;
                        assert(next[k] == prev[k]);
                    } else {
                        assert(next[i as int] == x@);
                    }
                }
                assert forall|m: int| 0 <= m < t@.len() implies #[trigger] t@[m].count == occurrences(
                    next,
                    t@[m].key@,
                ) by {
                    if m == t@.len() - 1 {
                        if prev.contains(x@) {
                            let k = choose|k: int| 0 <= k < prev.len() && prev[k] == x@;
                            assert(has_key(t_before, prev[k]));
                            let m2 = choose|m2: int| 0 <= m2 < t_before.len() && #[trigger] t_before[m2].key@ == prev[k];
                            assert(keys@[m2]@ == t_before[m2].key@);
                        }
                        assert(occurrences(prev, x@) == 0);
                    } else {
                        assert(t@[m] == t_before[m]);
                        assert(keys@[m]@ != x@);
                    }
                }
            }
        }
        i = i + 1;
    }
    assert(views.take(i as int) =~= views);
    t
}

/// Reorders a tally so that every entry ranks before every later one.
pub fn rank_tally(t: Vec<TallyEntry>, by_count: bool) -> (res: Vec<TallyEntry>)
    requires
        keys_distinct(t@),
    ensures
        is_ranked(by_count, res@),
        keys_distinct(res@),
        res@.len() == t@.len(),
        forall|e: TallyEntry| res@.contains(e) <==> t@.contains(e),
{
    let mut res: Vec<TallyEntry> = Vec::new();
    let mut rest = t;
    let ghost all = rest@;
    while rest.len() > 0
        invariant
            keys_distinct(res@ + rest@),
            res@.len() + rest@.len() == all.len(),
            forall|e: TallyEntry| (res@ + rest@).contains(e) <==> all.contains(e),
            is_ranked(by_count, res@),
            forall|a: int, b: int|
                0 <= a < res@.len() && 0 <= b < rest@.len() ==> ranks_before(by_count, #[trigger] res@[a], #[trigger] rest@[b]),
        decreases rest@.len(),
    {
        // Find the entry of `rest` that ranks first.
        let mut m: usize = 0;
        let mut k: usize = 1;
        while k < rest.len()
            invariant
                keys_distinct(res@ + rest@),
                rest@.len() > 0,
                m < k <= rest@.len(),
                forall|q: int| 0 <= q < k && q != m ==> ranks_before(by_count, rest@[m as int], #[trigger] rest@[q]),
            decreases rest@.len() - k,
        {
            proof {
                assert((res@ + rest@)[res@.len() + m] == rest@[m as int]);
                assert((res@ + rest@)[res@.len() + k] == rest@[k as int]);
                lemma_ranks_total(by_count, rest@[m as int], rest@[k as int]);
            }
            if ranks_before_exec(by_count, &rest[k], &rest[m]) {
                proof {
                    assert forall|q: int| 0 <= q < k + 1 && q != k implies ranks_before(
                        by_count,
                        rest@[k as int],
                        #[trigger] rest@[q],
                    ) by {
                        if q != m {
                            lemma_ranks_transitive(by_count, rest@[k as int], rest@[m as int], rest@[q]);
                        }
                    }
                }
                m = k;
            }
            k = k + 1;
        }
        let ghost old_res = res@;
        let ghost old_rest = rest@;
        let ghost picked = rest@[m as int];
        let e = rest.remove(m);
        res.push(e);
        proof {
            let before = old_res + old_rest;
            let after = res@ + rest@;
            // `after` is `before` with the picked entry moved to the end of `res`.
            assert forall|q: int| 0 <= q < after.len() implies exists|p: int|
                0 <= p < before.len() && #[trigger] after[q] == before[p] && (q < old_res.len() ==> p == q)
                && (q == old_res.len() ==> p == old_res.len() + m) && (q > old_res.len() ==> (if q - old_res.len() - 1 < m {
                p == q - 1
            } else {
                p == q
            })) by {
                if q < old_res.len() {
                    assert(after[q] == before[q]);
                } else if q == old_res.len() {
                    assert(after[q] == before[old_res.len() + m]);
                } else if q - old_res.len() - 1 < m {
                    assert(after[q] == before[q - 1]);
                } else {
                    assert(after[q] == before[q]);
                }
            }
            assert forall|q1: int, q2: int|
                0 <= q1 < after.len() && 0 <= q2 < after.len() && q1 != q2 implies after[q1].key@
                != after[q2].key@ by {
                let p1 = choose|p: int|
                    0 <= p < before.len() && #[trigger] after[q1] == before[p] && (q1 < old_res.len() ==> p == q1)
                        && (q1 == old_res.len() ==> p == old_res.len() + m) && (q1 > old_res.len() ==> (if q1
                        - old_res.len() - 1 < m {
                        p == q1 - 1
                    } else {
                        p == q1
                    }));
                let p2 = choose|p: int|
                    0 <= p < before.len() && #[trigger] after[q2] == before[p] && (q2 < old_res.len() ==> p == q2)
                        && (q2 == old_res.len() ==> p == old_res.len() + m) && (q2 > old_res.len() ==> (if q2
                        - old_res.len() - 1 < m {
                        p == q2 - 1
                    } else {
                        p == q2
                    }));
                assert(p1 != p2);
            }
            assert forall|x: TallyEntry| after.contains(x) <==> all.contains(x) by {
                if after.contains(x) {
                    let q = choose|q: int| 0 <= q < after.len() && after[q] == x;
                    let p = choose|p: int|
                        0 <= p < before.len() && #[trigger] after[q] == before[p] && (q < old_res.len() ==> p == q)
                            && (q == old_res.len() ==> p == old_res.len() + m) && (q > old_res.len() ==> (if q
                            - old_res.len() - 1 < m {
                            p == q - 1
                        } else {
                            p == q
                        }));
                    assert(before.contains(x));
                }
                if all.contains(x) {
                    assert(before.contains(x));
                    let p = choose|p: int| 0 <= p < before.len() && before[p] == x;
                    if p < old_res.len() {
                        assert(after[p] == x);
                    } else if p == old_res.len() + m {
                        assert(after[old_res.len() as int] == x);
                    } else if p < old_res.len() + m {
                        assert(after[p + 1] == x);
                    } else {
                        assert(after[p] == x);
                    }
                    assert(after.contains(x));
                }
            }
            assert forall|a: int, b: int| 0 <= a < b < res@.len() implies ranks_before(
                by_count,
                #[trigger] res@[a],
                #[trigger] res@[b],
            ) by {
                if b == res@.len() - 1 {
                    assert(res@[b] == old_rest[m as int]);
                    assert(res@[a] == old_res[a]);
                } else {
                    assert(res@[a] == old_res[a]);
                    assert(res@[b] == old_res[b]);
                }
            }
            assert forall|a: int, b: int| 0 <= a < res@.len() && 0 <= b < rest@.len() implies ranks_before(
                by_count,
                #[trigger] res@[a],
                #[trigger] rest@[b],
            ) by {
                let ob = if b < m {
                    b
                } else {
                    b + 1
                };
                assert(rest@[b] == old_rest[ob]);
                if a == res@.len() - 1 {
                    assert(res@[a] == old_rest[m as int]);
                } else {
                    assert(res@[a] == old_res[a]);
                }
            }
        }
    }
    assert(res@ + rest@ =~= res@);
    res
}

/// The sum of the counts of a breakdown.
pub open spec fn total_count(t: Seq<TallyEntry>) -> nat
    decreases t.len(),
{
    if t.len() == 0 {
        0
    } else {
        total_count(t.drop_last()) + t.last().count as nat
    }
}

/// The sum, over the entries of `t`, of how often each entry's key occurs in `xs`.
spec fn occurrence_sum(t: Seq<TallyEntry>, xs: Seq<Seq<char>>) -> nat
    decreases t.len(),
{
    if t.len() == 0 {
        0
    } else {
        occurrence_sum(t.drop_last(), xs) + occurrences(xs, t.last().key@)
    }
}

/// How many entries of `t` have key `x`.
spec fn key_hits(t: Seq<TallyEntry>, x: Seq<char>) -> nat
    decreases t.len(),
{
    if t.len() == 0 {
        0
    } else {
        key_hits(t.drop_last(), x) + (if t.last().key@ == x {
            1nat
        } else {
            0nat
        })
    }
}

proof fn lemma_occurrence_sum_empty(t: Seq<TallyEntry>, xs: Seq<Seq<char>>)
    requires
        xs.len() == 0,
    ensures
        occurrence_sum(t, xs) == 0,
    decreases t.len(),
{
    if t.len() > 0 {
        lemma_occurrence_sum_empty(t.drop_last(), xs);
    }
}

proof fn lemma_occurrence_sum_step(t: Seq<TallyEntry>, xs: Seq<Seq<char>>)
    requires
        xs.len() > 0,
    ensures
        occurrence_sum(t, xs) == occurrence_sum(t, xs.drop_last()) + key_hits(t, xs.last()),
    decreases t.len(),
{
    if t.len() > 0 {
        lemma_occurrence_sum_step(t.drop_last(), xs);
    }
}

proof fn lemma_key_hits_one(t: Seq<TallyEntry>, x: Seq<char>)
    requires
        keys_distinct(t),
        has_key(t, x),
    ensures
        key_hits(t, x) == 1,
    decreases t.len(),
{
    let p = t.drop_last();
    assert(keys_distinct(p)) by {
        assert forall|i: int, j: int| 0 <= i < p.len() && 0 <= j < p.len() && i != j implies p[i].key@ != p[j].key@ by {
            assert(p[i] == t[i] && p[j] == t[j]);
        }
    }
    if t.last().key@ == x {
        assert forall|i: int| 0 <= i < p.len() implies #[trigger] p[i].key@ != x by {
            assert(p[i] == t[i]);
            assert(t[i].key@ != t[t.len() - 1].key@);
        }
        lemma_key_hits_zero(p, x);
    } else {
        let i = choose|i: int| 0 <= i < t.len() && #[trigger] t[i].key@ == x;
        assert(p[i] == t[i]);
        lemma_key_hits_one(p, x);
    }
}

proof fn lemma_key_hits_zero(t: Seq<TallyEntry>, x: Seq<char>)
    requires
        forall|i: int| 0 <= i < t.len() ==> #[trigger] t[i].key@ != x,
    ensures
        key_hits(t, x) == 0,
    decreases t.len(),
{
    if t.len() > 0 {
        assert(t[t.len() - 1].key@ != x);
        lemma_key_hits_zero(t.drop_last(), x);
    }
}

proof fn lemma_occurrence_sum_is_length(xs: Seq<Seq<char>>, t: Seq<TallyEntry>)
    requires
        keys_distinct(t),
        forall|k: int| 0 <= k < xs.len() ==> has_key(t, #[trigger] xs[k]),
    ensures
        occurrence_sum(t, xs) == xs.len(),
    decreases xs.len(),
{
    if xs.len() == 0 {
        lemma_occurrence_sum_empty(t, xs);
    } else {
        let p = xs.drop_last();
        assert forall|k: int| 0 <= k < p.len() implies has_key(t, #[trigger] p[k]) by {
            assert(p[k] == xs[k]);
        }
        lemma_occurrence_sum_is_length(p, t);
        lemma_occurrence_sum_step(t, xs);
        assert(has_key(t, xs[xs.len() - 1]));
        lemma_key_hits_one(t, xs.last());
    }
}

proof fn lemma_total_is_occurrence_sum(xs: Seq<Seq<char>>, t: Seq<TallyEntry>)
    requires
        forall|i: int| 0 <= i < t.len() ==> #[trigger] t[i].count == occurrences(xs, t[i].key@),
    ensures
        total_count(t) == occurrence_sum(t, xs),
    decreases t.len(),
{
    if t.len() > 0 {
        let p = t.drop_last();
        assert forall|i: int| 0 <= i < p.len() implies #[trigger] p[i].count == occurrences(xs, p[i].key@) by {
            assert(p[i] == t[i]);
        }
        lemma_total_is_occurrence_sum(xs, p);
        assert(t[t.len() - 1].count == occurrences(xs, t[t.len() - 1].key@));
    }
}

/// The breakdown of a summary accounts for every finding exactly once: its
/// counts add up to the number of findings.
pub proof fn law_breakdown_counts_sum_to_total(xs: Seq<Seq<char>>, t: Seq<TallyEntry>)
    requires
        is_tally_of(xs, t),
    ensures
        total_count(t) == xs.len(),
{
    lemma_total_is_occurrence_sum(xs, t);
    lemma_occurrence_sum_is_length(xs, t);
}

// ---------------------------------------------------------------------------
// The summary text
// ---------------------------------------------------------------------------

/// The breakdown lines for a ranked tally.
pub open spec fn breakdown_lines(t: Seq<TallyEntry>) -> Seq<char>
    decreases t.len(),
{
    if t.len() == 0 {
        Seq::empty()
    } else {
        breakdown_lines(t.drop_last()) + "    - "@ + t.last().key@ + ": "@ + decimal(t.last().count as nat) + "\n"@
    }
}

/// The summary printed after a text-format run with `total` findings, given the
/// breakdowns by lint name and by severity.
pub open spec fn summary_text(total: nat, by_name: Seq<TallyEntry>, by_level: Seq<TallyEntry>) -> Seq<char> {
    if total == 0 {
        "\n✓ No cost lints found. Clean workspace!\n"@
    } else {
        "\nFound "@ + decimal(total) + " cost lint finding"@ + (if total == 1 {
            ""@
        } else {
            "s"@
        }) + ":\n"@ + "  By lint name:\n"@ + breakdown_lines(by_name) + "  By severity:\n"@
            + breakdown_lines(by_level)
    }
}

/// Whether the format is machine-readable (JSON, SARIF or GitHub), for which
/// no summary is printed.
pub open spec fn is_machine_format(format: OutputFormat) -> bool {
    format == OutputFormat::Json || format == OutputFormat::Sarif || format == OutputFormat::Github
}

/// The names of `findings`, in order.
pub open spec fn finding_names(findings: Seq<LintFinding>) -> Seq<Seq<char>> {
    findings.map_values(|f: LintFinding| f.name@)
}

/// The levels of `findings`, in order.
pub open spec fn finding_levels(findings: Seq<LintFinding>) -> Seq<Seq<char>> {
    findings.map_values(|f: LintFinding| f.level@)
}

/// What the summary for `findings` in `format` is, given ranked breakdowns.
pub open spec fn is_summary_of(format: OutputFormat, findings: Seq<LintFinding>, text: Seq<char>) -> bool {
    if is_machine_format(format) {
        text.len() == 0
    } else {
        exists|by_name: Seq<TallyEntry>, by_level: Seq<TallyEntry>|
            #![trigger summary_text(findings.len(), by_name, by_level)]
            is_tally_of(finding_names(findings), by_name) && is_ranked(true, by_name) && is_tally_of(
                finding_levels(findings),
                by_level,
            ) && is_ranked(false, by_level) && text == summary_text(findings.len(), by_name, by_level)
    }
}

fn push_breakdown(out: &mut String, t: &Vec<TallyEntry>)
    ensures
        final(out)@ == old(out)@ + breakdown_lines(t@),
{
    let ghost start = out@;
    let mut i: usize = 0;
    while i < t.len()
        invariant
            i <= t@.len(),
            out@ == start + breakdown_lines(t@.take(i as int)),
        decreases t@.len() - i,
    {
        assert(t@.take(i + 1).drop_last() =~= t@.take(i as int));
        push_str(out, "    - ");
        push_str(out, t[i].key.as_str());
        push_str(out, ": ");
        push_decimal(out, t[i].count);
        push_str(out, "\n");
        i = i + 1;
    }
    assert(t@.take(i as int) =~= t@);
}

proof fn lemma_tally_transfers(xs: Seq<Seq<char>>, t: Seq<TallyEntry>, r: Seq<TallyEntry>)
    requires
        is_tally_of(xs, t),
        keys_distinct(r),
        forall|e: TallyEntry| r.contains(e) <==> t.contains(e),
    ensures
        is_tally_of(xs, r),
{
    assert forall|i: int| 0 <= i < r.len() implies #[trigger] r[i].count == occurrences(xs, r[i].key@) by {
        assert(r.contains(r[i]));
        let j = choose|j: int| 0 <= j < t.len() && t[j] == r[i];
        assert(t[j].count == occurrences(xs, t[j].key@));
    }
    assert forall|i: int| 0 <= i < r.len() implies xs.contains(#[trigger] r[i].key@) by {
        assert(r.contains(r[i]));
        let j = choose|j: int| 0 <= j < t.len() && t[j] == r[i];
        assert(xs.contains(t[j].key@));
    }
    assert forall|k: int| 0 <= k < xs.len() implies has_key(r, #[trigger] xs[k]) by {
        assert(has_key(t, xs[k]));
        let j = choose|j: int| 0 <= j < t.len() && #[trigger] t[j].key@ == xs[k];
        assert(t.contains(t[j]));
        assert(r.contains(t[j]));
        let i = choose|i: int| 0 <= i < r.len() && r[i] == t[j];
        assert(r[i].key@ == xs[k]);
    }


}

/// The summary of `findings` printed at the end of a run: nothing for the
/// machine-readable formats; otherwise the total and the breakdowns by lint
/// name (most frequent first, then by name) and by severity (by level name,
/// descending), or a success line when there are no findings.
pub fn print_findings_summary(format: &OutputFormat, findings: &[LintFinding]) -> (res: String)
    ensures
        is_summary_of(*format, findings@, res@),
{
    if *format == OutputFormat::Json || *format == OutputFormat::Sarif || *format == OutputFormat::Github {
        return String::new();
    }
    let mut names: Vec<String> = Vec::new();
    let mut levels: Vec<String> = Vec::new();
    let mut i: usize = 0;
    while i < findings.len()
        invariant
            i <= findings@.len(),
            names@.len() == i,
            levels@.len() == i,
            forall|k: int| 0 <= k < i ==> (#[trigger] names@[k])@ == findings@[k].name@,
            forall|k: int| 0 <= k < i ==> (#[trigger] levels@[k])@ == findings@[k].level@,
        decreases findings@.len() - i,
    {
        names.push(findings[i].name.clone());
        levels.push(findings[i].level.clone());
        i = i + 1;
    }
    assert(names@.map_values(|s: String| s@) =~= finding_names(findings@));
    assert(levels@.map_values(|s: String| s@) =~= finding_levels(findings@));
    let name_tally = tally(&names);
    let level_tally = tally(&levels);
    let by_name = rank_tally(name_tally, true);
    let by_level = rank_tally(level_tally, false);
    proof {
        lemma_tally_transfers(finding_names(findings@), name_tally@, by_name@);
        lemma_tally_transfers(finding_levels(findings@), level_tally@, by_level@);
    }
    let mut out = String::new();
    if findings.len() == 0 {
        push_str(&mut out, "\n✓ No cost lints found. Clean workspace!\n");
    } else {
        push_str(&mut out, "\nFound ");
        push_decimal(&mut out, findings.len());
        push_str(&mut out, " cost lint finding");
        if findings.len() != 1 {
            push_str(&mut out, "s");
        } else {
            push_str(&mut out, "");
        }
        push_str(&mut out, ":\n");
        push_str(&mut out, "  By lint name:\n");
        push_breakdown(&mut out, &by_name);
        push_str(&mut out, "  By severity:\n");
        push_breakdown(&mut out, &by_level);
    }
    assert(out@ =~= summary_text(findings@.len(), by_name@, by_level@));
    out
}

} // verus!
