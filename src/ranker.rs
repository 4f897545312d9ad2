use vstd::prelude::*;
use vstd::seq_lib::to_multiset_insert;

verus! {

/// Each candidate is no longer than the ones after it.
pub open spec fn length_sorted(s: Seq<String>) -> bool {
    forall|i: int, j: int| 0 <= i < j < s.len() ==> s[i]@.len() <= s[j]@.len()
}

/// Where a stable insertion by length puts `x` into `r`: past the elements at the
/// end of `r` that are longer than `x`, and no further.
pub open spec fn slot(r: Seq<String>, x: String) -> nat
    decreases r.len(),
{
    if r.len() == 0 {
        0
    } else if r.last()@.len() <= x@.len() {
        r.len()
    } else {
        slot(r.drop_last(), x)
    }
}

/// `s` in ascending order of length, equal lengths in their order in `s`.
pub open spec fn ranked(s: Seq<String>) -> Seq<String>
    decreases s.len(),
{
    if s.len() == 0 {
        Seq::empty()
    } else {
        let r = ranked(s.drop_last());
        r.insert(slot(r, s.last()) as int, s.last())
    }
}

proof fn lemma_slot(r: Seq<String>, x: String)
    ensures
        slot(r, x) <= r.len(),
        forall|j: int| slot(r, x) <= j < r.len() ==> r[j]@.len() > x@.len(),
        length_sorted(r) ==> forall|j: int| 0 <= j < slot(r, x) ==> r[j]@.len() <= x@.len(),
    decreases r.len(),
{
    if r.len() > 0 {
        let p = r.drop_last();
        if r.last()@.len() > x@.len() {
            lemma_slot(p, x);
            assert forall|j: int| slot(r, x) <= j < r.len() implies r[j]@.len() > x@.len() by {
                if j < p.len() {
                    assert(r[j] == p[j]);
                }
            }
            if length_sorted(r) {
                assert(length_sorted(p));
                assert forall|j: int| 0 <= j < slot(r, x) implies r[j]@.len() <= x@.len() by {
                    assert(r[j] == p[j]);
                }
            }
        } else if length_sorted(r) {
            assert forall|j: int| 0 <= j < slot(r, x) implies r[j]@.len() <= x@.len() by {
                if j < r.len() - 1 {
                    assert(r[j]@.len() <= r[r.len() - 1]@.len());
                }
            }
        }
    }
}

proof fn lemma_ranked_len(s: Seq<String>)
    ensures
        ranked(s).len() == s.len(),
    decreases s.len(),
{
    if s.len() > 0 {
        lemma_ranked_len(s.drop_last());
        lemma_slot(ranked(s.drop_last()), s.last());
    }
}

/// Ranking sorts by length.
pub proof fn lemma_ranked_sorted(s: Seq<String>)
    ensures
        length_sorted(ranked(s)),
    decreases s.len(),
{
    if s.len() > 0 {
        let r = ranked(s.drop_last());
        let x = s.last();
        lemma_ranked_sorted(s.drop_last());
        lemma_slot(r, x);
        let k = slot(r, x) as int;
        let out = r.insert(k, x);
        assert forall|i: int, j: int| 0 <= i < j < out.len() implies out[i]@.len()
            <= out[j]@.len() by {
            if j < k {
            } else if j == k {
                assert(out[i] == r[i]);
            } else if i < k {
                assert(out[j] == r[j - 1]);
            } else if i == k {
                assert(out[j] == r[j - 1]);
            } else {
                assert(out[i] == r[i - 1]);
                assert(out[j] == r[j - 1]);
            }
        }
    }
}

/// Ranking keeps every candidate, as often as it occurs.
pub proof fn lemma_ranked_permutes(s: Seq<String>)
    ensures
        ranked(s).to_multiset() == s.to_multiset(),
    decreases s.len(),
{
    broadcast use vstd::seq_lib::to_multiset_build;

    if s.len() > 0 {
        let r = ranked(s.drop_last());
        lemma_ranked_permutes(s.drop_last());
        lemma_slot(r, s.last());
        to_multiset_insert(r, slot(r, s.last()) as int, s.last());
        assert(ranked(s) == r.insert(slot(r, s.last()) as int, s.last()));
        assert(s.drop_last().push(s.last()) =~= s);
        assert(s.drop_last().push(s.last()).to_multiset() == s.drop_last().to_multiset().insert(
            s.last(),
        ));
    } else {
        assert(ranked(s) =~= s);
    }
}

/// A sequence already in order of length ranks to itself.
pub proof fn lemma_ranked_of_sorted(s: Seq<String>)
    requires
        length_sorted(s),
    ensures
        ranked(s) == s,
    decreases s.len(),
{
    if s.len() > 0 {
        let p = s.drop_last();
        assert(length_sorted(p));
        lemma_ranked_of_sorted(p);
        if p.len() > 0 {
            assert(p.last() == s[s.len() - 2]);
        }
        assert(slot(p, s.last()) == p.len());
        assert(p.insert(p.len() as int, s.last()) =~= s);
    }
}

/// Ranking twice gives what ranking once gives.
pub proof fn lemma_rank_idempotent(s: Seq<String>)
    ensures
        ranked(ranked(s)) == ranked(s),
{
    lemma_ranked_sorted(s);
    lemma_ranked_of_sorted(ranked(s));
}

/// The elements of `s` of length `n`, in their order in `s`.
pub open spec fn of_length(s: Seq<String>, n: nat) -> Seq<String>
    decreases s.len(),
{
    if s.len() == 0 {
        Seq::empty()
    } else if s.last()@.len() == n {
        of_length(s.drop_last(), n).push(s.last())
    } else {
        of_length(s.drop_last(), n)
    }
}

proof fn lemma_of_length_concat(a: Seq<String>, b: Seq<String>, n: nat)
    ensures
        of_length(a + b, n) == of_length(a, n) + of_length(b, n),
    decreases b.len(),
{
    if b.len() == 0 {
        assert(a + b =~= a);
        assert(of_length(a, n) + of_length(b, n) =~= of_length(a, n));
    } else {
        lemma_of_length_concat(a, b.drop_last(), n);
        assert((a + b).drop_last() =~= a + b.drop_last());
        assert((a + b).last() == b.last());
        assert(of_length(a, n) + of_length(b.drop_last(), n).push(b.last()) =~= (of_length(a, n)
            + of_length(b.drop_last(), n)).push(b.last()));
    }
}

proof fn lemma_of_length_none(s: Seq<String>, n: nat)
    requires
        forall|j: int| 0 <= j < s.len() ==> s[j]@.len() > n,
    ensures
        of_length(s, n) == Seq::<String>::empty(),
    decreases s.len(),
{
    if s.len() > 0 {
        lemma_of_length_none(s.drop_last(), n);
    }
}

/// Ranking keeps the order of the candidates of each length: of equal-length
/// candidates, the one that came first in the input comes first in the output.
pub proof fn lemma_ranked_stable(s: Seq<String>, n: nat)
    ensures
        of_length(ranked(s), n) == of_length(s, n),
    decreases s.len(),
{
    if s.len() > 0 {
        let r = ranked(s.drop_last());
        let x = s.last();
        lemma_ranked_stable(s.drop_last(), n);
        lemma_ranked_sorted(s.drop_last());
        lemma_slot(r, x);
        let k = slot(r, x) as int;
        let head = r.subrange(0, k);
        let tail = r.subrange(k, r.len() as int);
        assert(r =~= head + tail);
        assert(r.insert(k, x) =~= head.push(x) + tail);
        lemma_of_length_concat(head, tail, n);
        lemma_of_length_concat(head.push(x), tail, n);
        assert(head.push(x).drop_last() =~= head);
        if x@.len() == n {
            lemma_of_length_none(tail, n);
            assert(of_length(head, n) + Seq::<String>::empty() =~= of_length(head, n));
            assert(of_length(head.push(x), n) + Seq::<String>::empty() =~= of_length(
                head.push(x),
                n,
            ));
        }
    }
}

/// Sorts `results` by ascending length; results of equal length keep their order.
pub fn sort_results(results: &mut Vec<String>)
    ensures
        final(results)@ == ranked(old(results)@),
{
    let n = results.len();
    let mut out: Vec<String> = Vec::new();
    let mut lens: Vec<usize> = Vec::new();
    let mut i: usize = 0;
    while i < n
        invariant
            n == results@.len(),
            results@ == old(results)@,
            i <= n,
            out@ == ranked(results@.subrange(0, i as int)),
            lens@.len() == out@.len(),
            forall|j: int| 0 <= j < out@.len() ==> lens@[j] == out@[j]@.len(),
        decreases n - i,
    {
        let x = results[i].clone();
        let xl = x.as_str().unicode_len();
        let ghost before = results@.subrange(0, i as int);
        assert(results@.subrange(0, i + 1).drop_last() =~= before);
        proof {
            lemma_ranked_len(before);
            lemma_slot(out@, x);
        }
        let mut k: usize = out.len();
        assert(out@.subrange(0, k as int) =~= out@);
        while k > 0 && lens[k - 1] > xl
            invariant
                k <= out@.len(),
                lens@.len() == out@.len(),
                forall|j: int| 0 <= j < out@.len() ==> lens@[j] == out@[j]@.len(),
                xl == x@.len(),
                slot(out@, x) == slot(out@.subrange(0, k as int), x),
            decreases k,
        {
            assert(out@.subrange(0, k as int).drop_last() =~= out@.subrange(0, k - 1));
            k = k - 1;
        }
        assert(slot(out@.subrange(0, k as int), x) == k);
        out.insert(k, x);
        lens.insert(k, xl);
        i = i + 1;
    }
    assert(results@.subrange(0, n as int) =~= results@);
    *results = out;
}

} // verus!
