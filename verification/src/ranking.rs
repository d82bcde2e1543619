//! Putting rows in the order of their ranks.

use vstd::prelude::*;
use crate::catalog::Keyed;

verus! {

/// Where a row of rank `rank` goes into places that are already in rank
/// order: behind every place whose rank is not greater.
pub open spec fn rank_insert_at(ranks: Seq<i64>, sorted: Seq<usize>, rank: i64) -> int
    decreases sorted.len(),
{
    if sorted.len() == 0 {
        0
    } else if rank < ranks[sorted.last() as int] {
        rank_insert_at(ranks, sorted.drop_last(), rank)
    } else {
        sorted.len() as int
    }
}

/// The places `0..ranks.len()` in the order of their ranks, lowest first,
/// places of equal rank in their own order.
pub open spec fn ranked(ranks: Seq<i64>) -> Seq<usize>
    decreases ranks.len(),
{
    if ranks.len() == 0 {
        Seq::empty()
    } else {
        let rest = ranked(ranks.drop_last());
        let at = (ranks.len() - 1) as usize;
        rest.insert(rank_insert_at(ranks, rest, ranks.last()), at)
    }
}

/// The rows in the order of their ranks.
pub open spec fn in_rank_order<R>(rows: Seq<R>, ranks: Seq<i64>) -> Seq<R> {
    Seq::new(ranked(ranks).len(), |k: int| rows[ranked(ranks)[k] as int])
}

proof fn lemma_insert_at_prefix(ranks: Seq<i64>, longer: Seq<i64>, sorted: Seq<usize>, rank: i64)
    requires
        ranks.len() <= longer.len(),
        forall|i: int| 0 <= i < ranks.len() ==> ranks[i] == longer[i],
        forall|k: int| 0 <= k < sorted.len() ==> (#[trigger] sorted[k]) < ranks.len(),
    ensures
        rank_insert_at(ranks, sorted, rank) == rank_insert_at(longer, sorted, rank),
        0 <= rank_insert_at(ranks, sorted, rank) <= sorted.len(),
    decreases sorted.len(),
{
    if sorted.len() > 0 {
        assert(sorted.last() == sorted[sorted.len() - 1]);
        assert forall|k: int| 0 <= k < sorted.drop_last().len() implies (
        #[trigger] sorted.drop_last()[k]) < ranks.len() by {
            assert(sorted.drop_last()[k] == sorted[k]);
        }
        lemma_insert_at_prefix(ranks, longer, sorted.drop_last(), rank);
    }
}

/// `ranked` lists every place once, and in rank order.
pub proof fn lemma_ranked(ranks: Seq<i64>)
    ensures
        ranked(ranks).len() == ranks.len(),
        forall|k: int| 0 <= k < ranks.len() ==> (#[trigger] ranked(ranks)[k]) < ranks.len(),
    decreases ranks.len(),
{
    if ranks.len() > 0 {
        let front = ranks.drop_last();
        lemma_ranked(front);
        let rest = ranked(front);
        lemma_insert_at_prefix(front, ranks, rest, ranks.last());
        let at = rank_insert_at(ranks, rest, ranks.last());
        let full = rest.insert(at, (ranks.len() - 1) as usize);
        assert forall|k: int| 0 <= k < ranks.len() implies (#[trigger] full[k]) < ranks.len() by {
            if k < at {
                assert(full[k] == rest[k]);
            } else if k > at {
                assert(full[k] == rest[k - 1]);
            }
        }
    }
}

/// `ranked` over a prefix of the ranks is the same whether it is read from
/// the prefix or from the whole.
proof fn lemma_ranked_take(ranks: Seq<i64>, n: int)
    requires
        0 <= n < ranks.len(),
    ensures
        ranked(ranks.take(n + 1)) == ranked(ranks.take(n)).insert(
            rank_insert_at(ranks, ranked(ranks.take(n)), ranks[n]),
            n as usize,
        ),
{
    let longer = ranks.take(n + 1);
    let front = ranks.take(n);
    assert(longer.drop_last() =~= front);
    lemma_ranked(front);
    lemma_insert_at_prefix(front, longer, ranked(front), ranks[n]);
    lemma_insert_at_prefix(front, ranks, ranked(front), ranks[n]);
}

/// The places are in rank order, places of equal rank in their own order.
pub open spec fn in_order_of_rank(ranks: Seq<i64>, places: Seq<usize>) -> bool {
    forall|i: int, j: int|
        0 <= i < j < places.len() ==> ranks[(#[trigger] places[i]) as int] < ranks[(
        #[trigger] places[j]) as int] || (ranks[places[i] as int] == ranks[places[j] as int]
            && places[i] < places[j])
}

proof fn lemma_rank_insert_at(ranks: Seq<i64>, sorted: Seq<usize>, rank: i64)
    requires
        in_order_of_rank(ranks, sorted),
        forall|k: int| 0 <= k < sorted.len() ==> (#[trigger] sorted[k]) < ranks.len(),
    ensures
        0 <= rank_insert_at(ranks, sorted, rank) <= sorted.len(),
        forall|i: int|
            0 <= i < rank_insert_at(ranks, sorted, rank) ==> ranks[(#[trigger] sorted[i]) as int]
                <= rank,
        forall|i: int|
            rank_insert_at(ranks, sorted, rank) <= i < sorted.len() ==> rank < ranks[(
            #[trigger] sorted[i]) as int],
    decreases sorted.len(),
{
    if sorted.len() > 0 {
        let front = sorted.drop_last();
        let n = sorted.len() - 1;
        assert(sorted.last() == sorted[n]);
        assert forall|i: int, j: int| 0 <= i < j < front.len() implies ranks[(
        #[trigger] front[i]) as int] < ranks[(#[trigger] front[j]) as int] || (ranks[front[i] as int]
            == ranks[front[j] as int] && front[i] < front[j]) by {
            assert(front[i] == sorted[i] && front[j] == sorted[j]);
        }
        assert forall|k: int| 0 <= k < front.len() implies (#[trigger] front[k]) < ranks.len() by {
            assert(front[k] == sorted[k]);
        }
        if rank < ranks[sorted.last() as int] {
            lemma_rank_insert_at(ranks, front, rank);
            assert forall|i: int| 0 <= i < rank_insert_at(ranks, sorted, rank) implies ranks[(
            #[trigger] sorted[i]) as int] <= rank by {
                assert(front[i] == sorted[i]);
            }
            assert forall|i: int|
                rank_insert_at(ranks, sorted, rank) <= i < sorted.len() implies rank < ranks[(
            #[trigger] sorted[i]) as int] by {
                if i < n {
                    assert(front[i] == sorted[i]);
                }
            }
        } else {
            assert forall|i: int| 0 <= i < sorted.len() implies ranks[(#[trigger] sorted[i]) as int]
                <= rank by {
                if i < n {
                    assert(ranks[sorted[i] as int] <= ranks[sorted[n] as int]);
                }
            }
        }
    }
}

/// `ranked` puts every place once, in rank order, places of equal rank in
/// their own order.
pub proof fn law_ranked_is_stable_order(ranks: Seq<i64>)
    requires
        ranks.len() <= usize::MAX,
    ensures
        ranked(ranks).len() == ranks.len(),
        forall|k: int| 0 <= k < ranks.len() ==> (#[trigger] ranked(ranks)[k]) < ranks.len(),
        in_order_of_rank(ranks, ranked(ranks)),
        ranked(ranks).no_duplicates(),
    decreases ranks.len(),
{
    lemma_ranked(ranks);
    if ranks.len() > 0 {
        let front = ranks.drop_last();
        let n = (ranks.len() - 1) as usize;
        law_ranked_is_stable_order(front);
        let rest = ranked(front);
        assert(in_order_of_rank(ranks, rest)) by {
            assert forall|i: int, j: int| 0 <= i < j < rest.len() implies ranks[(
            #[trigger] rest[i]) as int] < ranks[(#[trigger] rest[j]) as int] || (ranks[rest[i] as int]
                == ranks[rest[j] as int] && rest[i] < rest[j]) by {
                assert(front[rest[i] as int] == ranks[rest[i] as int]);
                assert(front[rest[j] as int] == ranks[rest[j] as int]);
            }
        }
        assert forall|k: int| 0 <= k < rest.len() implies (#[trigger] rest[k]) < ranks.len() by {
            assert(rest[k] < front.len());
        }
        lemma_rank_insert_at(ranks, rest, ranks.last());
        let at = rank_insert_at(ranks, rest, ranks.last());
        let full = rest.insert(at, n);
        assert(full == ranked(ranks));
        assert forall|i: int, j: int| 0 <= i < j < full.len() implies ranks[(
        #[trigger] full[i]) as int] < ranks[(#[trigger] full[j]) as int] || (ranks[full[i] as int]
            == ranks[full[j] as int] && full[i] < full[j]) by {
            if i < at && j > at {
                assert(full[i] == rest[i] && full[j] == rest[j - 1]);
            } else if i < at && j < at {
                assert(full[i] == rest[i] && full[j] == rest[j]);
            } else if i > at {
                assert(full[i] == rest[i - 1] && full[j] == rest[j - 1]);
            } else if i == at {
                assert(full[j] == rest[j - 1]);
                assert(full[i] == n);
                assert(ranks.last() < ranks[rest[j - 1] as int]);
            } else {
                assert(full[i] == rest[i]);
                assert(full[j] == n);
                assert(rest[i] < front.len());
                assert(ranks[rest[i] as int] <= ranks.last());
            }
        }
        assert forall|i: int, j: int| 0 <= i < j < full.len() implies full[i] != full[j] by {
            let a = if i < at {
                rest[i]
            } else if i == at {
                n
            } else {
                rest[i - 1]
            };
            let b = if j < at {
                rest[j]
            } else if j == at {
                n
            } else {
                rest[j - 1]
            };
            assert(full[i] == a && full[j] == b);
            if i != at && j != at {
                let x = if i < at {
                    i
                } else {
                    i - 1
                };
                let y = if j < at {
                    j
                } else {
                    j - 1
                };
                assert(rest[x] != rest[y]);
            } else if i == at {
                assert(rest[j - 1] < front.len());
            } else {
                assert(rest[i] < front.len());
            }
        }
    }
}

/// Computes the places of the rows in the order of their ranks.
pub fn rank_places(ranks: &Vec<i64>) -> (places: Vec<usize>)
    ensures
        places@ == ranked(ranks@),
        places.len() == ranks.len(),
        forall|k: int| 0 <= k < places.len() ==> (#[trigger] places[k]) < ranks.len(),
{
    let mut out: Vec<usize> = Vec::new();
    let mut n: usize = 0;
    assert(ranks@.take(0) =~= Seq::<i64>::empty());
    while n < ranks.len()
        invariant
            n <= ranks.len(),
            out@ == ranked(ranks@.take(n as int)),
            out.len() == n,
            forall|k: int| 0 <= k < out.len() ==> (#[trigger] out[k]) < n,
        decreases ranks.len() - n,
    {
        let ghost sorted = out@;
        let rank: i64 = ranks[n];
        let mut p: usize = out.len();
        assert(sorted.take(p as int) =~= sorted);
        while p > 0 && rank < ranks[out[p - 1]]
            invariant
                p <= out.len(),
                n < ranks.len(),
                rank == ranks@[n as int],
                out@ == sorted,
                forall|k: int| 0 <= k < out.len() ==> (#[trigger] out[k]) < n,
                rank_insert_at(ranks@, sorted, rank) == rank_insert_at(
                    ranks@,
                    sorted.take(p as int),
                    rank,
                ),
            decreases p,
        {
            proof {
                assert(sorted.take(p as int).last() == sorted[p - 1]);
                assert(sorted.take(p as int).drop_last() =~= sorted.take(p - 1));
            }
            p -= 1;
        }
        proof {
            if p > 0 {
                assert(sorted.take(p as int).last() == sorted[p - 1]);
            }
            lemma_ranked_take(ranks@, n as int);
        }
        out.insert(p, n);
        assert forall|k: int| 0 <= k < out.len() implies (#[trigger] out[k]) < n + 1 by {
            if k < p {
                assert(out[k] == sorted[k]);
            } else if k > p {
                assert(out[k] == sorted[k - 1]);
            }
        }
        n += 1;
    }
    assert(ranks@.take(ranks.len() as int) =~= ranks@);
    out
}

/// Copies the rows of a table in the order of their ranks.
pub fn rows_in_rank_order<R: Keyed>(rows: &Vec<R>, ranks: &Vec<i64>) -> (out: Vec<R>)
    requires
        rows.len() == ranks.len(),
    ensures
        out@ == in_rank_order(rows@, ranks@),
{
    let places: Vec<usize> = rank_places(ranks);
    let mut out: Vec<R> = Vec::new();
    let mut k: usize = 0;
    while k < places.len()
        invariant
            k <= places.len(),
            rows.len() == ranks.len(),
            places@ == ranked(ranks@),
            forall|j: int| 0 <= j < places.len() ==> (#[trigger] places[j]) < ranks.len(),
            out.len() == k,
            forall|j: int| 0 <= j < k ==> out@[j] == rows@[places@[j] as int],
        decreases places.len() - k,
    {
        out.push(rows[places[k]].copy());
        k += 1;
    }
    assert(out@ =~= in_rank_order(rows@, ranks@));
    out
}

} // verus!
