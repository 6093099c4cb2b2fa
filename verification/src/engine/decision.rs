use vstd::prelude::*;

use crate::errors::AppError;

verus! {

/// In a ranking by score, candidate `a` comes before candidate `b`: it has
/// the higher score, or the same score and the lower position (a stable
/// sort by descending score).
pub open spec fn ranks_before(scores: Seq<i64>, a: int, b: int) -> bool {
    scores[a] > scores[b] || (scores[a] == scores[b] && a < b)
}

/// `order` lists positions of `scores`, each valid, in strict ranking order.
pub open spec fn strictly_ranked(scores: Seq<i64>, order: Seq<usize>) -> bool {
    &&& forall|i: int| 0 <= i < order.len() ==> #[trigger] order[i] < scores.len()
    &&& forall|i: int, j: int|
        0 <= i < j < order.len() ==> ranks_before(scores, #[trigger] order[i] as int, #[trigger] order[j] as int)
}

/// `order` is the ranking of all candidates: every position exactly once,
/// best first, ties kept in the order of the list.
pub open spec fn is_ranking(scores: Seq<i64>, order: Seq<usize>) -> bool {
    &&& order.len() == scores.len()
    &&& strictly_ranked(scores, order)
    &&& forall|k: usize| k < scores.len() ==> #[trigger] order.contains(k)
}

/// `top` holds the first `count` entries of the ranking of `scores`: the
/// `count` best candidates in ranking order, every other candidate ranked
/// after all of them.
pub open spec fn is_top_of_ranking(scores: Seq<i64>, top: Seq<usize>, count: nat) -> bool {
    &&& top.len() == count
    &&& strictly_ranked(scores, top)
    &&& forall|k: usize, i: int|
        #![trigger top.contains(k), top[i]]
        k < scores.len() && !top.contains(k) && 0 <= i < top.len() ==> ranks_before(
            scores,
            top[i] as int,
            k as int,
        )
}

/// There is only one ranking of a list of scores: two orders that both rank
/// every candidate best first, ties in the order of the list, are the same.
pub proof fn lemma_ranking_is_unique(scores: Seq<i64>, a: Seq<usize>, b: Seq<usize>)
    requires
        is_ranking(scores, a),
        is_ranking(scores, b),
    ensures
        a == b,
{
    lemma_orders_agree_before(scores, a, b, a.len() as int);
    assert(a =~= b);
}

/// Two rankings agree on every position before `p`.
proof fn lemma_orders_agree_before(scores: Seq<i64>, a: Seq<usize>, b: Seq<usize>, p: int)
    requires
        is_ranking(scores, a),
        is_ranking(scores, b),
        0 <= p <= a.len(),
    ensures
        forall|i: int| 0 <= i < p ==> a[i] == b[i],
    decreases p,
{
    if p > 0 {
        lemma_orders_agree_before(scores, a, b, p - 1);
        let i = p - 1;
        if a[i] != b[i] {
            let x = a[i];
            let y = b[i];
            assert(a.contains(y));
            let q = choose|q: int| 0 <= q < a.len() && a[q] == y;
            assert(b.contains(x));
            let r = choose|r: int| 0 <= r < b.len() && b[r] == x;
            if q < i {
                assert(b[q] == y);
                assert(ranks_before(scores, b[q] as int, b[i] as int));
            } else if r < i {
                assert(a[r] == x);
                assert(ranks_before(scores, a[r] as int, a[i] as int));
            } else {
                assert(ranks_before(scores, a[i] as int, a[q] as int));
                assert(ranks_before(scores, b[i] as int, b[r] as int));
            }
        }
    }
}

/// Position of the first stat whose id is `target`, if any.
pub fn find_stat_index(stat_ids: &Vec<String>, target: &String) -> (r: Option<usize>)
    ensures
        match r {
            Some(i) => {
                &&& i < stat_ids.len()
                &&& stat_ids@[i as int]@ == target@
                &&& forall|j: int| 0 <= j < i ==> stat_ids@[j]@ != target@
            },
            None => forall|j: int| 0 <= j < stat_ids.len() ==> stat_ids@[j]@ != target@,
        },
{
    let n = stat_ids.len();
    let mut i: usize = 0;
    while i < n
        invariant
            n == stat_ids.len(),
            i <= n,
            forall|j: int| 0 <= j < i ==> stat_ids@[j]@ != target@,
        decreases n - i,
    {
        if stat_ids[i] == *target {
            return Some(i);
        }
        i = i + 1;
    }
    None
}

/// Ranks candidates by descending score; candidates with equal scores keep
/// their order in the list. Returns the positions of the candidates, best first.
pub fn rank_by_score(scores: &Vec<i64>) -> (order: Vec<usize>)
    ensures
        is_ranking(scores@, order@),
{
    let n = scores.len();
    let mut order: Vec<usize> = Vec::new();
    let mut i: usize = 0;
    while i < n
        invariant
            n == scores.len(),
            i <= n,
            order.len() == i,
            strictly_ranked(scores@, order@),
            forall|p: int| 0 <= p < order.len() ==> #[trigger] order@[p] < i,
            forall|k: usize| k < i ==> #[trigger] order@.contains(k),
        decreases n - i,
    {
        let mut j: usize = 0;
        while j < order.len() && scores[order[j]] >= scores[i]
            invariant
                n == scores.len(),
                i < n,
                j <= order.len(),
                strictly_ranked(scores@, order@),
                forall|p: int| 0 <= p < order.len() ==> #[trigger] order@[p] < i,
                forall|p: int| 0 <= p < j ==> scores@[#[trigger] order@[p] as int] >= scores@[i as int],
            decreases order.len() - j,
        {
            j = j + 1;
        }
        let ghost old_order = order@;
        order.insert(j, i);
        proof {
            assert(order@ == old_order.insert(j as int, i));
            assert forall|p: int| 0 <= p < order.len() implies #[trigger] order@[p] < i + 1 by {
                if p < j {
                    assert(order@[p] == old_order[p]);
                } else if p > j {
                    assert(order@[p] == old_order[p - 1]);
                }
            }
            assert forall|p: int, q: int| 0 <= p < q < order.len() implies ranks_before(
                scores@,
                #[trigger] order@[p] as int,
                #[trigger] order@[q] as int,
            ) by {
                if q < j {
                    assert(order@[p] == old_order[p] && order@[q] == old_order[q]);
                } else if q == j {
                    assert(order@[p] == old_order[p]);
                    assert(old_order[p] < i);
                } else if p < j {
                    assert(order@[p] == old_order[p] && order@[q] == old_order[q - 1]);
                } else if p == j {
                    assert(order@[q] == old_order[q - 1]);
                    assert(scores@[old_order[j as int] as int] < scores@[i as int]);
                    if q - 1 > j {
                        assert(ranks_before(scores@, old_order[j as int] as int, old_order[q - 1] as int));
                    }
                } else {
                    assert(order@[p] == old_order[p - 1] && order@[q] == old_order[q - 1]);
                }
            }
            assert forall|k: usize| k < i + 1 implies #[trigger] order@.contains(k) by {
                if k == i {
                    assert(order@[j as int] == i);
                } else {
                    assert(old_order.contains(k));
                    let p = choose|p: int| 0 <= p < old_order.len() && old_order[p] == k;
                    if p < j {
                        assert(order@[p] == old_order[p]);
                    } else {
                        assert(order@[p + 1] == old_order[p]);
                    }
                }
            }
        }
        i = i + 1;
    }
    order
}

/// Most alternatives that a recommendation lists besides the recommended rune.
pub const MAX_ALTERNATIVES: usize = 5;

/// The runes picked out of a list of candidates, by position in that list.
pub struct RuneSelection {
    /// The recommended rune.
    pub best: usize,
    /// The next best runes, best first.
    pub alternatives: Vec<usize>,
}

/// Number of runes a selection among `n` candidates holds: the recommended
/// one and up to five alternatives.
pub open spec fn selection_size(n: nat) -> nat {
    if n < MAX_ALTERNATIVES + 1 { n } else { (MAX_ALTERNATIVES + 1) as nat }
}

/// Picks the recommended rune and up to five alternatives among candidates
/// with the given scores: the candidates ranked by descending score (ties in
/// their order in the list), the first recommended, the next five as
/// alternatives. Fails with a calculation error when there is no candidate.
pub fn select_recommendation(scores: &Vec<i64>) -> (r: Result<RuneSelection, AppError>)
    ensures
        scores.len() == 0 <==> r is Err,
        r matches Err(e) ==> e matches AppError::Calculation(m) && m@
            == "Aucune rune disponible pour évaluation."@,
        r matches Ok(sel) ==> {
            &&& is_top_of_ranking(
                scores@,
                seq![sel.best].add(sel.alternatives@),
                selection_size(scores.len() as nat),
            )
            &&& sel.best < scores.len()
            &&& forall|k: int| 0 <= k < scores.len() ==> scores@[sel.best as int] >= #[trigger] scores@[k]
            &&& sel.alternatives.len() <= MAX_ALTERNATIVES
            &&& sel.alternatives.len() == if scores.len() - 1 < 5 { scores.len() - 1 } else { 5 }
            &&& !sel.alternatives@.contains(sel.best)
        },
{
    if scores.len() == 0 {
        return Err(AppError::Calculation(String::from_str("Aucune rune disponible pour évaluation.")));
    }
    let order = rank_by_score(scores);
    let n = order.len();
    let m: usize = if n < MAX_ALTERNATIVES + 1 { n } else { MAX_ALTERNATIVES + 1 };
    let best = order[0];
    let mut alternatives: Vec<usize> = Vec::new();
    let mut i: usize = 1;
    while i < m
        invariant
            n == order.len(),
            1 <= i <= m <= n,
            best == order@[0],
            alternatives@ == order@.subrange(1, i as int),
        decreases m - i,
    {
        alternatives.push(order[i]);
        i = i + 1;
    }
    proof {
        let top = seq![best].add(alternatives@);
        assert(top =~= order@.take(m as int));
        assert forall|k: usize, j: int|
            #![trigger top.contains(k), top[j]]
            k < scores.len() && !top.contains(k) && 0 <= j < top.len() implies ranks_before(
            scores@,
            top[j] as int,
            k as int,
        ) by {
            assert(order@.contains(k));
            let p = choose|p: int| 0 <= p < order@.len() && order@[p] == k;
            if p < m {
                assert(top[p] == k);
            }
            assert(top[j] == order@[j]);
        }
        assert forall|k: int| 0 <= k < scores.len() implies scores@[best as int] >= #[trigger] scores@[k] by {
            assert(order@.contains(k as usize));
            let p = choose|p: int| 0 <= p < order@.len() && order@[p] == k as usize;
            if p > 0 {
                assert(ranks_before(scores@, order@[0] as int, order@[p] as int));
            }
        }
        if alternatives@.contains(best) {
            let p = choose|p: int| 0 <= p < alternatives@.len() && alternatives@[p] == best;
            assert(ranks_before(scores@, order@[0] as int, order@[p + 1] as int));
        }
    }
    proof {
        lemma_selection_lists_next_five(scores@, seq![best].add(alternatives@));
    }
    Ok(RuneSelection { best, alternatives })
}

/// A selection among `n > 0` candidates lists the recommended rune and
/// `min(n - 1, 5)` alternatives: every candidate but the best when there are
/// at most six, five otherwise.
pub proof fn lemma_selection_lists_next_five(scores: Seq<i64>, top: Seq<usize>)
    requires
        scores.len() > 0,
        is_top_of_ranking(scores, top, selection_size(scores.len())),
    ensures
        top.len() >= 1,
        top.len() - 1 == if scores.len() - 1 < 5 { scores.len() - 1 } else { 5 },
{
}

} // verus!
