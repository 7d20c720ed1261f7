//! The order of a ranking: best score first, absent scores last, equal
//! scores in the order in which they came.

use crate::models::racecard::opt_i64;
use vstd::prelude::*;

verus! {

/// The score `a` ranks strictly before the score `b`: it is greater, or it
/// is there and `b` is not.
pub open spec fn outranks(a: Option<int>, b: Option<int>) -> bool {
    match (a, b) {
        (Some(x), Some(y)) => x > y,
        (Some(_), None) => true,
        _ => false,
    }
}

/// Where a new score goes in an order: before the first position whose
/// score it outranks, else at the end.
pub open spec fn insert_position(keys: Seq<Option<int>>, order: Seq<int>, key: Option<int>) -> int
    decreases order.len(),
{
    if order.len() == 0 || outranks(key, keys[order[0]]) {
        0
    } else {
        1 + insert_position(keys, order.drop_first(), key)
    }
}

/// The order of the first `n` scores: each score in turn is put where it
/// goes among those before it.
pub open spec fn rank_order_of(keys: Seq<Option<int>>, n: int) -> Seq<int>
    decreases n,
{
    if n <= 0 {
        Seq::empty()
    } else {
        let before = rank_order_of(keys, n - 1);
        before.insert(insert_position(keys, before, keys[n - 1]), n - 1)
    }
}

/// The order of scores: the positions of the scores, best score first.
pub open spec fn rank_order(keys: Seq<Option<int>>) -> Seq<int> {
    rank_order_of(keys, keys.len() as int)
}

/// `order` lists each of the first `n` positions once, no score outranks one
/// listed before it, and of two scores of which neither outranks the other
/// the earlier position is listed first.
pub open spec fn is_ranking(keys: Seq<Option<int>>, order: Seq<int>, n: int) -> bool {
    &&& order.len() == n
    &&& forall|p: int| 0 <= p < order.len() ==> 0 <= #[trigger] order[p] < n
    &&& forall|p: int, q: int|
        #![trigger order[p], order[q]]
        0 <= p < q < order.len() ==> order[p] != order[q]
    &&& forall|p: int, q: int|
        #![trigger order[p], order[q]]
        0 <= p < q < order.len() ==> !outranks(keys[order[q]], keys[order[p]])
    &&& forall|p: int, q: int|
        #![trigger order[p], order[q]]
        0 <= p < q < order.len() && !outranks(keys[order[p]], keys[order[q]]) ==> order[p]
            < order[q]
}

/// A new score goes behind every score that it does not outrank and before
/// one that it does.
pub proof fn lemma_insert_position(keys: Seq<Option<int>>, order: Seq<int>, key: Option<int>)
    ensures
        0 <= insert_position(keys, order, key) <= order.len(),
        forall|p: int|
            0 <= p < insert_position(keys, order, key) ==> !outranks(key, keys[#[trigger] order[p]]),
        insert_position(keys, order, key) < order.len() ==> outranks(
            key,
            keys[order[insert_position(keys, order, key)]],
        ),
    decreases order.len(),
{
    if order.len() > 0 && !outranks(key, keys[order[0]]) {
        let rest = order.drop_first();
        lemma_insert_position(keys, rest, key);
        let pos = insert_position(keys, order, key);
        assert forall|p: int| 0 <= p < pos implies !outranks(key, keys[#[trigger] order[p]]) by {
            if p > 0 {
                assert(order[p] == rest[p - 1]);
            }
        }
        if pos < order.len() {
            assert(order[pos] == rest[pos - 1]);
        }
    }
}

/// The order of scores is a ranking.
pub proof fn lemma_rank_order_is_ranking(keys: Seq<Option<int>>, n: int)
    requires
        0 <= n <= keys.len(),
    ensures
        is_ranking(keys, rank_order_of(keys, n), n),
    decreases n,
{
    if n > 0 {
        lemma_rank_order_is_ranking(keys, n - 1);
        let before = rank_order_of(keys, n - 1);
        let key = keys[n - 1];
        let pos = insert_position(keys, before, key);
        lemma_insert_position(keys, before, key);
        let order = rank_order_of(keys, n);
        assert(order == before.insert(pos, n - 1));
        assert forall|p: int| 0 <= p < order.len() implies 0 <= #[trigger] order[p] < n by {
            if p < pos {
                assert(order[p] == before[p]);
            } else if p > pos {
                assert(order[p] == before[p - 1]);
            }
        }
        assert forall|p: int, q: int|
            #![trigger order[p], order[q]]
            0 <= p < q < order.len() implies order[p] != order[q] && !outranks(
            keys[order[q]],
            keys[order[p]],
        ) && (!outranks(keys[order[p]], keys[order[q]]) ==> order[p] < order[q]) by {
            let bp = if p < pos {
                p
            } else {
                p - 1
            };
            let bq = if q < pos {
                q
            } else {
                q - 1
            };
            if p != pos {
                assert(order[p] == before[bp]);
            }
            if q != pos {
                assert(order[q] == before[bq]);
            }
            if p == pos {
                assert(outranks(key, keys[before[pos]]));
                if bq > pos {
                    assert(!outranks(keys[before[bq]], keys[before[pos]]));
                }
            } else if q == pos {
                assert(!outranks(key, keys[before[bp]]));
            } else {
                assert(bp < bq);
            }
        }
    }
}

/// Scores as mathematical integers.
pub open spec fn key_values(keys: Seq<Option<i64>>) -> Seq<Option<int>> {
    Seq::new(keys.len(), |i: int| opt_i64(keys[i]))
}

/// Positions as mathematical integers.
pub open spec fn positions(order: Seq<usize>) -> Seq<int> {
    Seq::new(order.len(), |i: int| order[i] as int)
}

/// Whether one score ranks strictly before another.
pub fn ranks_before(a: Option<i64>, b: Option<i64>) -> (r: bool)
    ensures
        r == outranks(opt_i64(a), opt_i64(b)),
{
    match (a, b) {
        (Some(x), Some(y)) => x > y,
        (Some(_), None) => true,
        _ => false,
    }
}

/// Orders scores: the positions of the scores, best score first, absent
/// scores last, equal scores in the order in which they stand.
pub fn order_by_score(keys: &Vec<Option<i64>>) -> (r: Vec<usize>)
    ensures
        positions(r@) == rank_order(key_values(keys@)),
        r@.len() == keys@.len(),
        forall|p: int| 0 <= p < r@.len() ==> #[trigger] r@[p] < keys@.len(),
{
    let ghost kv = key_values(keys@);
    let n: usize = keys.len();
    let mut order: Vec<usize> = Vec::new();
    let mut i: usize = 0;
    assert(positions(order@) =~= rank_order_of(kv, 0));
    while i < n
        invariant
            i <= n,
            n == keys@.len(),
            kv == key_values(keys@),
            positions(order@) == rank_order_of(kv, i as int),
            order@.len() == i,
            forall|p: int| 0 <= p < order@.len() ==> #[trigger] order@[p] < i,
        decreases n - i,
    {
        let key = keys[i];
        let ghost before = positions(order@);
        let mut p: usize = 0;
        assert(before.skip(0) =~= before);
        while p < order.len() && !ranks_before(key, keys[order[p]])
            invariant
                p <= order@.len(),
                i < n,
                n == keys@.len(),
                kv == key_values(keys@),
                before == positions(order@),
                key == keys@[i as int],
                forall|q: int| 0 <= q < order@.len() ==> #[trigger] order@[q] < i,
                insert_position(kv, before, opt_i64(key)) == p + insert_position(
                    kv,
                    before.skip(p as int),
                    opt_i64(key),
                ),
            decreases order@.len() - p,
        {
            proof {
                let rest = before.skip(p as int);
                assert(rest[0] == order@[p as int] as int);
                assert(kv[rest[0]] == opt_i64(keys@[order@[p as int] as int]));
                assert(rest.drop_first() =~= before.skip(p + 1));
            }
            p += 1;
        }
        proof {
            let rest = before.skip(p as int);
            if p < order@.len() {
                assert(rest[0] == order@[p as int] as int);
                assert(kv[rest[0]] == opt_i64(keys@[order@[p as int] as int]));
            }
            assert(insert_position(kv, rest, opt_i64(key)) == 0);
            assert(kv[i as int] == opt_i64(key));
        }
        order.insert(p, i);
        assert(positions(order@) =~= before.insert(p as int, i as int));
        i += 1;
    }
    order
}

} // verus!
