//! Ranking: the order in which scored or sorted items are shown. An item is ranked by a key of
//! a weight and a label: the greater weight comes first, among equal weights the lesser label,
//! and among equal keys the item that came first.

use crate::text::{
    lemma_lex_asymmetric, lemma_lex_total, lemma_lex_transitive, less_than, lex_less,
};
use vstd::prelude::*;

verus! {

/// The key by which one item is ranked.
pub struct RankKey {
    pub weight: u64,
    pub label: Vec<char>,
}

/// What a [`RankKey`] says.
pub struct RankKeyView {
    pub weight: nat,
    pub label: Seq<char>,
}

impl View for RankKey {
    type V = RankKeyView;

    open spec fn view(&self) -> RankKeyView {
        RankKeyView { weight: self.weight as nat, label: self.label@ }
    }
}

/// What a list of keys says.
pub open spec fn key_views(v: Seq<RankKey>) -> Seq<RankKeyView> {
    v.map_values(|k: RankKey| k@)
}

/// The positions that a list of indices holds.
pub open spec fn positions(v: Seq<usize>) -> Seq<int> {
    v.map_values(|i: usize| i as int)
}

/// Whether the key `a` comes strictly before the key `b`.
pub open spec fn outranks(a: RankKeyView, b: RankKeyView) -> bool {
    a.weight > b.weight || (a.weight == b.weight && lex_less(a.label, b.label))
}

/// Where a new key goes into an order: before the first item that it outranks, and at the
/// end where it outranks none.
pub open spec fn insertion_point(order: Seq<int>, keys: Seq<RankKeyView>, k: RankKeyView) -> int
    decreases order.len(),
{
    if order.len() == 0 {
        0
    } else if outranks(k, keys[order[0]]) {
        0
    } else {
        1 + insertion_point(order.drop_first(), keys, k)
    }
}

/// The order of the first `n` items: their indices, each put in its place in turn.
pub open spec fn ranking(keys: Seq<RankKeyView>, n: nat) -> Seq<int>
    decreases n,
{
    if n == 0 {
        Seq::empty()
    } else {
        let before = ranking(keys, (n - 1) as nat);
        before.insert(insertion_point(before, keys, keys[n - 1]), n - 1)
    }
}

/// The order of all items: the indices into `keys`, the first-ranked first.
pub open spec fn ranked(keys: Seq<RankKeyView>) -> Seq<int> {
    ranking(keys, keys.len())
}

/// The items of `items` in the order that `order` gives.
pub open spec fn arranged<T>(items: Seq<T>, order: Seq<int>) -> Seq<T> {
    order.map_values(|i: int| items[i])
}

/// Whether `order` holds each index below `n` exactly once.
pub open spec fn is_arrangement(order: Seq<int>, n: nat) -> bool {
    &&& order.len() == n
    &&& forall|i: int| 0 <= i < order.len() ==> 0 <= #[trigger] order[i] < n
    &&& forall|i: int, j: int| 0 <= i < j < order.len() ==> order[i] != order[j]
}

/// Whether the item at index `i` may stand before the item at index `j`: its key comes
/// before the other's, or the keys rank alike and it came first.
pub open spec fn ranks_before(keys: Seq<RankKeyView>, i: int, j: int) -> bool {
    outranks(keys[i], keys[j]) || (!outranks(keys[j], keys[i]) && i < j)
}

/// Whether each item of `order` may stand before every item behind it.
pub open spec fn in_rank_order(order: Seq<int>, keys: Seq<RankKeyView>) -> bool {
    forall|a: int, b: int|
        0 <= a < b < order.len() ==> ranks_before(keys, #[trigger] order[a], #[trigger] order[b])
}

/// Of two keys at most one comes before the other.
pub proof fn lemma_outranks_asymmetric(a: RankKeyView, b: RankKeyView)
    requires
        outranks(a, b),
    ensures
        !outranks(b, a),
{
    if a.weight == b.weight {
        lemma_lex_asymmetric(a.label, b.label);
    }
}

/// A key that comes before none of two keys between which it stands leaves them in order:
/// what does not come before is transitive.
pub proof fn lemma_not_outranks_transitive(a: RankKeyView, b: RankKeyView, c: RankKeyView)
    requires
        !outranks(a, b),
        !outranks(b, c),
    ensures
        !outranks(a, c),
{
    if a.weight == c.weight && lex_less(a.label, c.label) {
        assert(a.weight == b.weight);
        if lex_less(b.label, a.label) {
            lemma_lex_transitive(b.label, a.label, c.label);
        } else {
            lemma_lex_total(a.label, b.label);
        }
    }
}

/// The insertion point lies behind every item that the key does not come before, and at an
/// item that it comes before, or at the end.
pub proof fn lemma_insertion_point(order: Seq<int>, keys: Seq<RankKeyView>, k: RankKeyView)
    ensures
        0 <= insertion_point(order, keys, k) <= order.len(),
        forall|q: int|
            0 <= q < insertion_point(order, keys, k) ==> !outranks(k, keys[#[trigger] order[q]]),
        insertion_point(order, keys, k) < order.len() ==> outranks(
            k,
            keys[order[insertion_point(order, keys, k)]],
        ),
    decreases order.len(),
{
    if order.len() > 0 && !outranks(k, keys[order[0]]) {
        let rest = order.drop_first();
        lemma_insertion_point(rest, keys, k);
        let p = insertion_point(rest, keys, k);
        assert forall|q: int| 0 <= q < p + 1 implies !outranks(k, keys[#[trigger] order[q]]) by {
            if q > 0 {
                assert(order[q] == rest[q - 1]);
            }
        }
        if p < rest.len() {
            assert(order[p + 1] == rest[p]);
        }
    }
}

/// The order of the first `n` items holds each of their indices once, and each item in it
/// may stand before every item behind it: the greater weight first, among equal weights the
/// lesser label, among equal keys the item that came first.
pub proof fn lemma_ranking(keys: Seq<RankKeyView>, n: nat)
    requires
        n <= keys.len(),
    ensures
        is_arrangement(ranking(keys, n), n),
        in_rank_order(ranking(keys, n), keys),
    decreases n,
{
    if n > 0 {
        let before = ranking(keys, (n - 1) as nat);
        lemma_ranking(keys, (n - 1) as nat);
        let k = keys[n - 1];
        let p = insertion_point(before, keys, k);
        lemma_insertion_point(before, keys, k);
        let now = before.insert(p, n - 1);
        before.insert_ensures(p, n - 1);
        assert(now == ranking(keys, n));
        assert forall|i: int| 0 <= i < now.len() implies 0 <= #[trigger] now[i] < n by {
            if i < p {
                assert(now[i] == before[i]);
            } else if i > p {
                assert(now[i] == before[i - 1]);
            }
        }
        assert forall|i: int, j: int| 0 <= i < j < now.len() implies now[i] != now[j] by {
            let x = if i < p {
                before[i]
            } else if i == p {
                n - 1
            } else {
                before[i - 1]
            };
            let y = if j < p {
                before[j]
            } else if j == p {
                n - 1
            } else {
                before[j - 1]
            };
            assert(now[i] == x && now[j] == y);
        }
        assert forall|a: int, b: int| 0 <= a < b < now.len() implies ranks_before(
            keys,
            #[trigger] now[a],
            #[trigger] now[b],
        ) by {
            if b < p {
                assert(now[a] == before[a] && now[b] == before[b]);
            } else if b == p {
                assert(now[a] == before[a]);
                assert(now[b] == n - 1);
                assert(!outranks(k, keys[before[a]]));
            } else if a == p {
                assert(now[a] == n - 1);
                assert(now[b] == before[b - 1]);
                let z = keys[before[b - 1]];
                let y = keys[before[p]];
                assert(outranks(k, y));
                if b - 1 > p {
                    assert(ranks_before(keys, before[p], before[b - 1]));
                    if outranks(z, y) {
                        lemma_outranks_asymmetric(z, y);
                    }
                    assert(!outranks(z, y));
                    if !outranks(k, z) {
                        lemma_not_outranks_transitive(k, z, y);
                    }
                }
                assert(outranks(k, z));
            } else if a > p {
                assert(now[a] == before[a - 1] && now[b] == before[b - 1]);
            } else {
                assert(now[a] == before[a] && now[b] == before[b - 1]);
            }
        }
    }
}

/// The order of all items is an arrangement of their indices in rank order.
pub proof fn lemma_ranked(keys: Seq<RankKeyView>)
    ensures
        is_arrangement(ranked(keys), keys.len()),
        in_rank_order(ranked(keys), keys),
{
    lemma_ranking(keys, keys.len());
}

/// Whether `a` comes strictly before `b`.
pub fn key_outranks(a: &RankKey, b: &RankKey) -> (r: bool)
    ensures
        r == outranks(a@, b@),
{
    if a.weight > b.weight {
        true
    } else if a.weight < b.weight {
        false
    } else {
        less_than(&a.label, &b.label)
    }
}

/// The order of the items with these keys.
pub fn rank(keys: &Vec<RankKey>) -> (order: Vec<usize>)
    ensures
        positions(order@) == ranked(key_views(keys@)),
        order.len() == keys.len(),
        forall|j: int| 0 <= j < order.len() ==> order@[j] < keys.len(),
{
    let mut order: Vec<usize> = Vec::new();
    let mut n: usize = 0;
    let ghost kv = key_views(keys@);
    assert(positions(order@) =~= ranking(kv, 0));
    while n < keys.len()
        invariant
            n <= keys.len(),
            order.len() == n,
            kv == key_views(keys@),
            positions(order@) == ranking(kv, n as nat),
            forall|j: int| 0 <= j < order.len() ==> order@[j] < n,
        decreases keys.len() - n,
    {
        let mut p: usize = 0;
        let ghost ord = positions(order@);
        assert(ord.skip(0) =~= ord);
        while p < order.len() && !key_outranks(&keys[n], &keys[order[p]])
            invariant
                p <= order.len(),
                n < keys.len(),
                kv == key_views(keys@),
                ord == positions(order@),
                forall|j: int| 0 <= j < order.len() ==> order@[j] < n,
                insertion_point(ord, kv, kv[n as int]) == p + insertion_point(
                    ord.skip(p as int),
                    kv,
                    kv[n as int],
                ),
            decreases order.len() - p,
        {
            assert(ord.skip(p as int).drop_first() =~= ord.skip(p + 1));
            assert(ord.skip(p as int)[0] == order@[p as int]);
            p += 1;
        }
        proof {
            if p < order.len() {
                assert(ord.skip(p as int)[0] == order@[p as int]);
            }
            assert(insertion_point(ord, kv, kv[n as int]) == p);
        }
        order.insert(p, n);
        assert(positions(order@) =~= ord.insert(p as int, n as int));
        n += 1;
    }
    order
}

} // verus!
