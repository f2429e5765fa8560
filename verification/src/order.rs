//! Stable best-first ordering by integer keys. Every place that sorts a
//! candidate set by a score (the taste pre-rank, model match scores,
//! Bradley–Terry strengths) goes through here: the score is turned into an
//! order-preserving integer key, and ties keep the incoming order.

use vstd::prelude::*;

verus! {

/// `order` lists each index below `n` exactly once.
pub open spec fn is_index_permutation(order: Seq<usize>, n: nat) -> bool {
    &&& order.len() == n
    &&& forall|i: int| 0 <= i < order.len() ==> order[i] < n
    &&& forall|i: int, j: int| 0 <= i < j < order.len() ==> order[i] != order[j]
}

/// Index `a` comes before index `b` in the best-first order: a higher key
/// first, and on equal keys the lower index first.
pub open spec fn ranks_before(keys: Seq<i64>, a: usize, b: usize) -> bool {
    keys[a as int] > keys[b as int] || (keys[a as int] == keys[b as int] && a < b)
}

/// Along `order`, every earlier index ranks before every later one.
pub open spec fn is_best_first(keys: Seq<i64>, order: Seq<usize>) -> bool {
    forall|i: int, j: int|
        0 <= i < j < order.len() ==> #[trigger] ranks_before(keys, order[i], order[j])
}

/// `order` is the full best-first ordering of the indices of `keys`.
pub open spec fn is_best_first_order(keys: Seq<i64>, order: Seq<usize>) -> bool {
    &&& is_index_permutation(order, keys.len())
    &&& is_best_first(keys, order)
}

/// `top` holds distinct indices of `keys` in best-first order, and every
/// index left out ranks after every index kept.
pub open spec fn is_best_first_prefix(keys: Seq<i64>, top: Seq<usize>) -> bool {
    &&& forall|i: int| 0 <= i < top.len() ==> top[i] < keys.len()
    &&& forall|i: int, j: int| 0 <= i < j < top.len() ==> top[i] != top[j]
    &&& is_best_first(keys, top)
    &&& forall|i: int, x: usize|
        0 <= i < top.len() && x < keys.len() && !top.contains(x) ==> #[trigger] ranks_before(
            keys,
            top[i],
            x,
        )
}

/// Orders the indices of `keys` best first: by key descending, ties kept in
/// index order (a stable sort).
pub fn order_desc(keys: &Vec<i64>) -> (order: Vec<usize>)
    ensures
        is_best_first_order(keys@, order@),
{
    let n = keys.len();
    let mut order: Vec<usize> = Vec::new();
    let mut k: usize = 0;
    while k < n
        invariant
            n == keys@.len(),
            k <= n,
            order@.len() == k,
            forall|i: int| 0 <= i < order@.len() ==> order@[i] < k,
            forall|i: int, j: int| 0 <= i < j < order@.len() ==> order@[i] != order@[j],
            is_best_first(keys@, order@),
        decreases n - k,
    {
        let key = keys[k];
        let mut p: usize = 0;
        while p < order.len() && keys[order[p]] >= key
            invariant
                n == keys@.len(),
                k < n,
                key == keys@[k as int],
                p <= order@.len(),
                forall|i: int| 0 <= i < order@.len() ==> order@[i] < k,
                forall|q: int| 0 <= q < p ==> keys@[order@[q] as int] >= key,
            decreases order@.len() - p,
        {
            p = p + 1;
        }
        let ghost old_order = order@;
        proof {
            assert forall|q: int| p <= q < old_order.len() implies keys@[old_order[q] as int]
                < key by {
                if q > p {
                    assert(ranks_before(keys@, old_order[p as int], old_order[q]));
                }
            }
        }
        order.insert(p, k);
        proof {
            assert(order@ == old_order.insert(p as int, k));
            assert forall|i: int, j: int| 0 <= i < j < order@.len() implies #[trigger] ranks_before(
                keys@,
                order@[i],
                order@[j],
            ) by {
                if j < p {
                    assert(ranks_before(keys@, old_order[i], old_order[j]));
                } else if j == p {
                    assert(keys@[old_order[i] as int] >= key);
                } else if i < p {
                    assert(ranks_before(keys@, old_order[i], old_order[j - 1]));
                } else if i == p {
                    assert(keys@[old_order[j - 1] as int] < key);
                } else {
                    assert(ranks_before(keys@, old_order[i - 1], old_order[j - 1]));
                }
            }
        }
        k = k + 1;
    }
    order
}

/// Two full best-first orders of the same keys are the same sequence: the
/// order is determined by the keys alone.
pub proof fn lemma_best_first_order_unique(keys: Seq<i64>, a: Seq<usize>, b: Seq<usize>)
    requires
        is_best_first_order(keys, a),
        is_best_first_order(keys, b),
    ensures
        a == b,
    decreases keys.len(),
{
    // Each index's position is the number of indices that rank before it.
    assert forall|i: int| 0 <= i < a.len() implies a[i] == b[i] by {
        lemma_position_is_rank(keys, a, i);
        lemma_position_is_rank(keys, b, i);
        lemma_rank_count_injective(keys, a[i], b[i], i);
    }
    assert(a =~= b);
}

/// The indices below `n` that rank before `x`.
pub open spec fn before_set(keys: Seq<i64>, x: usize) -> Set<usize> {
    Set::new(|y: usize| y < keys.len() && ranks_before(keys, y, x))
}

proof fn lemma_position_is_rank(keys: Seq<i64>, order: Seq<usize>, i: int)
    requires
        is_best_first_order(keys, order),
        0 <= i < order.len(),
    ensures
        before_set(keys, order[i]).finite(),
        before_set(keys, order[i]).len() == i,
{
    let x = order[i];
    let prefix = order.subrange(0, i);
    assert forall|y: usize| before_set(keys, x).contains(y) <==> prefix.to_set().contains(y) by {
        if before_set(keys, x).contains(y) {
            lemma_permutation_contains(order, keys.len(), y);
            let j = choose|j: int| 0 <= j < order.len() && order[j] == y;
            if j >= i {
                if j > i {
                    assert(ranks_before(keys, order[i], order[j]));
                }
            }
            assert(prefix[j] == y);
        }
        if prefix.to_set().contains(y) {
            let j = choose|j: int| 0 <= j < prefix.len() && prefix[j] == y;
            assert(ranks_before(keys, order[j], order[i]));
        }
    }
    assert(before_set(keys, x) =~= prefix.to_set());
    assert forall|p: int, q: int| 0 <= p < q < prefix.len() implies prefix[p] != prefix[q] by {}
    prefix.unique_seq_to_set();
}

proof fn lemma_permutation_contains(order: Seq<usize>, n: nat, y: usize)
    requires
        is_index_permutation(order, n),
        y < n,
    ensures
        exists|j: int| 0 <= j < order.len() && order[j] == y,
{
    let s = order.to_set();
    order.unique_seq_to_set();
    let m: nat = if n <= usize::MAX as nat + 1 {
        n
    } else {
        usize::MAX as nat + 1
    };
    let full = Set::new(|v: usize| v < n);
    assert(full =~= Set::new(|v: usize| v < m));
    assert(s.subset_of(full));
    lemma_full_index_set(m);
    if !s.contains(y) {
        vstd::set_lib::lemma_len_subset(s, full.remove(y));
        assert(s.subset_of(full.remove(y)));
    }
}

proof fn lemma_full_index_set(n: nat)
    requires
        n <= usize::MAX as nat + 1,
    ensures
        Set::new(|v: usize| v < n).finite(),
        Set::new(|v: usize| v < n).len() == n,
    decreases n,
{
    let full = Set::new(|v: usize| v < n);
    if n == 0 {
        assert(full =~= Set::empty());
    } else {
        let smaller = Set::new(|v: usize| v < (n - 1) as nat);
        lemma_full_index_set((n - 1) as nat);
        assert(full =~= smaller.insert((n - 1) as usize));
    }
}

proof fn lemma_rank_count_injective(keys: Seq<i64>, x: usize, y: usize, i: int)
    requires
        x < keys.len(),
        y < keys.len(),
        before_set(keys, x).finite(),
        before_set(keys, y).finite(),
        before_set(keys, x).len() == i,
        before_set(keys, y).len() == i,
    ensures
        x == y,
{
    if x != y {
        if ranks_before(keys, x, y) {
            lemma_before_strict_subset(keys, x, y);
        } else {
            lemma_before_strict_subset(keys, y, x);
        }
    }
}

proof fn lemma_before_strict_subset(keys: Seq<i64>, x: usize, y: usize)
    requires
        x < keys.len(),
        y < keys.len(),
        ranks_before(keys, x, y),
        before_set(keys, x).finite(),
        before_set(keys, y).finite(),
    ensures
        before_set(keys, x).len() < before_set(keys, y).len(),
{
    let sx = before_set(keys, x);
    let sy = before_set(keys, y);
    assert(sx.subset_of(sy.remove(x)));
    vstd::set_lib::lemma_len_subset(sx, sy.remove(x));
    assert(sy.contains(x));
}

/// With all keys equal the best-first order is the incoming order.
pub proof fn lemma_equal_keys_keep_order(keys: Seq<i64>, order: Seq<usize>)
    requires
        is_best_first_order(keys, order),
        forall|i: int, j: int| 0 <= i < keys.len() && 0 <= j < keys.len() ==> keys[i] == keys[j],
    ensures
        forall|i: int| 0 <= i < order.len() ==> order[i] == i,
{
    let n = keys.len();
    assert forall|i: int, j: int| 0 <= i < j < order.len() implies order[i] < order[j] by {
        assert(ranks_before(keys, order[i], order[j]));
    }
    assert forall|i: int| 0 <= i < order.len() implies order[i] == i by {
        lemma_increasing_lower(order, i);
        lemma_increasing_upper(order, n, i);
    }
}

proof fn lemma_increasing_lower(s: Seq<usize>, i: int)
    requires
        forall|a: int, b: int| 0 <= a < b < s.len() ==> s[a] < s[b],
        0 <= i < s.len(),
    ensures
        s[i] >= i,
    decreases i,
{
    if i > 0 {
        lemma_increasing_lower(s, i - 1);
    }
}

proof fn lemma_increasing_upper(s: Seq<usize>, n: nat, i: int)
    requires
        forall|a: int, b: int| 0 <= a < b < s.len() ==> s[a] < s[b],
        forall|a: int| 0 <= a < s.len() ==> s[a] < n,
        s.len() == n,
        0 <= i < s.len(),
    ensures
        s[i] <= i,
    decreases s.len() - i,
{
    if i + 1 < s.len() {
        lemma_increasing_upper(s, n, i + 1);
    }
}

/// The best `top` indices of `keys`, best first (the whole order when `top`
/// is at least the number of keys).
pub fn best_first_top(keys: &Vec<i64>, top: usize) -> (best: Vec<usize>)
    ensures
        best@.len() == if top < keys@.len() {
            top as nat
        } else {
            keys@.len()
        },
        exists|full: Seq<usize>|
            is_best_first_order(keys@, full) && best@ == full.take(best@.len() as int),
        is_best_first_prefix(keys@, best@),
{
    let mut order = order_desc(keys);
    let ghost full = order@;
    if top < order.len() {
        order.truncate(top);
    }
    proof {
        assert(order@ == full.take(order@.len() as int));
        lemma_prefix_of_order(keys@, full, order@.len() as int);
    }
    order
}

proof fn lemma_prefix_of_order(keys: Seq<i64>, full: Seq<usize>, m: int)
    requires
        is_best_first_order(keys, full),
        0 <= m <= full.len(),
    ensures
        is_best_first_prefix(keys, full.take(m)),
{
    let top = full.take(m);
    assert forall|i: int, x: usize|
        0 <= i < top.len() && x < keys.len() && !top.contains(x) implies #[trigger] ranks_before(
        keys,
        top[i],
        x,
    ) by {
        lemma_permutation_contains(full, keys.len(), x);
        let j = choose|j: int| 0 <= j < full.len() && full[j] == x;
        if j < m {
            assert(top[j] == x);
        }
        assert(ranks_before(keys, full[i], full[j]));
    }
    assert forall|i: int, j: int| 0 <= i < j < top.len() implies #[trigger] ranks_before(
        keys,
        top[i],
        top[j],
    ) by {
        assert(ranks_before(keys, full[i], full[j]));
    }
}

} // verus!
