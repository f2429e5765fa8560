//! Pairwise ranking bookkeeping: the schedule of unique comparisons over a
//! small refinement set, and the tally of their outcomes into a win matrix
//! for Bradley–Terry. Wins are counted in half-games, so a tie gives each
//! side one half and every tally is exact.

use vstd::prelude::*;

verus! {

/// The number of pairs `(a, b)` with `a < i` and `a < b < n`: where row `i`
/// of the comparison schedule starts.
pub open spec fn pair_offset(n: nat, i: nat) -> nat
    decreases i,
{
    if i == 0 || i > n {
        0
    } else {
        pair_offset(n, (i - 1) as nat) + (n - i) as nat
    }
}

/// The number of unique pairs among `n` items.
pub open spec fn pair_count(n: nat) -> nat {
    pair_offset(n, n)
}

/// The position of pair `(i, j)`, `i < j < n`, in the comparison schedule.
pub open spec fn pair_index(n: nat, i: nat, j: nat) -> nat {
    pair_offset(n, i) + (j - i - 1) as nat
}

/// Row offsets grow by the length of the row before.
pub proof fn lemma_pair_offset_step(n: nat, i: nat)
    requires
        i < n,
    ensures
        pair_offset(n, i + 1) == pair_offset(n, i) + (n - i - 1) as nat,
{
}

/// Later rows start no earlier.
pub proof fn lemma_pair_offset_monotone(n: nat, i: nat, k: nat)
    requires
        i <= k <= n,
    ensures
        pair_offset(n, i) <= pair_offset(n, k),
    decreases k - i,
{
    if i < k {
        lemma_pair_offset_monotone(n, i, (k - 1) as nat);
    }
}

/// Every pair's position lies inside the schedule.
pub proof fn lemma_pair_index_bound(n: nat, i: nat, j: nat)
    requires
        i < j < n,
    ensures
        pair_index(n, i, j) < pair_offset(n, i + 1) <= pair_count(n),
{
    lemma_pair_offset_step(n, i);
    lemma_pair_offset_monotone(n, i + 1, n);
}

/// All-pairs comparison over `n` items takes n(n-1)/2 model calls.
pub proof fn lemma_pair_count(n: nat)
    ensures
        2 * pair_count(n) == n * (n - 1),
{
    lemma_pair_offset_closed(n, n);
}

proof fn lemma_pair_offset_closed(n: nat, i: nat)
    requires
        i <= n,
    ensures
        2 * pair_offset(n, i) == i * (2 * n - i - 1),
    decreases i,
{
    if i > 0 {
        let k = (i - 1) as nat;
        lemma_pair_offset_closed(n, k);
        assert(pair_offset(n, i) == pair_offset(n, k) + (n - i));
        assert(2 * pair_offset(n, k) == k * (2 * n - k - 1));
        assert(k * (2 * n - k - 1) + 2 * (n - i) == i * (2 * n - i - 1)) by (nonlinear_arith)
            requires
                k + 1 == i,
                i <= n,
        ;
    } else {
        assert(i * (2 * n - i - 1) == 0) by (nonlinear_arith)
            requires
                i == 0,
        ;
    }
}

/// The schedule runs in lexicographic order: pair `(i, j)` comes before pair
/// `(k, l)` exactly when `i < k`, or `i == k` and `j < l`; the first pair is
/// `(0, 1)` at position 0.
pub proof fn lemma_pair_index_lexicographic(n: nat, i: nat, j: nat, k: nat, l: nat)
    requires
        i < j < n,
        k < l < n,
    ensures
        pair_index(n, i, j) < pair_index(n, k, l) <==> (i < k || (i == k && j < l)),
        pair_index(n, i, j) == pair_index(n, k, l) <==> (i == k && j == l),
        pair_index(n, 0, 1) == 0,
{
    if i < k {
        lemma_pair_index_bound(n, i, j);
        lemma_pair_offset_monotone(n, i + 1, k);
    } else if k < i {
        lemma_pair_index_bound(n, k, l);
        lemma_pair_offset_monotone(n, k + 1, i);
    }
}

/// Lists every pair `(i, j)` with `i < j < n` once, row by row: pair
/// `(i, j)` stands at position `pair_index(n, i, j)`.
pub fn comparison_pairs(n: usize) -> (pairs: Vec<(usize, usize)>)
    ensures
        pairs@.len() == pair_count(n as nat),
        forall|i: usize, j: usize|
            i < j < n ==> #[trigger] pairs@[pair_index(n as nat, i as nat, j as nat) as int] == (
            i,
            j,
        ),
{
    let mut pairs: Vec<(usize, usize)> = Vec::new();
    let mut i: usize = 0;
    while i < n
        invariant
            i <= n,
            pairs@.len() == pair_offset(n as nat, i as nat),
            forall|a: usize, b: usize|
                a < i && a < b < n ==> #[trigger] pairs@[pair_index(
                    n as nat,
                    a as nat,
                    b as nat,
                ) as int] == (a, b),
        decreases n - i,
    {
        let ghost start = pairs@.len();
        let mut j: usize = i + 1;
        while j < n
            invariant
                i < n,
                i < j <= n,
                start == pair_offset(n as nat, i as nat),
                pairs@.len() == start + (j - i - 1),
                forall|a: usize, b: usize|
                    a < i && a < b < n ==> #[trigger] pairs@[pair_index(
                        n as nat,
                        a as nat,
                        b as nat,
                    ) as int] == (a, b),
                forall|b: usize|
                    i < b < j ==> #[trigger] pairs@[pair_index(n as nat, i as nat, b as nat) as int]
                        == (i, b),
            decreases n - j,
        {
            proof {
                assert forall|a: usize, b: usize| a < i && a < b < n implies pair_index(
                    n as nat,
                    a as nat,
                    b as nat,
                ) < start by {
                    lemma_pair_index_bound(n as nat, a as nat, b as nat);
                    lemma_pair_offset_monotone(n as nat, (a + 1) as nat, i as nat);
                }
            }
            pairs.push((i, j));
            j = j + 1;
        }
        proof {
            lemma_pair_offset_step(n as nat, i as nat);
        }
        i = i + 1;
    }
    pairs
}

/// How the first role of a compared pair fared against the second (the
/// three cases of a comparison).
#[derive(Debug, Clone, Copy, PartialEq, Eq, Structural)]
pub enum Verdict {
    /// The second role fits better.
    Less,
    /// Neither fits better.
    Equal,
    /// The first role fits better.
    Greater,
}

/// Half-games credited to the first item of a compared pair.
pub open spec fn first_credit(outcome: Verdict) -> u64 {
    match outcome {
        Verdict::Greater => 2,
        Verdict::Equal => 1,
        Verdict::Less => 0,
    }
}

/// Half-games credited to the second item of a compared pair.
pub open spec fn second_credit(outcome: Verdict) -> u64 {
    match outcome {
        Verdict::Greater => 0,
        Verdict::Equal => 1,
        Verdict::Less => 2,
    }
}

fn credit(outcome: &Verdict, first: bool) -> (c: u64)
    ensures
        c == if first {
            first_credit(*outcome)
        } else {
            second_credit(*outcome)
        },
{
    match outcome {
        Verdict::Greater => if first {
            2
        } else {
            0
        },
        Verdict::Equal => 1,
        Verdict::Less => if first {
            0
        } else {
            2
        },
    }
}

/// The win matrix, in half-games, of `n` items from the outcomes of the
/// comparison schedule: `outcomes[pair_index(n, i, j)]` says how `i` fared
/// against `j` (`Greater`: `i` won, `Less`: `j` won, `Equal`: a tie split in
/// two). An item never plays itself, and each pair plays exactly one game:
/// the half-games two items won against each other add up to two.
pub fn tally_wins(n: usize, outcomes: &Vec<Verdict>) -> (wins: Vec<Vec<u64>>)
    requires
        outcomes@.len() == pair_count(n as nat),
    ensures
        wins@.len() == n,
        forall|i: int| 0 <= i < n ==> (#[trigger] wins@[i])@.len() == n,
        forall|i: int| 0 <= i < n ==> (#[trigger] wins@[i])@[i] == 0,
        forall|i: usize, j: usize|
            i < j < n ==> {
                let o = outcomes@[pair_index(n as nat, i as nat, j as nat) as int];
                &&& (#[trigger] wins@[i as int])@[j as int] == first_credit(o)
                &&& (#[trigger] wins@[j as int])@[i as int] == second_credit(o)
                &&& wins@[i as int]@[j as int] + wins@[j as int]@[i as int] == 2
                &&& o == Verdict::Greater ==> wins@[i as int]@[j as int] == 2
                    && wins@[j as int]@[i as int] == 0
                &&& o == Verdict::Less ==> wins@[i as int]@[j as int] == 0
                    && wins@[j as int]@[i as int] == 2
                &&& o == Verdict::Equal ==> wins@[i as int]@[j as int] == 1
                    && wins@[j as int]@[i as int] == 1
            },
{
    let total = outcomes.len();
    let mut offsets: Vec<usize> = Vec::new();
    let mut next: usize = 0;
    let mut r: usize = 0;
    while r < n
        invariant
            r <= n,
            outcomes@.len() == pair_count(n as nat),
            total == outcomes@.len(),
            offsets@.len() == r,
            next == pair_offset(n as nat, r as nat),
            forall|k: int| 0 <= k < r ==> offsets@[k] == pair_offset(n as nat, k as nat),
        decreases n - r,
    {
        offsets.push(next);
        proof {
            lemma_pair_offset_step(n as nat, r as nat);
            lemma_pair_offset_monotone(n as nat, (r + 1) as nat, n as nat);
        }
        next = next + (n - r - 1);
        r = r + 1;
    }
    let mut wins: Vec<Vec<u64>> = Vec::new();
    let mut i: usize = 0;
    while i < n
        invariant
            i <= n,
            outcomes@.len() == pair_count(n as nat),
            total == outcomes@.len(),
            offsets@.len() == n,
            forall|k: int| 0 <= k < n ==> offsets@[k] == pair_offset(n as nat, k as nat),
            wins@.len() == i,
            forall|a: int| 0 <= a < i ==> (#[trigger] wins@[a])@.len() == n,
            forall|a: int| 0 <= a < i ==> (#[trigger] wins@[a])@[a] == 0,
            forall|a: usize, b: usize|
                a < i && b < n && a < b ==> #[trigger] wins@[a as int]@[b as int] == first_credit(
                    outcomes@[pair_index(n as nat, a as nat, b as nat) as int],
                ),
            forall|a: usize, b: usize|
                a < i && b < n && b < a ==> #[trigger] wins@[a as int]@[b as int]
                    == second_credit(outcomes@[pair_index(n as nat, b as nat, a as nat) as int]),
        decreases n - i,
    {
        let mut row: Vec<u64> = Vec::new();
        let mut j: usize = 0;
        while j < n
            invariant
                i < n,
                j <= n,
                outcomes@.len() == pair_count(n as nat),
                total == outcomes@.len(),
                offsets@.len() == n,
                forall|k: int| 0 <= k < n ==> offsets@[k] == pair_offset(n as nat, k as nat),
                row@.len() == j,
                i < j ==> row@[i as int] == 0,
                forall|b: usize|
                    b < j && i < b ==> #[trigger] row@[b as int] == first_credit(
                        outcomes@[pair_index(n as nat, i as nat, b as nat) as int],
                    ),
                forall|b: usize|
                    b < j && b < i ==> #[trigger] row@[b as int] == second_credit(
                        outcomes@[pair_index(n as nat, b as nat, i as nat) as int],
                    ),
            decreases n - j,
        {
            let value: u64 = if i == j {
                0
            } else if i < j {
                proof {
                    lemma_pair_index_bound(n as nat, i as nat, j as nat);
                }
                credit(&outcomes[offsets[i] + (j - i - 1)], true)
            } else {
                proof {
                    lemma_pair_index_bound(n as nat, j as nat, i as nat);
                }
                credit(&outcomes[offsets[j] + (i - j - 1)], false)
            };
            row.push(value);
            j = j + 1;
        }
        wins.push(row);
        i = i + 1;
    }
    wins
}

} // verus!
