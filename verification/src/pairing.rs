//! The order in which the pairs of bodies are visited when forces are
//! computed: every unordered pair once, the lower index first, row by row.

use vstd::prelude::*;

verus! {

/// `(i, j)` names two distinct bodies among `n`, the lower index first.
pub open spec fn is_pair(n: nat, i: int, j: int) -> bool {
    0 <= i < j < n
}

/// How many unordered pairs `n` bodies form.
pub open spec fn pair_count(n: nat) -> int {
    n * (n - 1) / 2
}

/// How many pairs have a lower index below `i`.
pub open spec fn row_start(n: nat, i: int) -> int {
    i * (2 * n - i - 1) / 2
}

/// The number of pairs visited before `(i, j)`.
pub open spec fn pair_rank(n: nat, i: int, j: int) -> int {
    row_start(n, i) + (j - i - 1)
}

/// The first pair visited: there is one as soon as there are two bodies.
pub open spec fn first_of(n: nat) -> Option<(int, int)> {
    if n >= 2 {
        Some((0, 1))
    } else {
        None
    }
}

/// The pair visited after `(i, j)`: the next partner of `i`, or, when `i`
/// has met every body above it, the next body with its first partner.
/// Nothing follows the last pair, and nothing follows what is no pair.
pub open spec fn pair_after(n: nat, i: int, j: int) -> Option<(int, int)> {
    if !is_pair(n, i, j) {
        None
    } else if j + 1 < n {
        Some((i, j + 1))
    } else if i + 2 < n {
        Some((i + 1, i + 2))
    } else {
        None
    }
}

/// The pair visited at step `k` of the walk that starts at the first pair
/// and goes from each pair to the one after it.
pub open spec fn visit(n: nat, k: nat) -> Option<(int, int)>
    decreases k,
{
    if k == 0 {
        first_of(n)
    } else {
        match visit(n, (k - 1) as nat) {
            Some((i, j)) => pair_after(n, i, j),
            None => None,
        }
    }
}

/// The first pair to visit among `n` bodies, if there is any.
pub fn first_pair(n: usize) -> (first: Option<(usize, usize)>)
    ensures
        match first {
            Some((i, j)) => first_of(n as nat) == Some((i as int, j as int)),
            None => first_of(n as nat) is None,
        },
{
    if n >= 2 {
        Some((0, 1))
    } else {
        None
    }
}

/// The pair to visit after `(i, j)` among `n` bodies, if there is any.
pub fn next_pair(n: usize, i: usize, j: usize) -> (next: Option<(usize, usize)>)
    ensures
        match next {
            Some((a, b)) => pair_after(n as nat, i as int, j as int) == Some((a as int, b as int)),
            None => pair_after(n as nat, i as int, j as int) is None,
        },
{
    if !(i < j && j < n) {
        None
    } else if j + 1 < n {
        Some((i, j + 1))
    } else if i + 2 < n {
        Some((i + 1, i + 2))
    } else {
        None
    }
}

proof fn lemma_row_step(n: nat, i: int)
    requires
        0 <= i,
    ensures
        (i * (2 * n - i - 1)) % 2 == 0,
        row_start(n, i + 1) == row_start(n, i) + (n - i - 1),
    decreases i,
{
    assert((i + 1) * (2 * n - (i + 1) - 1) == i * (2 * n - i - 1) + 2 * (n - i - 1))
        by (nonlinear_arith);
    if i > 0 {
        lemma_row_step(n, i - 1);
        assert(i * (2 * n - i - 1) == (i - 1) * (2 * n - (i - 1) - 1) + 2 * (n - (i - 1) - 1))
            by (nonlinear_arith);
    } else {
        assert(i * (2 * n - i - 1) == 0) by (nonlinear_arith)
            requires
                i == 0,
        ;
    }
}

proof fn lemma_row_start_grows(n: nat, i: int, k: int)
    requires
        0 <= i <= k <= n,
    ensures
        row_start(n, i) <= row_start(n, k),
    decreases k - i,
{
    if i < k {
        lemma_row_start_grows(n, i, k - 1);
        lemma_row_step(n, k - 1);
    }
}

proof fn lemma_rows_hold_all(n: nat)
    ensures
        row_start(n, n as int) == pair_count(n),
{
    assert(n * (2 * n - n - 1) == n * (n - 1)) by (nonlinear_arith);
}

/// The rank of a pair is a step of the walk.
pub proof fn law_rank_in_range(n: nat, i: int, j: int)
    requires
        is_pair(n, i, j),
    ensures
        0 <= pair_rank(n, i, j) < pair_count(n),
{
    lemma_row_step(n, i);
    lemma_row_start_grows(n, 0, i);
    lemma_row_start_grows(n, i + 1, n as int);
    lemma_rows_hold_all(n);
    assert(row_start(n, 0) == 0) by (nonlinear_arith);
}

/// Two pairs with the same rank are the same pair.
pub proof fn law_rank_is_injective(n: nat, i: int, j: int, a: int, b: int)
    requires
        is_pair(n, i, j),
        is_pair(n, a, b),
        pair_rank(n, i, j) == pair_rank(n, a, b),
    ensures
        i == a && j == b,
{
    if i < a {
        lemma_row_step(n, i);
        lemma_row_start_grows(n, i + 1, a);
    } else if a < i {
        lemma_row_step(n, a);
        lemma_row_start_grows(n, a + 1, i);
    }
}

/// Going to the next pair raises the rank by one, and only the pair of
/// the highest rank has no next pair.
pub proof fn law_next_pair_is_next_rank(n: nat, i: int, j: int)
    requires
        is_pair(n, i, j),
    ensures
        match pair_after(n, i, j) {
            Some((a, b)) => is_pair(n, a, b) && pair_rank(n, a, b) == pair_rank(n, i, j) + 1,
            None => pair_rank(n, i, j) == pair_count(n) - 1,
        },
{
    lemma_row_step(n, i);
    if j + 1 >= n && i + 2 >= n {
        lemma_row_step(n, i + 1);
        lemma_rows_hold_all(n);
    }
}

/// The walk visits nothing but pairs, and visits a pair at the step that is
/// its rank and at no other.
pub proof fn law_visit_is_ranked(n: nat, k: nat, i: int, j: int)
    requires
        visit(n, k) == Some((i, j)),
    ensures
        is_pair(n, i, j),
        pair_rank(n, i, j) == k,
    decreases k,
{
    if k == 0 {
        assert(row_start(n, 0) == 0) by (nonlinear_arith);
    } else {
        let (a, b) = visit(n, (k - 1) as nat)->0;
        law_visit_is_ranked(n, (k - 1) as nat, a, b);
        law_next_pair_is_next_rank(n, a, b);
    }
}

/// The walk takes as many steps as there are pairs, and then ends.
pub proof fn law_walk_length(n: nat, k: nat)
    ensures
        visit(n, k) is Some <==> k < pair_count(n),
    decreases k,
{
    assert(pair_count(n) > 0 <==> n >= 2) by (nonlinear_arith);
    if k > 0 {
        law_walk_length(n, (k - 1) as nat);
        if visit(n, (k - 1) as nat) is Some {
            let (a, b) = visit(n, (k - 1) as nat)->0;
            law_visit_is_ranked(n, (k - 1) as nat, a, b);
            law_next_pair_is_next_rank(n, a, b);
            if pair_after(n, a, b) is Some {
                let (c, d) = pair_after(n, a, b)->0;
                law_rank_in_range(n, c, d);
            }
        }
    }
}

/// The walk visits every pair: each at the step that is its rank. With
/// `law_visit_is_ranked` this says that each unordered pair is visited
/// exactly once.
pub proof fn law_every_pair_is_visited(n: nat, i: int, j: int)
    requires
        is_pair(n, i, j),
    ensures
        visit(n, pair_rank(n, i, j) as nat) == Some((i, j)),
{
    law_rank_in_range(n, i, j);
    let k = pair_rank(n, i, j) as nat;
    law_walk_length(n, k);
    let (a, b) = visit(n, k)->0;
    law_visit_is_ranked(n, k, a, b);
    law_rank_is_injective(n, i, j, a, b);
}

/// Fewer than two bodies form no pair, so no force is computed at all.
pub proof fn law_lone_body_has_no_pair(n: nat, k: nat)
    requires
        n < 2,
    ensures
        visit(n, k) is None,
{
    law_walk_length(n, k);
    assert(pair_count(n) == 0) by (nonlinear_arith)
        requires
            n < 2,
    ;
}

} // verus!
