//! The order in which a physics step examines pairs of bodies: every pair
//! `(i, j)` with `i < j` once, ascending by `i` and then by `j`. A body changed
//! by an earlier pair is seen in its new state by a later one, so the order is
//! part of what a step computes.

use vstd::prelude::*;

verus! {

/// Whether `(first, second)` names a pair of distinct bodies among `count`,
/// the lower index first.
pub open spec fn is_pair(count: usize, pair: (usize, usize)) -> bool {
    pair.0 < pair.1 && pair.1 < count
}

/// Whether pair `p` is examined before pair `q`: ascending by the first
/// index, then by the second.
pub open spec fn examined_before(p: (usize, usize), q: (usize, usize)) -> bool {
    p.0 < q.0 || (p.0 == q.0 && p.1 < q.1)
}

/// The first pair of a sweep over `count` bodies, if there is any pair.
pub open spec fn first_pair(count: usize) -> Option<(usize, usize)> {
    if count >= 2 {
        Some((0usize, 1usize))
    } else {
        None
    }
}

/// The pair that a sweep over `count` bodies examines right after `pair`,
/// if `pair` is not the last.
pub open spec fn next_pair(count: usize, pair: (usize, usize)) -> Option<(usize, usize)> {
    if pair.1 + 1 < count {
        Some((pair.0, (pair.1 + 1) as usize))
    } else if pair.0 + 2 < count {
        Some(((pair.0 + 1) as usize, (pair.0 + 2) as usize))
    } else {
        None
    }
}

/// The first pair is a pair, and no pair is examined before it.
pub proof fn lemma_first_pair_is_least(count: usize)
    ensures
        match first_pair(count) {
            Some(p) => is_pair(count, p) && forall|q: (usize, usize)|
                is_pair(count, q) ==> !examined_before(q, p),
            None => forall|q: (usize, usize)| !is_pair(count, q),
        },
{
}

/// The next pair is the one examined soonest after `pair`: it is a pair, it
/// comes after `pair`, and no pair lies between the two. Where there is no
/// next pair, no pair comes after `pair`.
pub proof fn lemma_next_pair_is_successor(count: usize, pair: (usize, usize))
    requires
        is_pair(count, pair),
    ensures
        match next_pair(count, pair) {
            Some(n) => is_pair(count, n) && examined_before(pair, n) && forall|q: (usize, usize)|
                is_pair(count, q) && examined_before(pair, q) ==> !examined_before(q, n),
            None => forall|q: (usize, usize)| is_pair(count, q) ==> !examined_before(pair, q),
        },
{
}

/// The pair that a sweep over `count` bodies examines after `steps` moves
/// from its first pair, or `None` if the sweep is over by then.
pub open spec fn nth_pair(count: usize, steps: nat) -> Option<(usize, usize)>
    decreases steps,
{
    if steps == 0 {
        first_pair(count)
    } else {
        match nth_pair(count, (steps - 1) as nat) {
            Some(p) => next_pair(count, p),
            None => None,
        }
    }
}

/// The number of pairs whose first index is below `first`.
spec fn pairs_in_rows_before(count: usize, first: usize) -> nat
    decreases first,
{
    if first == 0 || first >= count {
        0
    } else {
        pairs_in_rows_before(count, (first - 1) as usize) + (count - first) as nat
    }
}

/// The number of pairs examined before `pair`.
spec fn pairs_before(count: usize, pair: (usize, usize)) -> nat {
    pairs_in_rows_before(count, pair.0) + (pair.1 - pair.0 - 1) as nat
}

proof fn lemma_pair_at_its_place(count: usize, pair: (usize, usize))
    requires
        is_pair(count, pair),
    ensures
        nth_pair(count, pairs_before(count, pair)) == Some(pair),
    decreases pair.0, pair.1,
{
    if pair.1 > pair.0 + 1 {
        let prev = (pair.0, (pair.1 - 1) as usize);
        lemma_pair_at_its_place(count, prev);
        assert(next_pair(count, prev) == Some(pair));
    } else if pair.0 > 0 {
        let prev = ((pair.0 - 1) as usize, (count - 1) as usize);
        lemma_pair_at_its_place(count, prev);
        assert(next_pair(count, prev) == Some(pair));
        assert(pairs_before(count, pair) == pairs_before(count, prev) + 1);
    } else {
        assert(pairs_before(count, pair) == 0);
    }
}

/// The number of pairs among `count` bodies.
pub open spec fn pair_count(count: usize) -> nat {
    (count * (count - 1) / 2) as nat
}

proof fn lemma_rows_before_closed_form(count: usize, first: usize)
    requires
        first < count,
    ensures
        2 * pairs_in_rows_before(count, first) == first * (2 * count - first - 1),
    decreases first,
{
    if first > 0 {
        lemma_rows_before_closed_form(count, (first - 1) as usize);
        assert(first * (2 * count - first - 1) == (first - 1) * (2 * count - (first - 1) - 1) + 2
            * (count - first)) by (nonlinear_arith);
    } else {
        assert(first * (2 * count - first - 1) == 0) by (nonlinear_arith)
            requires
                first == 0,
        ;
    }
}

proof fn lemma_rows_before_ascend(count: usize, low: usize, high: usize)
    requires
        low <= high < count,
    ensures
        pairs_in_rows_before(count, low) <= pairs_in_rows_before(count, high),
    decreases high,
{
    if low < high {
        lemma_rows_before_ascend(count, low, (high - 1) as usize);
    }
}

proof fn lemma_all_rows_hold_every_pair(count: usize)
    requires
        count >= 1,
    ensures
        pairs_in_rows_before(count, (count - 1) as usize) == pair_count(count),
{
    lemma_rows_before_closed_form(count, (count - 1) as usize);
    assert((count - 1) * (2 * count - (count - 1) - 1) == count * (count - 1))
        by (nonlinear_arith);
}

proof fn lemma_pair_place_is_small(count: usize, pair: (usize, usize))
    requires
        is_pair(count, pair),
    ensures
        pairs_before(count, pair) < pair_count(count),
        pairs_before(count, pair) + 1 == pair_count(count) ==> next_pair(count, pair).is_none(),
        pairs_before(count, pair) + 1 < pair_count(count) ==> next_pair(count, pair).is_some(),
{
    lemma_all_rows_hold_every_pair(count);
    let next_row = (pair.0 + 1) as usize;
    lemma_rows_before_ascend(count, next_row, (count - 1) as usize);
    if pair.0 + 2 < count {
        lemma_rows_before_ascend(count, (pair.0 + 2) as usize, (count - 1) as usize);
    }
}

proof fn lemma_place_of_nth_pair(count: usize, steps: nat)
    requires
        nth_pair(count, steps).is_some(),
    ensures
        is_pair(count, nth_pair(count, steps).unwrap()),
        pairs_before(count, nth_pair(count, steps).unwrap()) == steps,
    decreases steps,
{
    if steps > 0 {
        let before = nth_pair(count, (steps - 1) as nat);
        lemma_place_of_nth_pair(count, (steps - 1) as nat);
        lemma_next_pair_is_successor(count, before.unwrap());
    }
}

/// A sweep over `count` bodies examines `count * (count - 1) / 2` pairs:
/// there is a pair under the cursor after fewer moves than that, and none
/// from then on.
pub proof fn lemma_sweep_length(count: usize, steps: nat)
    ensures
        nth_pair(count, steps).is_some() <==> steps < pair_count(count),
    decreases steps,
{
    if nth_pair(count, steps).is_some() {
        lemma_place_of_nth_pair(count, steps);
        lemma_pair_place_is_small(count, nth_pair(count, steps).unwrap());
    } else if steps == 0 {
        assert(count * (count - 1) == 0) by (nonlinear_arith)
            requires
                count < 2,
        ;
    } else {
        let before = nth_pair(count, (steps - 1) as nat);
        lemma_sweep_length(count, (steps - 1) as nat);
        if before.is_some() {
            lemma_place_of_nth_pair(count, (steps - 1) as nat);
            lemma_pair_place_is_small(count, before.unwrap());
        }
    }
}

/// A sweep leaves no pair out: every pair of the `count` bodies is under the
/// cursor after some number of moves.
pub proof fn lemma_sweep_visits_every_pair(count: usize, pair: (usize, usize))
    requires
        is_pair(count, pair),
    ensures
        exists|steps: nat| nth_pair(count, steps) == Some(pair),
{
    lemma_pair_at_its_place(count, pair);
}

/// A sweep examines pairs in ascending order, so none of them twice: what is
/// under the cursor after `later` moves is a pair that comes after the pair
/// that was under it after `earlier` moves.
pub proof fn lemma_sweep_order_ascends(count: usize, earlier: nat, later: nat)
    requires
        earlier < later,
        nth_pair(count, later).is_some(),
    ensures
        nth_pair(count, earlier).is_some(),
        is_pair(count, nth_pair(count, earlier).unwrap()),
        is_pair(count, nth_pair(count, later).unwrap()),
        examined_before(nth_pair(count, earlier).unwrap(), nth_pair(count, later).unwrap()),
    decreases later,
{
    let before = nth_pair(count, (later - 1) as nat);
    assert(before.is_some());
    if earlier + 1 < later {
        lemma_sweep_order_ascends(count, earlier, (later - 1) as nat);
    } else if earlier == 0 {
        lemma_first_pair_is_least(count);
    } else {
        lemma_sweep_order_ascends(count, (earlier - 1) as nat, earlier);
    }
    lemma_next_pair_is_successor(count, before.unwrap());
}

/// A cursor over the pairs `(i, j)`, `i < j`, of `count` bodies, in the order
/// in which a physics step examines them.
pub struct PairSweep {
    count: usize,
    first: usize,
    second: usize,
    moves: Ghost<nat>,
}

impl PairSweep {
    #[verifier::type_invariant]
    spec fn well_formed(self) -> bool {
        self.first < self.second && self.pair() == nth_pair(self.count, self.moves@)
    }

    /// The number of bodies that the sweep ranges over.
    pub closed spec fn bodies(self) -> usize {
        self.count
    }

    /// How often the cursor has been moved.
    pub closed spec fn moves(self) -> nat {
        self.moves@
    }

    /// The pair under the cursor, or `None` once the sweep is over.
    pub closed spec fn pair(self) -> Option<(usize, usize)> {
        if self.second < self.count {
            Some((self.first, self.second))
        } else {
            None
        }
    }

    /// Starts a sweep over `count` bodies at its first pair.
    pub fn new(count: usize) -> (sweep: PairSweep)
        ensures
            sweep.bodies() == count,
            sweep.moves() == 0,
            sweep.pair() == first_pair(count),
    {
        PairSweep { count, first: 0, second: 1, moves: Ghost(0) }
    }

    /// The pair to examine now, or `None` if every pair has been examined.
    pub fn current(&self) -> (pair: Option<(usize, usize)>)
        ensures
            pair == self.pair(),
            pair == nth_pair(self.bodies(), self.moves()),
            pair matches Some(p) ==> is_pair(self.bodies(), p),
    {
        proof {
            use_type_invariant(self);
        }
        if self.second < self.count {
            Some((self.first, self.second))
        } else {
            None
        }
    }

    /// Moves to the pair that is examined next. A finished sweep stays
    /// finished.
    pub fn advance(&mut self)
        ensures
            final(self).bodies() == old(self).bodies(),
            final(self).moves() == old(self).moves() + 1,
            final(self).pair() == nth_pair(final(self).bodies(), final(self).moves()),
            final(self).pair() == match old(self).pair() {
                Some(p) => next_pair(old(self).bodies(), p),
                None => None,
            },
    {
        proof {
            use_type_invariant(&*self);
        }
        let count = self.count;
        let first = self.first;
        let second = self.second;
        let moves: Ghost<nat> = Ghost(self.moves@ + 1);
        if second < count {
            if second + 1 < count {
                *self = PairSweep { count, first, second: second + 1, moves };
            } else {
                *self = PairSweep { count, first: first + 1, second: first + 2, moves };
            }
        } else {
            *self = PairSweep { count, first, second, moves };
        }
    }
}

} // verus!
