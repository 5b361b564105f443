//! The pair selector: which two candidates are compared next.

use crate::ranking::RankingError;
use vstd::prelude::*;

verus! {

/// The ordered pair of positions that two residues stand for: `a` is the first
/// position, and `b` counts through the positions that are left once `a` is taken.
pub open spec fn pair_of_residues(a: int, b: int) -> (int, int) {
    (a, if b >= a { b + 1 } else { b })
}

/// A rule that picks two positions among the candidates.
pub trait PairPolicy {
    /// The positions picked among `count` candidates.
    spec fn choice(&self, count: int) -> (int, int);

    /// Computes `choice`; the two positions are in range and differ.
    fn pick(&self, count: usize) -> (p: (usize, usize))
        requires
            count >= 2,
        ensures
            (p.0 as int, p.1 as int) == self.choice(count as int),
            p.0 < count,
            p.1 < count,
            p.0 != p.1,
    ;
}

/// Takes the two leading candidates: the policy for a collection that the store
/// has already put in random order.
#[derive(Debug, Clone, Copy, PartialEq, Eq, Structural)]
pub struct LeadingPair;

impl PairPolicy for LeadingPair {
    open spec fn choice(&self, count: int) -> (int, int) {
        (0, 1)
    }

    fn pick(&self, count: usize) -> (p: (usize, usize)) {
        (0, 1)
    }
}

/// Two draws turned into two positions without replacement: the first draw picks
/// among all candidates, the second among those that are left. This is the
/// policy for a caller that holds the whole collection and draws the two
/// numbers itself, each uniformly.
#[derive(Debug, Clone, Copy, PartialEq, Eq, Structural)]
pub struct DrawnPair {
    pub first: u64,
    pub second: u64,
}

impl PairPolicy for DrawnPair {
    open spec fn choice(&self, count: int) -> (int, int) {
        pair_of_residues(self.first as int % count, self.second as int % (count - 1))
    }

    fn pick(&self, count: usize) -> (p: (usize, usize)) {
        let n: u64 = count as u64;
        let a: u64 = self.first % n;
        let b: u64 = self.second % (n - 1);
        let second: u64 = if b >= a { b + 1 } else { b };
        (a as usize, second as usize)
    }
}

/// Selects the two candidates that `policy` picks.
///
/// Fails exactly when fewer than two candidates are given; otherwise the result
/// holds the candidates at the two positions of `policy.choice`, which differ.
pub fn select_pair<'a, T, P: PairPolicy>(candidates: &'a [T], policy: &P) -> (r: Result<
    (&'a T, &'a T),
    RankingError,
>)
    ensures
        candidates@.len() < 2 ==> r == Err::<(&T, &T), RankingError>(
            RankingError::InsufficientCandidates,
        ),
        candidates@.len() >= 2 ==> r == Ok::<(&T, &T), RankingError>(
            (
                &candidates@[policy.choice(candidates@.len() as int).0],
                &candidates@[policy.choice(candidates@.len() as int).1],
            ),
        ),
        candidates@.len() >= 2 ==> {
            let c = policy.choice(candidates@.len() as int);
            0 <= c.0 < candidates@.len() && 0 <= c.1 < candidates@.len() && c.0 != c.1
        },
        candidates@.len() >= 2 && candidates@.no_duplicates() ==> (r matches Ok(pair) && *pair.0
            != *pair.1),
{
    let count: usize = candidates.len();
    if count < 2 {
        return Err(RankingError::InsufficientCandidates);
    }
    let (i, j) = policy.pick(count);
    Ok((&candidates[i], &candidates[j]))
}

/// Every ordered pair of distinct positions among `count` candidates is the
/// choice of some pair of residues, the first below `count` and the second
/// below `count - 1`.
pub proof fn lemma_every_pair_is_drawn(count: int, i: int, j: int)
    requires
        0 <= i < count,
        0 <= j < count,
        i != j,
    ensures
        exists|a: int, b: int|
            0 <= a < count && 0 <= b < count - 1 && #[trigger] pair_of_residues(a, b) == (i, j),
{
    let b = if j > i { j - 1 } else { j };
    assert(pair_of_residues(i, b) == (i, j));
}

/// Different pairs of residues stand for different pairs of positions. With
/// `lemma_every_pair_is_drawn`: residues that are uniform make every ordered
/// pair of distinct positions equally likely.
pub proof fn lemma_residues_are_told_apart(a1: int, b1: int, a2: int, b2: int)
    requires
        pair_of_residues(a1, b1) == pair_of_residues(a2, b2),
    ensures
        a1 == a2,
        b1 == b2,
{
}

/// The two positions of a pair of residues in range are in range and differ.
pub proof fn lemma_drawn_positions_differ(count: int, a: int, b: int)
    requires
        0 <= a < count,
        0 <= b < count - 1,
    ensures
        0 <= pair_of_residues(a, b).0 < count,
        0 <= pair_of_residues(a, b).1 < count,
        pair_of_residues(a, b).0 != pair_of_residues(a, b).1,
{
}

} // verus!
