//! The rating update: which ratings each side of a match is computed from,
//! and the control of the volatility search.
//!
//! The search evaluates a real function at real points, which the caller does
//! in double precision. What it does with each value is decided here: how far
//! the bracket search may walk, when the refinement stops, which end of the
//! bracket moves, and when the search is given up as not converging. The
//! caller reports only the sign of a value or whether a gap has closed.
//!
//! The bracket has a near end, where the search starts, and a far end. Each
//! phase counts its steps against a limit, so that no search runs for ever:
//! the bracket search probes no multiple of the step above
//! `SolverLimits::bracket_steps`, except the first, and the refinement takes
//! no more than `SolverLimits::refinements` secant steps.

use vstd::prelude::*;
use vstd::string::StringExecFns;

verus! {

/// What the ranking core can refuse to do.
#[derive(Debug, Clone, Copy, PartialEq, Eq, Structural)]
pub enum RankingError {
    /// Fewer than two items are available to compare.
    InsufficientCandidates,
    /// The volatility search ran out of iterations.
    NonConvergence,
}

impl RankingError {
    /// The HTTP status that answers the request: 400 where the collection is
    /// too small to compare, 500 where a stored rating defeats the search.
    pub open spec fn status_code(&self) -> u16 {
        match self {
            RankingError::InsufficientCandidates => 400,
            RankingError::NonConvergence => 500,
        }
    }

    /// The text that answers the request.
    pub open spec fn message_text(&self) -> Seq<char> {
        match self {
            RankingError::InsufficientCandidates => "Not enough items to compare"@,
            RankingError::NonConvergence => "Rating update did not converge"@,
        }
    }

    /// The HTTP status that answers the request.
    pub fn status(&self) -> (code: u16)
        ensures
            code == self.status_code(),
    {
        match self {
            RankingError::InsufficientCandidates => 400,
            RankingError::NonConvergence => 500,
        }
    }

    /// The text that answers the request.
    pub fn message(&self) -> (text: String)
        ensures
            text@ == self.message_text(),
    {
        match self {
            RankingError::InsufficientCandidates => String::from_str(
                "Not enough items to compare",
            ),
            RankingError::NonConvergence => String::from_str("Rating update did not converge"),
        }
    }
}

/// How a match ended for one side.
#[derive(Debug, Clone, Copy, PartialEq, Eq, Structural)]
pub enum Outcome {
    Win,
    Loss,
}

/// Works out both sides of one match, in which `winner` beat `loser`.
///
/// `update_one` computes the new rating of one side from that side's rating,
/// its opponent's rating and how the match ended for it. Both sides are
/// computed from the ratings as they stood before the match: the winner's new
/// rating from `(winner, loser, Win)`, the loser's from `(loser, winner,
/// Loss)`, never from the other side's new rating. The result holds the two
/// new ratings, the winner's first. Where a side cannot be computed its error
/// is the result, the winner's side first.
pub fn calculate_glicko_update<R, F>(winner: R, loser: R, update_one: F) -> (r: Result<
    (R, R),
    RankingError,
>) where F: Fn(&R, &R, Outcome) -> Result<R, RankingError>
    requires
        call_requires(update_one, (&winner, &loser, Outcome::Win)),
        call_requires(update_one, (&loser, &winner, Outcome::Loss)),
    ensures
        match r {
            Ok(pair) => call_ensures(
                update_one,
                (&winner, &loser, Outcome::Win),
                Ok::<R, RankingError>(pair.0),
            ) && call_ensures(
                update_one,
                (&loser, &winner, Outcome::Loss),
                Ok::<R, RankingError>(pair.1),
            ),
            Err(error) => call_ensures(
                update_one,
                (&winner, &loser, Outcome::Win),
                Err::<R, RankingError>(error),
            ) || (exists|new_winner: R| #[trigger]
                call_ensures(
                    update_one,
                    (&winner, &loser, Outcome::Win),
                    Ok::<R, RankingError>(new_winner),
                )) && call_ensures(
                update_one,
                (&loser, &winner, Outcome::Loss),
                Err::<R, RankingError>(error),
            ),
        },
{
    let new_winner = match update_one(&winner, &loser, Outcome::Win) {
        Ok(rating) => rating,
        Err(error) => {
            return Err(error);
        },
    };
    let new_loser = match update_one(&loser, &winner, Outcome::Loss) {
        Ok(rating) => rating,
        Err(error) => {
            return Err(error);
        },
    };
    Ok((new_winner, new_loser))
}

/// The sign of a value of the function whose root is sought.
#[derive(Debug, Clone, Copy, PartialEq, Eq, Structural)]
pub enum Sign {
    Negative,
    Zero,
    Positive,
    /// The value is not a number.
    Undefined,
}

/// How many iterations each phase of the search may take.
#[derive(Debug, Clone, Copy, PartialEq, Eq, Structural)]
pub struct SolverLimits {
    /// The largest multiple of the step that the bracket search probes.
    pub bracket_steps: u32,
    /// The largest number of secant steps that the refinement takes.
    pub refinements: u32,
}

impl Default for SolverLimits {
    fn default() -> (r: Self)
        ensures
            r.bracket_steps == 100,
            r.refinements == 100,
    {
        SolverLimits { bracket_steps: 100, refinements: 100 }
    }
}

/// The search for the far end of the bracket: the point that lies `k` steps
/// below the near end is being probed.
#[derive(Debug)]
pub struct BracketSearch {
    k: u32,
}

/// How the search opens.
#[derive(Debug)]
pub enum Opening {
    /// The far end of the bracket is known in closed form: the refinement
    /// starts from it.
    Direct(Refinement),
    /// The far end has to be searched for, step by step below the near end.
    Search(BracketSearch),
}

/// Opens a search. `dominates` says whether the squared surprise of the
/// outcome exceeds the variance that the ratings allow for: then the far end
/// of the bracket is the logarithm of the excess, and nothing is searched.
pub fn open_search(dominates: bool) -> (r: Opening)
    ensures
        dominates ==> (r matches Opening::Direct(refinement) && refinement.taken() == 0),
        !dominates ==> (r matches Opening::Search(search) && search.step() == 1),
{
    if dominates {
        Opening::Direct(Refinement { rounds: 0 })
    } else {
        Opening::Search(BracketSearch { k: 1 })
    }
}

/// What follows from one probe of the bracket search.
#[derive(Debug)]
pub enum Probe {
    /// The probed point is the far end: it lies `k` steps below the near end.
    /// The refinement starts from it.
    Accept { k: u32, refinement: Refinement },
    /// The function is still negative there: probe one step further down.
    Again(BracketSearch),
    /// The limit is reached with the function still negative.
    GiveUp(RankingError),
}

impl BracketSearch {
    /// The multiple of the step that is probed next.
    pub closed spec fn step(&self) -> int {
        self.k as int
    }

    /// The multiple of the step that is probed next.
    pub fn k(&self) -> (k: u32)
        ensures
            k == self.step(),
    {
        self.k
    }

    /// Decides on the sign of the function at the probed point.
    ///
    /// The search walks down while the function is negative. Any other sign
    /// accepts the point. A negative sign moves one step further, unless the
    /// limit is reached: then the search has not converged.
    pub fn probe(self, limits: &SolverLimits, sign: Sign) -> (r: Probe)
        ensures
            sign != Sign::Negative ==> (r matches Probe::Accept { k, refinement } && k
                == self.step() && refinement.taken() == 0),
            sign == Sign::Negative && self.step() < limits.bracket_steps ==> (r matches
                Probe::Again(next) && next.step() == self.step() + 1),
            sign == Sign::Negative && self.step() >= limits.bracket_steps ==> r == Probe::GiveUp(
                RankingError::NonConvergence,
            ),
    {
        match sign {
            Sign::Negative => {
                if self.k < limits.bracket_steps {
                    Probe::Again(BracketSearch { k: self.k + 1 })
                } else {
                    Probe::GiveUp(RankingError::NonConvergence)
                }
            },
            _ => Probe::Accept { k: self.k, refinement: Refinement { rounds: 0 } },
        }
    }
}

/// What a secant step does to the near end of the bracket. The far end is
/// always replaced by the new point.
#[derive(Debug, Clone, Copy, PartialEq, Eq, Structural)]
pub enum BracketUpdate {
    /// The old far end becomes the near end, with its value.
    ReplaceNear,
    /// The near end stays and its value is halved.
    HalveNear,
}

/// Whether two signs lie strictly on opposite sides of zero.
pub open spec fn signs_disagree(x: Sign, y: Sign) -> bool {
    (x == Sign::Negative && y == Sign::Positive) || (x == Sign::Positive && y == Sign::Negative)
}

/// The update that follows the signs of the function at the new point and at
/// the far end: the near end is replaced when they disagree, and keeps its
/// place with half its value otherwise.
pub open spec fn illinois_update(at_new: Sign, at_far: Sign) -> BracketUpdate {
    if signs_disagree(at_new, at_far) {
        BracketUpdate::ReplaceNear
    } else {
        BracketUpdate::HalveNear
    }
}

/// The signs of the function at the near and at the far end once `update` is
/// made: the new point is the far end, the near end is the old far end or
/// stays. A halved value keeps its sign.
pub open spec fn ends_after(update: BracketUpdate, near: Sign, far: Sign, at_new: Sign) -> (
    Sign,
    Sign,
) {
    match update {
        BracketUpdate::ReplaceNear => (far, at_new),
        BracketUpdate::HalveNear => (near, at_new),
    }
}

/// A secant step keeps the root between the two ends: where the function has
/// opposite signs at the two ends and a definite sign at the new point, it has
/// opposite signs at the two ends after the update.
pub proof fn lemma_update_keeps_root_bracketed(near: Sign, far: Sign, at_new: Sign)
    requires
        signs_disagree(near, far),
        at_new == Sign::Negative || at_new == Sign::Positive,
    ensures
        ({
            let ends = ends_after(illinois_update(at_new, far), near, far, at_new);
            signs_disagree(ends.0, ends.1)
        }),
{
}

/// The refinement of the bracket, between two secant steps. It starts once
/// the bracket has its far end.
#[derive(Debug)]
pub struct Refinement {
    rounds: u32,
}

/// Leave to take one secant step.
#[derive(Debug)]
pub struct SecantStep {
    rounds: u32,
}

/// What follows from measuring the bracket.
#[derive(Debug)]
pub enum Check {
    /// The bracket is narrow enough: its near end is the root.
    Done,
    /// The bracket is still wide: take a secant step.
    Continue(SecantStep),
    /// The limit is reached with the bracket still wide.
    GiveUp(RankingError),
}

impl Refinement {
    /// The secant steps taken so far.
    pub closed spec fn taken(&self) -> int {
        self.rounds as int
    }

    /// The secant steps taken so far.
    pub fn rounds(&self) -> (n: u32)
        ensures
            n == self.taken(),
    {
        self.rounds
    }

    /// Decides on the width of the bracket.
    ///
    /// A closed gap ends the refinement. An open one allows a further secant
    /// step while fewer than `limits.refinements` have been taken; after that
    /// the search has not converged.
    pub fn check(self, limits: &SolverLimits, gap_closed: bool) -> (r: Check)
        ensures
            gap_closed ==> r == Check::Done,
            !gap_closed && self.taken() < limits.refinements ==> (r matches Check::Continue(step)
                && step.taken() == self.taken()),
            !gap_closed && self.taken() >= limits.refinements ==> r == Check::GiveUp(
                RankingError::NonConvergence,
            ),
    {
        if gap_closed {
            Check::Done
        } else if self.rounds < limits.refinements {
            Check::Continue(SecantStep { rounds: self.rounds })
        } else {
            Check::GiveUp(RankingError::NonConvergence)
        }
    }
}

impl SecantStep {
    /// A step is only ever allowed below some limit, so counting it cannot
    /// overflow.
    #[verifier::type_invariant]
    spec fn counts_on(&self) -> bool {
        self.rounds < u32::MAX
    }

    /// The secant steps taken before this one.
    pub closed spec fn taken(&self) -> int {
        self.rounds as int
    }

    /// Decides how the bracket moves, from the signs of the function at the
    /// new point and at the far end. The new point always becomes the far end;
    /// the result says what happens to the near end, and counts the step.
    pub fn decide(self, at_new: Sign, at_far: Sign) -> (r: (BracketUpdate, Refinement))
        ensures
            r.0 == illinois_update(at_new, at_far),
            r.1.taken() == self.taken() + 1,
    {
        proof {
            use_type_invariant(&self);
        }
        let disagree = match (at_new, at_far) {
            (Sign::Negative, Sign::Positive) => true,
            (Sign::Positive, Sign::Negative) => true,
            _ => false,
        };
        let update = if disagree {
            BracketUpdate::ReplaceNear
        } else {
            BracketUpdate::HalveNear
        };
        (update, Refinement { rounds: self.rounds + 1 })
    }
}

} // verus!
