//! Score keeping across playthroughs.

use vstd::prelude::*;

verus! {

/// The result of the last flight and the best one so far. The scores live as
/// long as the process and are never reset by the simulation.
#[derive(Debug, Clone, Copy, PartialEq, Eq, Structural)]
pub struct Scores {
    pub end_score: i32,
    pub best_score: i32,
    pub new_record: bool,
}

impl Default for Scores {
    fn default() -> (scores: Scores)
        ensures
            scores == (Scores { end_score: 0, best_score: 0, new_record: false }),
    {
        Scores { end_score: 0, best_score: 0, new_record: false }
    }
}

impl Scores {
    /// The scores after a flight that ended with `new_score`.
    pub open spec fn registered(self, new_score: i32) -> Scores {
        Scores {
            end_score: new_score,
            best_score: if new_score > self.best_score { new_score } else { self.best_score },
            new_record: new_score > self.best_score,
        }
    }

    /// The scores after the flights that ended with `scores`, in order.
    pub open spec fn registered_all(self, scores: Seq<i32>) -> Scores
        decreases scores.len(),
    {
        if scores.len() == 0 {
            self
        } else {
            self.registered_all(scores.drop_last()).registered(scores.last())
        }
    }

    /// Records the score of a finished flight: it becomes the end score, it is
    /// a new record iff it beats the best score so far, and the best score
    /// becomes the larger of the two.
    pub fn register_score(&mut self, new_score: i32)
        ensures
            *final(self) == old(self).registered(new_score),
            final(self).end_score == new_score,
            final(self).new_record == (new_score > old(self).best_score),
            final(self).best_score >= old(self).best_score,
            final(self).best_score >= new_score,
            final(self).best_score == new_score || final(self).best_score == old(self).best_score,
    {
        self.new_record = new_score > self.best_score;
        self.end_score = new_score;
        if self.end_score > self.best_score {
            self.best_score = self.end_score;
        }
    }
}

/// A score above the best sets a new record and becomes the best score; any
/// other score leaves the best score as it was and sets no record.
pub proof fn lemma_register_score(scores: Scores, new_score: i32)
    ensures
        new_score > scores.best_score ==> scores.registered(new_score).new_record
            && scores.registered(new_score).best_score == new_score,
        new_score <= scores.best_score ==> !scores.registered(new_score).new_record
            && scores.registered(new_score).best_score == scores.best_score,
        scores.registered(new_score).end_score == new_score,
{
}

/// However many flights are registered, the best score never goes down, it
/// is at least every score registered, and it is the old best or one of them.
pub proof fn lemma_best_score_is_running_maximum(scores: Scores, flights: Seq<i32>)
    ensures
        scores.registered_all(flights).best_score >= scores.best_score,
        forall|i: int|
            0 <= i < flights.len() ==> scores.registered_all(flights).best_score >= #[trigger] flights[i],
        scores.registered_all(flights).best_score == scores.best_score || flights.contains(
            scores.registered_all(flights).best_score,
        ),
    decreases flights.len(),
{
    if flights.len() > 0 {
        let earlier = flights.drop_last();
        lemma_best_score_is_running_maximum(scores, earlier);
        let before = scores.registered_all(earlier);
        let after = scores.registered_all(flights);
        assert(after == before.registered(flights.last()));
        assert forall|i: int| 0 <= i < flights.len() implies after.best_score >= #[trigger] flights[i] by {
            if i < flights.len() - 1 {
                assert(earlier[i] == flights[i]);
            }
        }
        if after.best_score != scores.best_score {
            if after.best_score == before.best_score {
                let j = choose|j: int| 0 <= j < earlier.len() && earlier[j] == before.best_score;
                assert(flights[j] == after.best_score);
            } else {
                assert(flights[flights.len() - 1] == after.best_score);
            }
        }
    }
}

} // verus!
