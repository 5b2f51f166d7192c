//! Score keeping: the running score, the game-over event that carries a
//! final score, and the high-score list those events are appended to.

use vstd::prelude::*;

verus! {

/// The running score of the current session. It only ever grows.
#[derive(Clone, Copy, PartialEq, Eq, Structural, Debug)]
pub struct Score {
    pub value: u32,
}

impl Default for Score {
    /// A fresh score starts at zero.
    fn default() -> (r: Self)
        ensures
            r.value == 0,
    {
        Score { value: 0 }
    }
}

/// The signal emitted when the player is hit, carrying the final score.
#[derive(Clone, Copy, PartialEq, Eq, Structural, Debug)]
pub struct GameOver {
    pub score: u32,
}

/// One entry of the high-score list: who scored, and how much.
#[derive(Debug)]
pub struct HighScoreEntry {
    pub name: String,
    pub score: u32,
}

/// The high-score list: entries in the order the games ended, never
/// pruned and never sorted.
#[derive(Debug)]
pub struct HighScore {
    pub scores: Vec<HighScoreEntry>,
}

impl Default for HighScore {
    /// A fresh high-score list is empty.
    fn default() -> (r: Self)
        ensures
            r.scores@.len() == 0,
    {
        HighScore { scores: Vec::new() }
    }
}

/// Appends one `("Player", score)` entry to the high-score list for
/// every game-over event, in event order, leaving earlier entries
/// unchanged.
pub fn update_high_scores(high_score: &mut HighScore, events: &Vec<GameOver>)
    ensures
        final(high_score).scores@.len() == old(high_score).scores@.len() + events@.len(),
        forall|k: int|
            0 <= k < old(high_score).scores@.len() ==> #[trigger] final(high_score).scores@[k]
                == old(high_score).scores@[k],
        forall|k: int|
            old(high_score).scores@.len() <= k < final(high_score).scores@.len() ==> {
                &&& (#[trigger] final(high_score).scores@[k]).name@ == "Player"@
                &&& final(high_score).scores@[k].score == events@[k - old(
                    high_score,
                ).scores@.len()].score
            },
{
    let ghost base = high_score.scores@;
    let mut j: usize = 0;
    while j < events.len()
        invariant
            0 <= j <= events@.len(),
            high_score.scores@.len() == base.len() + j,
            forall|k: int| 0 <= k < base.len() ==> #[trigger] high_score.scores@[k] == base[k],
            forall|k: int|
                base.len() <= k < high_score.scores@.len() ==> {
                    &&& (#[trigger] high_score.scores@[k]).name@ == "Player"@
                    &&& high_score.scores@[k].score == events@[k - base.len()].score
                },
        decreases events@.len() - j,
    {
        let name = String::from_str("Player");
        high_score.scores.push(HighScoreEntry { name, score: events[j].score });
        j = j + 1;
    }
}

} // verus!
