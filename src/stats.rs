use vstd::prelude::*;

verus! {

/// The statistics record of one player: best score and game counters.
#[derive(Clone, Copy, Debug, PartialEq, Eq, Structural)]
pub struct MatchGameState {
    pub high_score: u32,
    pub games_played: u32,
    pub games_won: u32,
    pub games_lost: u32,
}

/// The record that a fresh ledger starts from: every field zero.
pub open spec fn zero_stats() -> MatchGameState {
    MatchGameState { high_score: 0, games_played: 0, games_won: 0, games_lost: 0 }
}

impl Default for MatchGameState {
    fn default() -> (r: Self)
        ensures
            r == zero_stats(),
    {
        MatchGameState { high_score: 0, games_played: 0, games_won: 0, games_lost: 0 }
    }
}

impl MatchGameState {
    /// Every recorded game is counted as exactly one win or one loss.
    pub open spec fn is_balanced(self) -> bool {
        self.games_played as int == self.games_won as int + self.games_lost as int
    }

    /// Whether the counters that a game with this outcome advances are all below
    /// the `u32` ceiling.
    pub open spec fn has_room(self, won: bool) -> bool {
        &&& self.games_played < u32::MAX
        &&& if won {
            self.games_won < u32::MAX
        } else {
            self.games_lost < u32::MAX
        }
    }
}

/// The record after one game with `score` and outcome `won`. The high score
/// becomes the larger of the two scores. The counters saturate as a group:
/// where one of them would pass `u32::MAX` none moves, so that the balance of
/// played against won and lost is never broken.
pub open spec fn recorded(s: MatchGameState, score: u32, won: bool) -> MatchGameState {
    let high = if score > s.high_score {
        score
    } else {
        s.high_score
    };
    if s.has_room(won) {
        MatchGameState {
            high_score: high,
            games_played: (s.games_played + 1) as u32,
            games_won: if won {
                (s.games_won + 1) as u32
            } else {
                s.games_won
            },
            games_lost: if won {
                s.games_lost
            } else {
                (s.games_lost + 1) as u32
            },
        }
    } else {
        MatchGameState { high_score: high, ..s }
    }
}

/// The record after a sequence of games, each a score and an outcome, applied
/// in order to `s`.
pub open spec fn replayed(s: MatchGameState, games: Seq<(u32, bool)>) -> MatchGameState
    decreases games.len(),
{
    if games.len() == 0 {
        s
    } else {
        let last = games.last();
        recorded(replayed(s, games.drop_last()), last.0, last.1)
    }
}

/// Applies one game to `s`: computes `recorded(s, score, won)`.
pub fn update_stats(s: MatchGameState, score: u32, won: bool) -> (r: MatchGameState)
    ensures
        r == recorded(s, score, won),
        s.is_balanced() ==> r.is_balanced(),
        r.high_score >= s.high_score,
        r.high_score >= score,
{
    let mut r = s;
    if score > r.high_score {
        r.high_score = score;
    }
    let room = r.games_played < u32::MAX && if won {
        r.games_won < u32::MAX
    } else {
        r.games_lost < u32::MAX
    };
    if room {
        r.games_played = r.games_played + 1;
        if won {
            r.games_won = r.games_won + 1;
        } else {
            r.games_lost = r.games_lost + 1;
        }
    }
    r
}

/// A balanced record stays balanced after any game.
pub proof fn lemma_recorded_balanced(s: MatchGameState, score: u32, won: bool)
    requires
        s.is_balanced(),
    ensures
        recorded(s, score, won).is_balanced(),
{
}

/// Starting from the zero record, the record after every prefix of any
/// sequence of games is balanced.
pub proof fn lemma_replayed_balanced(games: Seq<(u32, bool)>)
    ensures
        forall|i: int| 0 <= i <= games.len() ==> (#[trigger] replayed(zero_stats(), games.take(i))).is_balanced(),
{
    assert forall|i: int| 0 <= i <= games.len() implies (#[trigger] replayed(zero_stats(), games.take(i))).is_balanced() by {
        lemma_replayed_balanced_from(zero_stats(), games.take(i));
    }
}

/// From a balanced record, the record after any sequence of games is balanced.
pub proof fn lemma_replayed_balanced_from(s: MatchGameState, games: Seq<(u32, bool)>)
    requires
        s.is_balanced(),
    ensures
        replayed(s, games).is_balanced(),
    decreases games.len(),
{
    if games.len() > 0 {
        lemma_replayed_balanced_from(s, games.drop_last());
    }
}

/// The high score never goes down: after a game it is at least what it was.
pub proof fn lemma_recorded_high_score_monotone(s: MatchGameState, score: u32, won: bool)
    ensures
        recorded(s, score, won).high_score >= s.high_score,
{
}

/// The outcome of a game depends only on the prior record, the score and the
/// outcome: equal inputs give equal records.
pub proof fn lemma_recorded_deterministic(
    a: MatchGameState,
    b: MatchGameState,
    score: u32,
    won: bool,
)
    requires
        a == b,
    ensures
        recorded(a, score, won) == recorded(b, score, won),
{
}

} // verus!
