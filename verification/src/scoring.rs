use vstd::prelude::*;

use crate::types::MatchingPenniesBot;

verus! {

/// The score from which on the bot that has won more rounds wins the match.
pub const WINNING_SCORE: u64 = 100_000_000;

/// Who wins the match on score: the bot with more round wins, once the score
/// has reached `WINNING_SCORE`; nobody while the score is lower or the
/// round wins are level.
pub open spec fn score_winner(mpb1_wins: u64, mpb2_wins: u64, score: u64) -> MatchingPenniesBot {
    if score >= WINNING_SCORE && mpb1_wins > mpb2_wins {
        MatchingPenniesBot::MPB1
    } else if score >= WINNING_SCORE && mpb2_wins > mpb1_wins {
        MatchingPenniesBot::MPB2
    } else {
        MatchingPenniesBot::Neither
    }
}

/// Decides the match winner from the round wins and a score already computed.
pub fn winner_by_score(mpb1_wins: u64, mpb2_wins: u64, score: u64) -> (winner: MatchingPenniesBot)
    ensures
        winner == score_winner(mpb1_wins, mpb2_wins, score),
{
    let mut winner = MatchingPenniesBot::Neither;
    if score >= WINNING_SCORE && mpb1_wins > mpb2_wins {
        winner = MatchingPenniesBot::MPB1;
    } else if score >= WINNING_SCORE && mpb2_wins > mpb1_wins {
        winner = MatchingPenniesBot::MPB2;
    }
    winner
}

/// Scores the match with `score_of` (called once, on
/// `(mpb1_wins, mpb2_wins, number_of_rounds)`) and decides the winner on
/// that score.  Returns the winner and the score.
pub fn check_for_score_winner<F: Fn(u64, u64, u64) -> u64>(
    mpb1_wins: u64,
    mpb2_wins: u64,
    number_of_rounds: u64,
    score_of: F,
) -> (res: (MatchingPenniesBot, u64))
    requires
        call_requires(score_of, (mpb1_wins, mpb2_wins, number_of_rounds)),
    ensures
        call_ensures(score_of, (mpb1_wins, mpb2_wins, number_of_rounds), res.1),
        res.0 == score_winner(mpb1_wins, mpb2_wins, res.1),
{
    let score = score_of(mpb1_wins, mpb2_wins, number_of_rounds);
    let winner = winner_by_score(mpb1_wins, mpb2_wins, score);
    (winner, score)
}

/// Nobody wins the match while the score is below `WINNING_SCORE`, and a
/// winner has won more rounds than the other bot.
pub proof fn lemma_winner_needs_score_and_lead(mpb1_wins: u64, mpb2_wins: u64, score: u64)
    ensures
        score < WINNING_SCORE ==> score_winner(mpb1_wins, mpb2_wins, score) == MatchingPenniesBot::Neither,
        score_winner(mpb1_wins, mpb2_wins, score) == MatchingPenniesBot::MPB1 ==> mpb1_wins > mpb2_wins,
        score_winner(mpb1_wins, mpb2_wins, score) == MatchingPenniesBot::MPB2 ==> mpb2_wins > mpb1_wins,
        mpb1_wins == mpb2_wins ==> score_winner(mpb1_wins, mpb2_wins, score) == MatchingPenniesBot::Neither,
{
}

/// Swapping the two bots' round wins swaps the winner.
pub proof fn lemma_winner_swap(mpb1_wins: u64, mpb2_wins: u64, score: u64)
    ensures
        score_winner(mpb2_wins, mpb1_wins, score) == match score_winner(mpb1_wins, mpb2_wins, score) {
            MatchingPenniesBot::MPB1 => MatchingPenniesBot::MPB2,
            MatchingPenniesBot::MPB2 => MatchingPenniesBot::MPB1,
            MatchingPenniesBot::Neither => MatchingPenniesBot::Neither,
        },
{
}

/// A higher score never takes a winner away: once a bot wins at some score,
/// it wins at every higher score with the same round wins.
pub proof fn lemma_winner_monotone_in_score(mpb1_wins: u64, mpb2_wins: u64, score: u64, higher: u64)
    requires
        score <= higher,
        score_winner(mpb1_wins, mpb2_wins, score) != MatchingPenniesBot::Neither,
    ensures
        score_winner(mpb1_wins, mpb2_wins, higher) == score_winner(mpb1_wins, mpb2_wins, score),
{
}

/// Reaching a score of 100_000_000 with more round wins than the other bot
/// wins the match, whatever the win counts are; below that score, or with
/// level win counts, nobody wins.
pub proof fn lemma_threshold_and_lead_decide(mpb1_wins: u64, mpb2_wins: u64, score: u64)
    ensures
        (score >= 100_000_000 && mpb1_wins > mpb2_wins)
            ==> score_winner(mpb1_wins, mpb2_wins, score) == MatchingPenniesBot::MPB1,
        (score >= 100_000_000 && mpb2_wins > mpb1_wins)
            ==> score_winner(mpb1_wins, mpb2_wins, score) == MatchingPenniesBot::MPB2,
        (score < 100_000_000 || mpb1_wins == mpb2_wins)
            ==> score_winner(mpb1_wins, mpb2_wins, score) == MatchingPenniesBot::Neither,
{
}

} // verus!
