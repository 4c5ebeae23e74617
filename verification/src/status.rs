use vstd::prelude::*;

use crate::picks::{consistent, flip_pick, flipped};
use crate::scoring::{check_for_score_winner, score_winner};
use crate::types::{GameStatusInternal, GameStatusVal, MatchingPenniesBot, PickInternal, PickStatus, PickVal};

verus! {

/// The round wins `(mpb1, mpb2)` after round `round_number`, where
/// `mpb1_wins` is bot 1's count before it.  Bot 2's count is every earlier
/// round that bot 1 did not win.  When both picks are usable, matching
/// picks give the round to bot 1 and differing picks to bot 2; a failed pick
/// gives the round to nobody.
pub open spec fn round_tally(round_number: u64, pick1: PickVal, pick2: PickVal, mpb1_wins: u64) -> (int, int) {
    let w1 = mpb1_wins as int;
    let w2 = round_number - 1 - mpb1_wins;
    if pick1 == PickVal::Failure || pick2 == PickVal::Failure {
        (w1, w2)
    } else if pick1 == pick2 {
        (w1 + 1, w2)
    } else {
        (w1, w2 + 1)
    }
}

/// A bot's standing in a round where some pick failed, from how its own pick
/// (`mine`) and its opponent's pick (`theirs`) arrived: a malformed or late
/// pick of its own loses by forfeit or on time; otherwise it wins by the
/// opponent's forfeit or lateness, and with two valid deliveries nothing is
/// decided.
pub open spec fn forfeit_standing(mine: PickStatus, theirs: PickStatus) -> GameStatusVal {
    match mine {
        PickStatus::ParseError => GameStatusVal::LossForfeit,
        PickStatus::TimeOut => GameStatusVal::LossTime,
        PickStatus::Valid => match theirs {
            PickStatus::Valid => GameStatusVal::Neutral,
            PickStatus::ParseError => GameStatusVal::WinForfeit,
            PickStatus::TimeOut => GameStatusVal::WinTime,
        },
    }
}

/// The two bots' standings after a round where both picks were usable: the
/// score winner wins and the other loses; without a score winner the bot
/// with more round wins leads.
pub open spec fn score_standings(winner: MatchingPenniesBot, mpb1_wins: int, mpb2_wins: int) -> (GameStatusVal, GameStatusVal) {
    match winner {
        MatchingPenniesBot::MPB1 => (GameStatusVal::WinScore, GameStatusVal::LossScore),
        MatchingPenniesBot::MPB2 => (GameStatusVal::LossScore, GameStatusVal::WinScore),
        MatchingPenniesBot::Neither => if mpb1_wins > mpb2_wins {
            (GameStatusVal::Lead, GameStatusVal::Trail)
        } else if mpb1_wins < mpb2_wins {
            (GameStatusVal::Trail, GameStatusVal::Lead)
        } else {
            (GameStatusVal::Neutral, GameStatusVal::Neutral)
        },
    }
}

/// Whether some pick of the round failed.
pub open spec fn round_failed(pick1: PickInternal, pick2: PickInternal) -> bool {
    pick1.pick == PickVal::Failure || pick2.pick == PickVal::Failure
}

/// The outcome of round `round_number` at the given match score: bot 1's
/// status (showing bot 2's pick), bot 2's status (showing bot 1's pick
/// flipped), and bot 1's round wins after the round.
pub open spec fn game_statuses(
    round_number: u64,
    pick1: PickInternal,
    pick2: PickInternal,
    mpb1_wins: u64,
    score: u64,
) -> (GameStatusInternal, GameStatusInternal, u64) {
    let (w1, w2) = round_tally(round_number, pick1.pick, pick2.pick, mpb1_wins);
    let standings = if round_failed(pick1, pick2) {
        (forfeit_standing(pick1.status, pick2.status), forfeit_standing(pick2.status, pick1.status))
    } else {
        score_standings(score_winner(w1 as u64, w2 as u64, score), w1, w2)
    };
    (
        GameStatusInternal { round: round_number, pick: pick2.pick, score, status: standings.0 },
        GameStatusInternal { round: round_number, pick: flipped(pick1.pick), score, status: standings.1 },
        w1 as u64,
    )
}

/// Plays round `round_number` (counted from 1) given both recorded picks
/// and bot 1's round wins before it.  The match is scored once with
/// `score_of` on the round wins after the round and `round_number`.  Returns
/// bot 1's status, bot 2's status and bot 1's round wins after the round.
pub fn get_game_statuses<F: Fn(u64, u64, u64) -> u64>(
    round_number: u64,
    mpb1_pick: &PickInternal,
    mpb2_pick: &PickInternal,
    mpb1_wins: u64,
    score_of: F,
) -> (res: (GameStatusInternal, GameStatusInternal, u64))
    requires
        1 <= round_number,
        mpb1_wins < round_number,
        forall|a: u64, b: u64, n: u64| call_requires(score_of, (a, b, n)),
    ensures
        ({
            let (w1, w2) = round_tally(round_number, mpb1_pick.pick, mpb2_pick.pick, mpb1_wins);
            call_ensures(score_of, (w1 as u64, w2 as u64, round_number), res.0.score)
        }),
        res == game_statuses(round_number, *mpb1_pick, *mpb2_pick, mpb1_wins, res.0.score),
{
    let mut mpb2_wins_current = (round_number - 1) - mpb1_wins;
    let mut mpb1_wins_current = mpb1_wins;

    let mpb1_pick_val = mpb1_pick.pick;
    let mpb2_pick_val = mpb2_pick.pick;
    let mpb1_pick_flip = flip_pick(mpb1_pick_val);

    let mut mpb1_game_status_val = GameStatusVal::Neutral;
    let mut mpb2_game_status_val = GameStatusVal::Neutral;
    let mut picks_were_valid = true;

    let either_failed = match (mpb1_pick_val, mpb2_pick_val) {
        (PickVal::Failure, _) => true,
        (_, PickVal::Failure) => true,
        _ => false,
    };

    if either_failed {
        let game_status_tuple = match (mpb1_pick.status, mpb2_pick.status) {
            (PickStatus::Valid, PickStatus::Valid) => (GameStatusVal::Neutral, GameStatusVal::Neutral),
            (PickStatus::Valid, PickStatus::ParseError) => (GameStatusVal::WinForfeit, GameStatusVal::LossForfeit),
            (PickStatus::Valid, PickStatus::TimeOut) => (GameStatusVal::WinTime, GameStatusVal::LossTime),
            (PickStatus::ParseError, PickStatus::Valid) => (GameStatusVal::LossForfeit, GameStatusVal::WinForfeit),
            (PickStatus::ParseError, PickStatus::ParseError) => (GameStatusVal::LossForfeit, GameStatusVal::LossForfeit),
            (PickStatus::ParseError, PickStatus::TimeOut) => (GameStatusVal::LossForfeit, GameStatusVal::LossTime),
            (PickStatus::TimeOut, PickStatus::Valid) => (GameStatusVal::LossTime, GameStatusVal::WinTime),
            (PickStatus::TimeOut, PickStatus::ParseError) => (GameStatusVal::LossTime, GameStatusVal::LossForfeit),
            (PickStatus::TimeOut, PickStatus::TimeOut) => (GameStatusVal::LossTime, GameStatusVal::LossTime),
        };
        mpb1_game_status_val = game_status_tuple.0;
        mpb2_game_status_val = game_status_tuple.1;
        picks_were_valid = false;
    } else {
        match (mpb1_pick_val, mpb2_pick_val) {
            (PickVal::Zero, PickVal::Zero) => mpb1_wins_current = mpb1_wins_current + 1,
            (PickVal::One, PickVal::One) => mpb1_wins_current = mpb1_wins_current + 1,
            (PickVal::Zero, PickVal::One) => mpb2_wins_current = mpb2_wins_current + 1,
            (PickVal::One, PickVal::Zero) => mpb2_wins_current = mpb2_wins_current + 1,
            (_, _) => {},
        }
    }

    let (winner, score) = check_for_score_winner(mpb1_wins_current, mpb2_wins_current, round_number, score_of);

    if picks_were_valid {
        match winner {
            MatchingPenniesBot::MPB1 => {
                mpb1_game_status_val = GameStatusVal::WinScore;
                mpb2_game_status_val = GameStatusVal::LossScore;
            },
            MatchingPenniesBot::MPB2 => {
                mpb1_game_status_val = GameStatusVal::LossScore;
                mpb2_game_status_val = GameStatusVal::WinScore;
            },
            MatchingPenniesBot::Neither => {
                if mpb1_wins_current > mpb2_wins_current {
                    mpb1_game_status_val = GameStatusVal::Lead;
                    mpb2_game_status_val = GameStatusVal::Trail;
                } else if mpb1_wins_current < mpb2_wins_current {
                    mpb1_game_status_val = GameStatusVal::Trail;
                    mpb2_game_status_val = GameStatusVal::Lead;
                } else {
                    mpb1_game_status_val = GameStatusVal::Neutral;
                    mpb2_game_status_val = GameStatusVal::Neutral;
                }
            },
        }
    }

    let mpb1_game_status = GameStatusInternal {
        round: round_number,
        pick: mpb2_pick_val,
        score,
        status: mpb1_game_status_val,
    };
    let mpb2_game_status = GameStatusInternal {
        round: round_number,
        pick: mpb1_pick_flip,
        score,
        status: mpb2_game_status_val,
    };
    (mpb1_game_status, mpb2_game_status, mpb1_wins_current)
}

/// The standing the opponent has when a bot has `status` in a round decided
/// between the two of them: a win against a loss, a lead against a trail.
pub open spec fn opposite(status: GameStatusVal) -> GameStatusVal {
    match status {
        GameStatusVal::WinScore => GameStatusVal::LossScore,
        GameStatusVal::LossScore => GameStatusVal::WinScore,
        GameStatusVal::WinTime => GameStatusVal::LossTime,
        GameStatusVal::LossTime => GameStatusVal::WinTime,
        GameStatusVal::WinForfeit => GameStatusVal::LossForfeit,
        GameStatusVal::LossForfeit => GameStatusVal::WinForfeit,
        GameStatusVal::Lead => GameStatusVal::Trail,
        GameStatusVal::Trail => GameStatusVal::Lead,
        GameStatusVal::Neutral => GameStatusVal::Neutral,
    }
}

/// Whether a standing is a loss of the match or of the round's pick.
pub open spec fn is_loss(status: GameStatusVal) -> bool {
    status == GameStatusVal::LossScore || status == GameStatusVal::LossTime
        || status == GameStatusVal::LossForfeit
}

/// Each round adds at most one round win, to exactly one bot when both picks
/// are usable and to nobody otherwise; the two counts then add up to the
/// rounds played (all of them, or all but this one).
pub proof fn lemma_round_tally(round_number: u64, pick1: PickVal, pick2: PickVal, mpb1_wins: u64)
    requires
        1 <= round_number,
        mpb1_wins < round_number,
    ensures
        ({
            let (w1, w2) = round_tally(round_number, pick1, pick2, mpb1_wins);
            &&& mpb1_wins <= w1 <= mpb1_wins + 1
            &&& 0 <= w2
            &&& w1 <= round_number && w2 <= round_number
            &&& (pick1 != PickVal::Failure && pick2 != PickVal::Failure) ==> w1 + w2 == round_number
            &&& (pick1 == PickVal::Failure || pick2 == PickVal::Failure) ==> w1 + w2 == round_number - 1
                && w1 == mpb1_wins
            &&& (pick1 != PickVal::Failure && pick2 != PickVal::Failure) ==> (w1 == mpb1_wins + 1
                <==> pick1 == pick2)
        }),
{
}

/// In a round where both picks are usable the two bots get opposite
/// standings: one wins and the other loses on score, one leads and the other
/// trails, or both are level.
pub proof fn lemma_valid_round_standings_opposite(
    round_number: u64,
    pick1: PickInternal,
    pick2: PickInternal,
    mpb1_wins: u64,
    score: u64,
)
    requires
        !round_failed(pick1, pick2),
    ensures
        ({
            let (g1, g2, _) = game_statuses(round_number, pick1, pick2, mpb1_wins, score);
            &&& g2.status == opposite(g1.status)
            &&& g1.status == GameStatusVal::WinScore || g1.status == GameStatusVal::LossScore
                || g1.status == GameStatusVal::Lead || g1.status == GameStatusVal::Trail
                || g1.status == GameStatusVal::Neutral
        }),
{
}

/// In a round with a failed pick, a bot wins by forfeit exactly when its own
/// pick was valid and the opponent's malformed, and a win by forfeit or on
/// time goes with the matching loss for the opponent.
pub proof fn lemma_forfeit_wins_match_losses(s1: PickStatus, s2: PickStatus)
    ensures
        forfeit_standing(s1, s2) == GameStatusVal::WinForfeit
            <==> (s1 == PickStatus::Valid && s2 == PickStatus::ParseError),
        forfeit_standing(s1, s2) == GameStatusVal::WinTime
            <==> (s1 == PickStatus::Valid && s2 == PickStatus::TimeOut),
        forfeit_standing(s1, s2) == GameStatusVal::WinForfeit
            ==> forfeit_standing(s2, s1) == opposite(forfeit_standing(s1, s2)),
        forfeit_standing(s1, s2) == GameStatusVal::WinTime
            ==> forfeit_standing(s2, s1) == opposite(forfeit_standing(s1, s2)),
{
}

/// In a round with a failed pick, for picks as `get_pick_internal` records
/// them, a bot loses exactly when its own pick failed, and bot 1's round
/// wins stay as they were.
pub proof fn lemma_failed_round_blames_failed_pick(
    round_number: u64,
    pick1: PickInternal,
    pick2: PickInternal,
    mpb1_wins: u64,
    score: u64,
)
    requires
        round_failed(pick1, pick2),
        consistent(pick1),
        consistent(pick2),
    ensures
        ({
            let (g1, g2, w1) = game_statuses(round_number, pick1, pick2, mpb1_wins, score);
            &&& is_loss(g1.status) <==> pick1.pick == PickVal::Failure
            &&& is_loss(g2.status) <==> pick2.pick == PickVal::Failure
            &&& w1 == mpb1_wins
        }),
{
}

/// Both status messages of a round carry the round number and the score;
/// bot 1 is shown bot 2's pick and bot 2 is shown bot 1's pick flipped.
pub proof fn lemma_statuses_share_round_and_score(
    round_number: u64,
    pick1: PickInternal,
    pick2: PickInternal,
    mpb1_wins: u64,
    score: u64,
)
    ensures
        ({
            let (g1, g2, _) = game_statuses(round_number, pick1, pick2, mpb1_wins, score);
            &&& g1.round == round_number && g2.round == round_number
            &&& g1.score == score && g2.score == score
            &&& g1.pick == pick2.pick
            &&& g2.pick == flipped(pick1.pick)
        }),
{
}

/// A round with a failed pick: nobody's round wins change, and each bot's
/// standing depends only on how the two picks arrived, whatever the pick
/// values: a valid pick against a malformed one wins by forfeit, against a
/// late one wins on time, a malformed pick of one's own loses by forfeit and
/// a late one loses on time; two valid deliveries leave both neutral.
pub proof fn lemma_failed_round_outcome(
    round_number: u64,
    pick1: PickInternal,
    pick2: PickInternal,
    mpb1_wins: u64,
    score: u64,
)
    requires
        pick1.pick == PickVal::Failure || pick2.pick == PickVal::Failure,
    ensures
        ({
            let (g1, g2, wins) = game_statuses(round_number, pick1, pick2, mpb1_wins, score);
            let (s1, s2) = (pick1.status, pick2.status);
            &&& wins == mpb1_wins
            &&& (s1 == PickStatus::Valid && s2 == PickStatus::Valid) ==> (g1.status
                == GameStatusVal::Neutral && g2.status == GameStatusVal::Neutral)
            &&& (s1 == PickStatus::Valid && s2 == PickStatus::ParseError) ==> (g1.status
                == GameStatusVal::WinForfeit && g2.status == GameStatusVal::LossForfeit)
            &&& (s1 == PickStatus::Valid && s2 == PickStatus::TimeOut) ==> (g1.status
                == GameStatusVal::WinTime && g2.status == GameStatusVal::LossTime)
            &&& (s1 == PickStatus::ParseError && s2 == PickStatus::Valid) ==> (g1.status
                == GameStatusVal::LossForfeit && g2.status == GameStatusVal::WinForfeit)
            &&& (s1 == PickStatus::ParseError && s2 == PickStatus::ParseError) ==> (g1.status
                == GameStatusVal::LossForfeit && g2.status == GameStatusVal::LossForfeit)
            &&& (s1 == PickStatus::ParseError && s2 == PickStatus::TimeOut) ==> (g1.status
                == GameStatusVal::LossForfeit && g2.status == GameStatusVal::LossTime)
            &&& (s1 == PickStatus::TimeOut && s2 == PickStatus::Valid) ==> (g1.status
                == GameStatusVal::LossTime && g2.status == GameStatusVal::WinTime)
            &&& (s1 == PickStatus::TimeOut && s2 == PickStatus::ParseError) ==> (g1.status
                == GameStatusVal::LossTime && g2.status == GameStatusVal::LossForfeit)
            &&& (s1 == PickStatus::TimeOut && s2 == PickStatus::TimeOut) ==> (g1.status
                == GameStatusVal::LossTime && g2.status == GameStatusVal::LossTime)
        }),
{
}

/// Two rounds with a failed pick whose picks arrived the same way give both
/// bots the same standings, whatever the pick values, round, wins or score.
pub proof fn lemma_failed_round_depends_on_delivery_only(
    round_a: u64,
    a1: PickInternal,
    a2: PickInternal,
    wins_a: u64,
    score_a: u64,
    round_b: u64,
    b1: PickInternal,
    b2: PickInternal,
    wins_b: u64,
    score_b: u64,
)
    requires
        round_failed(a1, a2),
        round_failed(b1, b2),
        a1.status == b1.status,
        a2.status == b2.status,
    ensures
        game_statuses(round_a, a1, a2, wins_a, score_a).0.status == game_statuses(
            round_b, b1, b2, wins_b, score_b).0.status,
        game_statuses(round_a, a1, a2, wins_a, score_a).1.status == game_statuses(
            round_b, b1, b2, wins_b, score_b).1.status,
{
}

/// A round where both picks are usable: matching picks add a round win for
/// bot 1 and differing picks one for bot 2, whose count is every other round
/// played.  On the new counts, a score of at least 100_000_000 with more
/// round wins wins the match for that bot and loses it for the other,
/// whatever the picks were; otherwise the bot with more round wins leads, and
/// level counts are neutral.  Bot 1 is shown bot 2's pick and bot 2 the
/// opposite of bot 1's.
pub proof fn lemma_valid_round_outcome(
    round_number: u64,
    pick1: PickInternal,
    pick2: PickInternal,
    mpb1_wins: u64,
    score: u64,
)
    requires
        1 <= round_number,
        mpb1_wins < round_number,
        pick1.pick != PickVal::Failure,
        pick2.pick != PickVal::Failure,
    ensures
        ({
            let (g1, g2, wins) = game_statuses(round_number, pick1, pick2, mpb1_wins, score);
            let w1: int = if pick1.pick == pick2.pick { mpb1_wins + 1 } else { mpb1_wins as int };
            let w2: int = round_number - w1;
            &&& wins == w1
            &&& (score >= 100_000_000 && w1 > w2) ==> (g1.status == GameStatusVal::WinScore
                && g2.status == GameStatusVal::LossScore)
            &&& (score >= 100_000_000 && w2 > w1) ==> (g1.status == GameStatusVal::LossScore
                && g2.status == GameStatusVal::WinScore)
            &&& (score < 100_000_000 && w1 > w2) ==> (g1.status == GameStatusVal::Lead && g2.status
                == GameStatusVal::Trail)
            &&& (score < 100_000_000 && w2 > w1) ==> (g1.status == GameStatusVal::Trail && g2.status
                == GameStatusVal::Lead)
            &&& w1 == w2 ==> (g1.status == GameStatusVal::Neutral && g2.status
                == GameStatusVal::Neutral)
            &&& g1.pick == pick2.pick
            &&& pick1.pick == PickVal::Zero ==> g2.pick == PickVal::One
            &&& pick1.pick == PickVal::One ==> g2.pick == PickVal::Zero
            &&& g1.round == round_number && g2.round == round_number
            &&& g1.score == score && g2.score == score
        }),
{
}

} // verus!
