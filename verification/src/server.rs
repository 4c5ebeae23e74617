use vstd::prelude::*;

use crate::picks::{get_pick_internal, pick_internal_of};
use crate::status::{game_statuses, get_game_statuses, round_tally};
use crate::types::{GameStatus, Pick};
use crate::wire::{gsi_to_gs, initial_status, opening_message, status_message};

verus! {

/// The two messages the referee sends before a round: `to_mpb1` goes out on
/// bot 1's connection and `to_mpb2` on bot 2's.
#[derive(PartialEq, Eq, Structural, Debug, Clone, Copy)]
pub struct RoundMessages {
    pub to_mpb1: GameStatus,
    pub to_mpb2: GameStatus,
}

/// The referee's state between rounds: the rounds played so far and bot 1's
/// round wins among them.
pub struct MatchServer {
    mpb1_wins: u64,
    total_rounds: u64,
}

impl MatchServer {
    #[verifier::type_invariant]
    spec fn wins_within_rounds(self) -> bool {
        self.mpb1_wins <= self.total_rounds
    }

    /// The number of rounds played so far.
    pub closed spec fn rounds_played(self) -> u64 {
        self.total_rounds
    }

    /// Bot 1's round wins so far.
    pub closed spec fn mpb1_round_wins(self) -> u64 {
        self.mpb1_wins
    }

    /// A match before its first round.
    pub fn new() -> (server: Self)
        ensures
            server.rounds_played() == 0,
            server.mpb1_round_wins() == 0,
    {
        MatchServer { mpb1_wins: 0, total_rounds: 0 }
    }

    /// The number of rounds played so far.
    pub fn total_rounds(&self) -> (rounds: u64)
        ensures
            rounds == self.rounds_played(),
    {
        self.total_rounds
    }

    /// Bot 1's round wins so far; never more than the rounds played.
    pub fn mpb1_wins(&self) -> (wins: u64)
        ensures
            wins == self.mpb1_round_wins(),
            wins <= self.rounds_played(),
    {
        proof {
            use_type_invariant(self);
        }
        self.mpb1_wins
    }

    /// The messages sent before the first round: the opening status to both
    /// bots.
    pub fn opening_messages(&self) -> (msgs: RoundMessages)
        ensures
            msgs.to_mpb1 == opening_message(),
            msgs.to_mpb2 == opening_message(),
    {
        RoundMessages { to_mpb1: initial_status(), to_mpb2: initial_status() }
    }

    /// Plays the next round on the picks received from bot 1 and bot 2
    /// (`None` where a reply could not be decoded), scoring the match with
    /// `score_of`.  Counts the round, records bot 1's round wins, and returns
    /// the messages for the next exchange: bot 1's connection carries the
    /// status built for bot 2 and bot 2's connection the status built for
    /// bot 1.
    pub fn play_round<F: Fn(u64, u64, u64) -> u64>(
        &mut self,
        mpb1_pick: &Option<Pick>,
        mpb2_pick: &Option<Pick>,
        score_of: F,
    ) -> (msgs: RoundMessages)
        requires
            old(self).rounds_played() < u64::MAX,
            forall|a: u64, b: u64, n: u64| call_requires(score_of, (a, b, n)),
        ensures
            ({
                let round = (old(self).rounds_played() + 1) as u64;
                let pick1 = pick_internal_of(*mpb1_pick);
                let pick2 = pick_internal_of(*mpb2_pick);
                let (w1, w2) = round_tally(round, pick1.pick, pick2.pick, old(self).mpb1_round_wins());
                let score = msgs.to_mpb1.s;
                let (g1, g2, wins) = game_statuses(round, pick1, pick2, old(self).mpb1_round_wins(), score);
                &&& call_ensures(score_of, (w1 as u64, w2 as u64, round), score)
                &&& final(self).rounds_played() == round
                &&& final(self).mpb1_round_wins() == wins
                &&& msgs.to_mpb1 == status_message(g2)
                &&& msgs.to_mpb2 == status_message(g1)
            }),
            final(self).mpb1_round_wins() <= final(self).rounds_played(),
    {
        proof {
            use_type_invariant(&*self);
        }
        let mpb1_pick_internal = get_pick_internal(mpb1_pick);
        let mpb2_pick_internal = get_pick_internal(mpb2_pick);
        let round = self.total_rounds + 1;
        let new_statuses = get_game_statuses(
            round,
            &mpb1_pick_internal,
            &mpb2_pick_internal,
            self.mpb1_wins,
            score_of,
        );
        proof {
            crate::status::lemma_round_tally(
                round,
                mpb1_pick_internal.pick,
                mpb2_pick_internal.pick,
                self.mpb1_wins,
            );
        }
        self.total_rounds = round;
        self.mpb1_wins = new_statuses.2;
        let mpb1_status = gsi_to_gs(&new_statuses.0);
        let mpb2_status = gsi_to_gs(&new_statuses.1);
        RoundMessages { to_mpb1: mpb2_status, to_mpb2: mpb1_status }
    }
}

} // verus!
