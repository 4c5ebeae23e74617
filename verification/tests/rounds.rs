use std::cell::Cell;

use matching_pennies::{
    check_for_score_winner, flip_pick, get_game_statuses, get_pick_internal, gsi_to_gs, initial_status,
    winner_by_score, GameStatus, GameStatusInternal, GameStatusVal, MatchServer, MatchingPenniesBot, Pick,
    PickInternal, PickStatus, PickVal, WINNING_SCORE,
};

fn float_score(mpb1_wins: u64, mpb2_wins: u64, number_of_rounds: u64) -> u64 {
    let expected = (number_of_rounds / 2) as f64;
    let n = number_of_rounds as f64;
    let win_factor = ((mpb1_wins as f64 - expected).powf(2.0)) / n + ((mpb2_wins as f64 - expected).powf(2.0)) / n;
    (((win_factor / 3.84) * 100_000_000 as f64).trunc()) as u64
}

fn valid(pick: PickVal) -> PickInternal {
    PickInternal { pick, status: PickStatus::Valid }
}

fn failed(status: PickStatus) -> PickInternal {
    PickInternal { pick: PickVal::Failure, status }
}

#[test]
fn pick_internal_reads_zero_and_one() {
    assert_eq!(
        get_pick_internal(&Some(Pick { p: '0' })),
        PickInternal { pick: PickVal::Zero, status: PickStatus::Valid }
    );
    assert_eq!(
        get_pick_internal(&Some(Pick { p: '1' })),
        PickInternal { pick: PickVal::One, status: PickStatus::Valid }
    );
}

#[test]
fn pick_internal_rejects_other_picks() {
    let parse_error = PickInternal { pick: PickVal::Failure, status: PickStatus::ParseError };
    assert_eq!(get_pick_internal(&Some(Pick { p: '2' })), parse_error);
    assert_eq!(get_pick_internal(&Some(Pick { p: '^' })), parse_error);
    assert_eq!(get_pick_internal(&None), parse_error);
}

#[test]
fn flip_swaps_zero_and_one() {
    assert_eq!(flip_pick(PickVal::Zero), PickVal::One);
    assert_eq!(flip_pick(PickVal::One), PickVal::Zero);
    assert_eq!(flip_pick(PickVal::Failure), PickVal::Failure);
    assert_eq!(flip_pick(flip_pick(PickVal::One)), PickVal::One);
}

#[test]
fn winner_needs_threshold_score() {
    assert_eq!(WINNING_SCORE, 100_000_000);
    assert_eq!(winner_by_score(5, 3, 100_000_000), MatchingPenniesBot::MPB1);
    assert_eq!(winner_by_score(5, 3, 99_999_999), MatchingPenniesBot::Neither);
    assert_eq!(winner_by_score(3, 5, 100_000_000), MatchingPenniesBot::MPB2);
    assert_eq!(winner_by_score(4, 4, 900_000_000), MatchingPenniesBot::Neither);
}

#[test]
fn check_for_score_winner_scores_once() {
    let calls = Cell::new(0u32);
    let seen = Cell::new((0u64, 0u64, 0u64));
    let (winner, score) = check_for_score_winner(7, 1, 8, |a, b, n| {
        calls.set(calls.get() + 1);
        seen.set((a, b, n));
        float_score(a, b, n)
    });
    assert_eq!(calls.get(), 1);
    assert_eq!(seen.get(), (7, 1, 8));
    // ((7-4)^2 + (1-4)^2) / 8 = 2.25; 2.25 / 3.84 * 1e8 = 58593750
    assert_eq!(score, 58_593_750);
    assert_eq!(winner, MatchingPenniesBot::Neither);
}

#[test]
fn check_for_score_winner_decides_on_returned_score() {
    assert_eq!(check_for_score_winner(8, 0, 8, float_score), (MatchingPenniesBot::MPB1, 104_166_666));
    assert_eq!(check_for_score_winner(0, 8, 8, float_score), (MatchingPenniesBot::MPB2, 104_166_666));
    assert_eq!(check_for_score_winner(2, 1, 3, |_, _, _| 123), (MatchingPenniesBot::Neither, 123));
}

#[test]
fn matching_picks_give_round_to_bot_one() {
    let seen = Cell::new((0u64, 0u64, 0u64));
    let (g1, g2, wins) = get_game_statuses(3, &valid(PickVal::One), &valid(PickVal::One), 1, |a, b, n| {
        seen.set((a, b, n));
        5
    });
    assert_eq!(seen.get(), (2, 1, 3));
    assert_eq!(wins, 2);
    assert_eq!(g1, GameStatusInternal { round: 3, pick: PickVal::One, score: 5, status: GameStatusVal::Lead });
    assert_eq!(g2, GameStatusInternal { round: 3, pick: PickVal::Zero, score: 5, status: GameStatusVal::Trail });
}

#[test]
fn differing_picks_give_round_to_bot_two() {
    let seen = Cell::new((0u64, 0u64, 0u64));
    let (g1, g2, wins) = get_game_statuses(2, &valid(PickVal::Zero), &valid(PickVal::One), 1, |a, b, n| {
        seen.set((a, b, n));
        0
    });
    assert_eq!(seen.get(), (1, 1, 2));
    assert_eq!(wins, 1);
    assert_eq!(g1.status, GameStatusVal::Neutral);
    assert_eq!(g2.status, GameStatusVal::Neutral);
    assert_eq!(g1.pick, PickVal::One);
    assert_eq!(g2.pick, PickVal::One);
}

#[test]
fn score_winner_sets_win_and_loss() {
    let (g1, g2, wins) =
        get_game_statuses(8, &valid(PickVal::Zero), &valid(PickVal::Zero), 7, float_score);
    assert_eq!(wins, 8);
    assert_eq!(g1.score, 104_166_666);
    assert_eq!(g1.status, GameStatusVal::WinScore);
    assert_eq!(g2.status, GameStatusVal::LossScore);

    let (g1, g2, wins) =
        get_game_statuses(8, &valid(PickVal::Zero), &valid(PickVal::One), 0, float_score);
    assert_eq!(wins, 0);
    assert_eq!(g1.status, GameStatusVal::LossScore);
    assert_eq!(g2.status, GameStatusVal::WinScore);
}

#[test]
fn failed_picks_follow_the_forfeit_table() {
    let (v, p, t) = (PickStatus::Valid, PickStatus::ParseError, PickStatus::TimeOut);
    let cases = [
        (v, p, GameStatusVal::WinForfeit, GameStatusVal::LossForfeit),
        (v, t, GameStatusVal::WinTime, GameStatusVal::LossTime),
        (p, v, GameStatusVal::LossForfeit, GameStatusVal::WinForfeit),
        (p, p, GameStatusVal::LossForfeit, GameStatusVal::LossForfeit),
        (p, t, GameStatusVal::LossForfeit, GameStatusVal::LossTime),
        (t, v, GameStatusVal::LossTime, GameStatusVal::WinTime),
        (t, p, GameStatusVal::LossTime, GameStatusVal::LossForfeit),
        (t, t, GameStatusVal::LossTime, GameStatusVal::LossTime),
    ];
    for (s1, s2, want1, want2) in cases {
        let p1 = if s1 == PickStatus::Valid { valid(PickVal::Zero) } else { failed(s1) };
        let p2 = if s2 == PickStatus::Valid { valid(PickVal::One) } else { failed(s2) };
        let (g1, g2, wins) = get_game_statuses(4, &p1, &p2, 2, |_, _, _| 999_999_999);
        assert_eq!((g1.status, g2.status), (want1, want2));
        assert_eq!(wins, 2);
        assert_eq!(g1.score, 999_999_999);
    }
}

#[test]
fn failed_pick_with_valid_status_is_neutral() {
    let p1 = PickInternal { pick: PickVal::Failure, status: PickStatus::Valid };
    let (g1, g2, wins) = get_game_statuses(1, &p1, &valid(PickVal::One), 0, |_, _, _| 0);
    assert_eq!((g1.status, g2.status), (GameStatusVal::Neutral, GameStatusVal::Neutral));
    assert_eq!(wins, 0);
    assert_eq!(g2.pick, PickVal::Failure);
}

#[test]
fn status_message_characters() {
    let table = [
        (GameStatusVal::WinScore, 'w'),
        (GameStatusVal::LossScore, 'l'),
        (GameStatusVal::WinTime, 't'),
        (GameStatusVal::LossTime, 'i'),
        (GameStatusVal::WinForfeit, 'f'),
        (GameStatusVal::LossForfeit, 'o'),
        (GameStatusVal::Lead, 'e'),
        (GameStatusVal::Trail, 'r'),
        (GameStatusVal::Neutral, 'n'),
    ];
    for (status, c) in table {
        let gs = gsi_to_gs(&GameStatusInternal { round: 9, pick: PickVal::One, score: 77, status });
        assert_eq!(gs, GameStatus { r: 9, p: '1', s: 77, t: c });
    }
    let gs = gsi_to_gs(&GameStatusInternal { round: 1, pick: PickVal::Zero, score: 0, status: GameStatusVal::Neutral });
    assert_eq!(gs.p, '0');
    let gs = gsi_to_gs(&GameStatusInternal { round: 1, pick: PickVal::Failure, score: 0, status: GameStatusVal::Neutral });
    assert_eq!(gs.p, '~');
}

#[test]
fn opening_status() {
    assert_eq!(initial_status(), GameStatus { r: 0, p: '^', s: 0, t: 'n' });
    let server = MatchServer::new();
    let msgs = server.opening_messages();
    assert_eq!(msgs.to_mpb1, initial_status());
    assert_eq!(msgs.to_mpb2, initial_status());
    assert_eq!(server.total_rounds(), 0);
    assert_eq!(server.mpb1_wins(), 0);
}

#[test]
fn server_bot_one_wins_on_score_in_round_eight() {
    let mut server = MatchServer::new();
    for round in 1..=8u64 {
        let msgs = server.play_round(&Some(Pick { p: '0' }), &Some(Pick { p: '0' }), float_score);
        assert_eq!(server.total_rounds(), round);
        assert_eq!(server.mpb1_wins(), round);
        // Bot 2's connection carries bot 1's status, which shows bot 2's pick.
        assert_eq!(msgs.to_mpb2.p, '0');
        // Bot 1's connection carries bot 2's status, which shows bot 1's pick flipped.
        assert_eq!(msgs.to_mpb1.p, '1');
        assert_eq!(msgs.to_mpb1.r, round);
        assert_eq!(msgs.to_mpb1.s, msgs.to_mpb2.s);
        if round < 8 {
            assert_eq!(msgs.to_mpb2.t, 'e');
            assert_eq!(msgs.to_mpb1.t, 'r');
        } else {
            assert_eq!(msgs.to_mpb2.t, 'w');
            assert_eq!(msgs.to_mpb1.t, 'l');
            assert_eq!(msgs.to_mpb1.s, 104_166_666);
        }
    }
}

#[test]
fn server_counts_failed_round_for_bot_two_later() {
    let mut server = MatchServer::new();
    let msgs = server.play_round(&None, &Some(Pick { p: '0' }), float_score);
    assert_eq!(msgs.to_mpb2.t, 'o');
    assert_eq!(msgs.to_mpb1.t, 'f');
    assert_eq!(msgs.to_mpb1.p, '~');
    assert_eq!(server.mpb1_wins(), 0);
    // Round 2: bot 1 wins it, and the failed round counts as bot 2's.
    let msgs = server.play_round(&Some(Pick { p: '1' }), &Some(Pick { p: '1' }), |a, b, n| {
        assert_eq!((a, b, n), (1, 1, 2));
        float_score(a, b, n)
    });
    assert_eq!(server.mpb1_wins(), 1);
    assert_eq!(msgs.to_mpb2.t, 'n');
    assert_eq!(msgs.to_mpb1.t, 'n');
    assert_eq!(msgs.to_mpb1.s, 0);
}

#[test]
fn server_bot_two_leads_on_differing_picks() {
    let mut server = MatchServer::new();
    let msgs = server.play_round(&Some(Pick { p: '0' }), &Some(Pick { p: '1' }), float_score);
    assert_eq!(server.mpb1_wins(), 0);
    assert_eq!(msgs.to_mpb2.t, 'r');
    assert_eq!(msgs.to_mpb1.t, 'e');
    assert_eq!(msgs.to_mpb2.p, '1');
    assert_eq!(msgs.to_mpb1.p, '1');
    assert_eq!(msgs.to_mpb1.s, 26_041_666);
}
