//! Referee logic for a matching-pennies match between two bots.
//!
//! Each round the referee receives one pick from each bot, decides the
//! round, keeps the running tally, scores the match, and builds the status
//! message that each bot receives next.  Bot 1 wins a round when the picks
//! match, bot 2 when they differ.  Transport, message encoding and the
//! floating-point score formula live outside this crate; the score formula is
//! handed in as a function of `(mpb1_wins, mpb2_wins, number_of_rounds)`.

pub mod picks;
pub mod scoring;
pub mod server;
pub mod status;
pub mod types;
pub mod wire;

pub use picks::{flip_pick, get_pick_internal};
pub use server::{MatchServer, RoundMessages};
pub use scoring::{check_for_score_winner, winner_by_score, WINNING_SCORE};
pub use status::get_game_statuses;
pub use types::{
    GameStatus, GameStatusInternal, GameStatusVal, MatchingPenniesBot, Pick, PickInternal, PickStatus,
    PickVal,
};
pub use wire::{gsi_to_gs, initial_status};
