use vstd::prelude::*;

verus! {

/// A pick as a bot sends it: the character `'0'` or `'1'` when well formed.
#[derive(PartialEq, Eq, Structural, Debug, Clone, Copy)]
pub struct Pick {
    pub p: char,
}

/// The status message a bot receives before each round.
#[derive(PartialEq, Eq, Structural, Debug, Clone, Copy)]
pub struct GameStatus {
    /// Round number.
    pub r: u64,
    /// The pick shown to the bot, as a character.
    pub p: char,
    /// Match score.
    pub s: u64,
    /// The bot's standing, as a character.
    pub t: char,
}

/// The referee's own form of a status message, before it is put into characters.
#[derive(PartialEq, Eq, Structural, Debug, Clone, Copy)]
pub struct GameStatusInternal {
    pub round: u64,
    pub pick: PickVal,
    pub score: u64,
    pub status: GameStatusVal,
}

/// One of the two bots, or neither of them.
#[derive(PartialEq, Eq, Structural, Debug, Clone, Copy)]
pub enum MatchingPenniesBot {
    MPB1,
    MPB2,
    Neither,
}

/// A bot's standing in the match.
#[derive(PartialEq, Eq, Structural, Debug, Clone, Copy)]
pub enum GameStatusVal {
    WinScore,
    LossScore,
    WinTime,
    LossTime,
    WinForfeit,
    LossForfeit,
    Lead,
    Trail,
    Neutral,
}

/// The value of a pick: zero, one, or no usable pick.
#[derive(PartialEq, Eq, Structural, Debug, Clone, Copy)]
pub enum PickVal {
    Zero,
    One,
    Failure,
}

/// How a pick arrived: well formed, malformed, or too late.
#[derive(PartialEq, Eq, Structural, Debug, Clone, Copy)]
pub enum PickStatus {
    Valid,
    ParseError,
    TimeOut,
}

/// A pick as the referee records it.
#[derive(PartialEq, Eq, Structural, Debug, Clone, Copy)]
pub struct PickInternal {
    pub pick: PickVal,
    pub status: PickStatus,
}

} // verus!
