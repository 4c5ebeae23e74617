use vstd::prelude::*;

use crate::types::{GameStatus, GameStatusInternal, GameStatusVal, PickVal};

verus! {

/// The character that shows a pick in a status message.
pub open spec fn pick_char(pick: PickVal) -> char {
    match pick {
        PickVal::Zero => '0',
        PickVal::One => '1',
        PickVal::Failure => '~',
    }
}

/// The character that shows a standing in a status message.
pub open spec fn status_char(status: GameStatusVal) -> char {
    match status {
        GameStatusVal::WinScore => 'w',
        GameStatusVal::LossScore => 'l',
        GameStatusVal::WinTime => 't',
        GameStatusVal::LossTime => 'i',
        GameStatusVal::WinForfeit => 'f',
        GameStatusVal::LossForfeit => 'o',
        GameStatusVal::Lead => 'e',
        GameStatusVal::Trail => 'r',
        GameStatusVal::Neutral => 'n',
    }
}

/// The status message for a status: round and score as they are, pick and
/// standing as characters.
pub open spec fn status_message(status: GameStatusInternal) -> GameStatus {
    GameStatus {
        r: status.round,
        p: pick_char(status.pick),
        s: status.score,
        t: status_char(status.status),
    }
}

/// Puts a status into the message form that is sent to a bot.
pub fn gsi_to_gs(mpb_game_status: &GameStatusInternal) -> (res: GameStatus)
    ensures
        res == status_message(*mpb_game_status),
{
    let pick_char = match mpb_game_status.pick {
        PickVal::Zero => '0',
        PickVal::One => '1',
        PickVal::Failure => '~',
    };
    let status_char = match mpb_game_status.status {
        GameStatusVal::WinScore => 'w',
        GameStatusVal::LossScore => 'l',
        GameStatusVal::WinTime => 't',
        GameStatusVal::LossTime => 'i',
        GameStatusVal::WinForfeit => 'f',
        GameStatusVal::LossForfeit => 'o',
        GameStatusVal::Lead => 'e',
        GameStatusVal::Trail => 'r',
        GameStatusVal::Neutral => 'n',
    };
    GameStatus { r: mpb_game_status.round, p: pick_char, s: mpb_game_status.score, t: status_char }
}

/// The status message both bots receive before the first round: round 0,
/// no pick shown (`'^'`), score 0, neutral.
pub open spec fn opening_message() -> GameStatus {
    GameStatus { r: 0, p: '^', s: 0, t: 'n' }
}

/// The status message both bots receive before the first round.
pub fn initial_status() -> (res: GameStatus)
    ensures
        res == opening_message(),
{
    GameStatus { r: 0, p: '^', s: 0, t: 'n' }
}

/// A bot can read its status back from the message: different statuses give
/// different messages.
pub proof fn lemma_status_message_injective(a: GameStatusInternal, b: GameStatusInternal)
    requires
        status_message(a) == status_message(b),
    ensures
        a == b,
{
}

/// The opening message is round 0 with score 0, no pick shown (`'^'`) and a
/// neutral standing; it is never the message of a played round, since no
/// round's message shows `'^'` as its pick.
pub proof fn lemma_opening_message_distinct(status: GameStatusInternal)
    ensures
        status_message(status) != opening_message(),
        opening_message().r == 0 && opening_message().s == 0,
        opening_message().p == '^' && opening_message().t == 'n',
{
}

/// The standing character depends on the standing alone and the pick
/// character on the pick alone; round and score are copied.  Each standing
/// and each pick has its own character.
pub proof fn lemma_message_fields(a: GameStatusInternal, b: GameStatusInternal)
    ensures
        status_message(a).r == a.round,
        status_message(a).s == a.score,
        a.status == b.status ==> status_message(a).t == status_message(b).t,
        a.pick == b.pick ==> status_message(a).p == status_message(b).p,
        a.pick == PickVal::Zero ==> status_message(a).p == '0',
        a.pick == PickVal::One ==> status_message(a).p == '1',
        a.pick == PickVal::Failure ==> status_message(a).p == '~',
        a.status == GameStatusVal::WinScore ==> status_message(a).t == 'w',
        a.status == GameStatusVal::LossScore ==> status_message(a).t == 'l',
        a.status == GameStatusVal::WinTime ==> status_message(a).t == 't',
        a.status == GameStatusVal::LossTime ==> status_message(a).t == 'i',
        a.status == GameStatusVal::WinForfeit ==> status_message(a).t == 'f',
        a.status == GameStatusVal::LossForfeit ==> status_message(a).t == 'o',
        a.status == GameStatusVal::Lead ==> status_message(a).t == 'e',
        a.status == GameStatusVal::Trail ==> status_message(a).t == 'r',
        a.status == GameStatusVal::Neutral ==> status_message(a).t == 'n',
{
}

} // verus!
