use vstd::prelude::*;

use crate::types::{Pick, PickInternal, PickStatus, PickVal};

verus! {

/// What the referee records for a received pick: `'0'` and `'1'` are valid
/// picks, and anything else (a malformed message, or any other character)
/// is a failed pick with a parse error.
pub open spec fn pick_internal_of(pick: Option<Pick>) -> PickInternal {
    if pick == Some(Pick { p: '0' }) {
        PickInternal { pick: PickVal::Zero, status: PickStatus::Valid }
    } else if pick == Some(Pick { p: '1' }) {
        PickInternal { pick: PickVal::One, status: PickStatus::Valid }
    } else {
        PickInternal { pick: PickVal::Failure, status: PickStatus::ParseError }
    }
}

/// The opposite pick; a failed pick stays failed.
pub open spec fn flipped(pick: PickVal) -> PickVal {
    match pick {
        PickVal::Zero => PickVal::One,
        PickVal::One => PickVal::Zero,
        PickVal::Failure => PickVal::Failure,
    }
}

/// A recorded pick is consistent when it is a failure exactly when its
/// status is not `Valid`.
pub open spec fn consistent(pick: PickInternal) -> bool {
    (pick.pick == PickVal::Failure) <==> (pick.status != PickStatus::Valid)
}

/// Turns a received (and possibly undecodable) pick into the referee's record.
pub fn get_pick_internal(pick_option: &Option<Pick>) -> (res: PickInternal)
    ensures
        res == pick_internal_of(*pick_option),
{
    match pick_option {
        Some(Pick { p: '0' }) => PickInternal { pick: PickVal::Zero, status: PickStatus::Valid },
        Some(Pick { p: '1' }) => PickInternal { pick: PickVal::One, status: PickStatus::Valid },
        _ => PickInternal { pick: PickVal::Failure, status: PickStatus::ParseError },
    }
}

/// The opposite pick, as shown to the second bot.
pub fn flip_pick(pick: PickVal) -> (res: PickVal)
    ensures
        res == flipped(pick),
{
    match pick {
        PickVal::Zero => PickVal::One,
        PickVal::One => PickVal::Zero,
        PickVal::Failure => PickVal::Failure,
    }
}

/// Every record that `get_pick_internal` produces is consistent: a pick
/// fails exactly when it did not arrive well formed.
pub proof fn lemma_pick_internal_consistent(pick: Option<Pick>)
    ensures
        consistent(pick_internal_of(pick)),
        pick_internal_of(pick).status != PickStatus::TimeOut,
{
}

/// Flipping a pick twice gives the pick back.
pub proof fn lemma_flip_involution(pick: PickVal)
    ensures
        flipped(flipped(pick)) == pick,
{
}

/// Only the characters `'0'` and `'1'` are picks: `'0'` reads as a valid
/// zero and `'1'` as a valid one, and every other character, like a reply
/// that could not be decoded, reads as a failed pick with a parse error.
pub proof fn lemma_only_zero_and_one_are_picks(pick: Option<Pick>)
    ensures
        pick_internal_of(pick).status == PickStatus::Valid
            ==> (pick == Some(Pick { p: '0' }) || pick == Some(Pick { p: '1' })),
        pick == Some(Pick { p: '0' })
            ==> pick_internal_of(pick) == (PickInternal { pick: PickVal::Zero, status: PickStatus::Valid }),
        pick == Some(Pick { p: '1' })
            ==> pick_internal_of(pick) == (PickInternal { pick: PickVal::One, status: PickStatus::Valid }),
        (pick != Some(Pick { p: '0' }) && pick != Some(Pick { p: '1' })) ==> pick_internal_of(pick) == (
        PickInternal { pick: PickVal::Failure, status: PickStatus::ParseError }),
{
}

} // verus!
