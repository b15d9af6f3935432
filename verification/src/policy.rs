//! Defender dice-count policies.
//!
//! The canonical policy (`compute_defender_dice_number_0`) always rolls the
//! maximum available number of dice. The three further variants add
//! heuristics over the attacker's two highest dice; they are offered for
//! experimentation and are not used by the simulation itself.

use vstd::prelude::*;

use crate::dice::all_die_faces;

verus! {

/// Sum of the (up to) two leading dice of a pool sorted descending, that is
/// of its two highest dice.
pub open spec fn top_two_sum(dice: Seq<u8>) -> int {
    if dice.len() == 0 {
        0
    } else if dice.len() == 1 {
        dice[0] as int
    } else {
        dice[0] + dice[1]
    }
}

/// The canonical policy: roll as many dice as the rules allow.
pub open spec fn spec_defender_dice_number_0(defenders_nbr: u32) -> u32 {
    if defenders_nbr == 1 {
        1u32
    } else {
        2u32
    }
}

/// Hold with one die when the attacker's two highest dice sum to 8 or more.
pub open spec fn spec_defender_dice_number_1(attacker_dice: Seq<u8>, defenders_nbr: u32) -> u32 {
    if defenders_nbr == 1 {
        1u32
    } else if top_two_sum(attacker_dice) >= 8 {
        1u32
    } else {
        2u32
    }
}

/// As variant 1, but always roll two dice while exactly two units defend.
pub open spec fn spec_defender_dice_number_2(attacker_dice: Seq<u8>, defenders_nbr: u32) -> u32 {
    if defenders_nbr == 1 {
        1u32
    } else if defenders_nbr == 2 {
        2u32
    } else if top_two_sum(attacker_dice) >= 8 {
        1u32
    } else {
        2u32
    }
}

/// As variant 2, but also always roll two dice against three or fewer
/// attacking units.
pub open spec fn spec_defender_dice_number_3(
    attacker_dice: Seq<u8>,
    attackers_nbr: u32,
    defenders_nbr: u32,
) -> u32 {
    if defenders_nbr == 1 {
        1u32
    } else if defenders_nbr == 2 {
        2u32
    } else if attackers_nbr <= 3 {
        2u32
    } else if top_two_sum(attacker_dice) >= 8 {
        1u32
    } else {
        2u32
    }
}

/// The canonical defender policy: one die with a single defending unit,
/// two dice otherwise.
pub fn compute_defender_dice_number_0(
    attacker_dice: &Vec<u8>,
    attackers_nbr: &u32,
    defenders_nbr: &u32,
) -> (r: u32)
    requires
        *defenders_nbr >= 1,
    ensures
        r == spec_defender_dice_number_0(*defenders_nbr),
        1 <= r <= 2,
        r <= *defenders_nbr,
{
    if *defenders_nbr == 1 {
        1
    } else {
        2
    }
}

/// Cautious variant: hold with one die when the attacker's two highest dice
/// sum to 8 or more.
pub fn compute_defender_dice_number_1(
    attacker_dice: &Vec<u8>,
    attackers_nbr: &u32,
    defenders_nbr: &u32,
) -> (r: u32)
    requires
        *defenders_nbr >= 1,
        all_die_faces(attacker_dice@),
    ensures
        r == spec_defender_dice_number_1(attacker_dice@, *defenders_nbr),
        1 <= r <= 2,
        r <= *defenders_nbr,
{
    if *defenders_nbr == 1 {
        return 1;
    }
    let sum = top_two_dice_sum(attacker_dice);
    if sum >= 8 {
        1
    } else {
        2
    }
}

/// Cautious variant that never holds back while exactly two units defend.
pub fn compute_defender_dice_number_2(
    attacker_dice: &Vec<u8>,
    attackers_nbr: &u32,
    defenders_nbr: &u32,
) -> (r: u32)
    requires
        *defenders_nbr >= 1,
        all_die_faces(attacker_dice@),
    ensures
        r == spec_defender_dice_number_2(attacker_dice@, *defenders_nbr),
        1 <= r <= 2,
        r <= *defenders_nbr,
{
    if *defenders_nbr == 1 {
        return 1;
    }
    if *defenders_nbr == 2 {
        return 2;
    }
    let sum = top_two_dice_sum(attacker_dice);
    if sum >= 8 {
        1
    } else {
        2
    }
}

/// Cautious variant that also never holds back against three or fewer
/// attacking units.
pub fn compute_defender_dice_number_3(
    attacker_dice: &Vec<u8>,
    attackers_nbr: &u32,
    defenders_nbr: &u32,
) -> (r: u32)
    requires
        *defenders_nbr >= 1,
        all_die_faces(attacker_dice@),
    ensures
        r == spec_defender_dice_number_3(attacker_dice@, *attackers_nbr, *defenders_nbr),
        1 <= r <= 2,
        r <= *defenders_nbr,
{
    if *defenders_nbr == 1 {
        return 1;
    }
    if *defenders_nbr == 2 {
        return 2;
    }
    if *attackers_nbr <= 3 {
        return 2;
    }
    let sum = top_two_dice_sum(attacker_dice);
    if sum >= 8 {
        1
    } else {
        2
    }
}

/// Sum of the first two dice of the pool (fewer when the pool is smaller).
fn top_two_dice_sum(dice: &Vec<u8>) -> (r: u8)
    requires
        all_die_faces(dice@),
    ensures
        r == top_two_sum(dice@),
{
    if dice.len() == 0 {
        0
    } else if dice.len() == 1 {
        dice[0]
    } else {
        dice[0] + dice[1]
    }
}

} // verus!
