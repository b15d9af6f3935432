//! Resolution of one battle: dice pools, pairwise comparison, attrition,
//! and the terminal state.

use vstd::prelude::*;

use crate::dice::all_die_faces;
use crate::dice::compute_attacker_dice_number;
use crate::dice::draw_sorted_dice_pool;
use crate::dice::sort_desc;
use crate::dice::sorted_descending;
use crate::dice::sorted_pool_from;
use crate::dice::spec_attacker_dice_number;
use crate::policy::compute_defender_dice_number_0;
use crate::policy::spec_defender_dice_number_0;
use crate::text::decimal_digits;
use crate::text::u32_to_decimal;
use vstd::string::StringExecFns;

verus! {

/// The side that wins a battle.
#[allow(non_camel_case_types)]
#[derive(Debug, Clone, Copy, PartialEq, Eq, Structural)]
pub enum Player {
    ATTACKER,
    DEFENDER,
}

/// Outcome of one battle: the winning side and the units left on each side.
#[derive(Debug, Clone, Copy, PartialEq, Eq, Structural)]
pub struct BattleResult {
    pub winner: Player,
    pub remaining_attackers_nbr: u32,
    pub remaining_defenders_nbr: u32,
}

/// The human-readable report for a battle result: the winner's name and the
/// units it has left.
pub open spec fn battle_report_text(r: BattleResult) -> Seq<char> {
    (match r.winner {
        Player::ATTACKER => "Attacker"@,
        Player::DEFENDER => "Defender"@,
    }) + " wins with "@ + decimal_digits(
        (match r.winner {
            Player::ATTACKER => r.remaining_attackers_nbr,
            Player::DEFENDER => r.remaining_defenders_nbr,
        }) as int,
    ) + " unit(s) remaining"@
}

impl BattleResult {
    /// Render the result as the report line the program prints.
    pub fn to_string(&self) -> (r: String)
        ensures
            r@ == battle_report_text(*self),
    {
        let name: &str = match self.winner {
            Player::ATTACKER => "Attacker",
            Player::DEFENDER => "Defender",
        };
        let remaining_nbr: u32 = match self.winner {
            Player::ATTACKER => self.remaining_attackers_nbr,
            Player::DEFENDER => self.remaining_defenders_nbr,
        };
        let mut s = name.to_owned();
        s.append(" wins with ");
        let num = u32_to_decimal(remaining_nbr);
        s.append(num.as_str());
        s.append(" unit(s) remaining");
        proof {
            assert(s@ =~= battle_report_text(*self));
        }
        s
    }
}

/// Number of the first `n` die pairs the attacker loses: pairs where the
/// defender's die is at least the attacker's (the defender wins ties).
pub open spec fn attacker_losses(a_dice: Seq<u8>, d_dice: Seq<u8>, n: int) -> int
    decreases n,
{
    if n <= 0 {
        0
    } else {
        attacker_losses(a_dice, d_dice, n - 1) + if d_dice[n - 1] >= a_dice[n - 1] {
            1int
        } else {
            0int
        }
    }
}

/// Number of the first `n` die pairs the defender loses: pairs where the
/// attacker's die is strictly higher.
pub open spec fn defender_losses(a_dice: Seq<u8>, d_dice: Seq<u8>, n: int) -> int
    decreases n,
{
    if n <= 0 {
        0
    } else {
        defender_losses(a_dice, d_dice, n - 1) + if d_dice[n - 1] >= a_dice[n - 1] {
            0int
        } else {
            1int
        }
    }
}

/// Each die pair costs exactly one side exactly one unit, so over `n` pairs
/// the two sides' losses are non-negative and sum to `n`.
pub proof fn lemma_round_losses(a_dice: Seq<u8>, d_dice: Seq<u8>, n: int)
    requires
        n >= 0,
    ensures
        attacker_losses(a_dice, d_dice, n) + defender_losses(a_dice, d_dice, n) == n,
        0 <= attacker_losses(a_dice, d_dice, n) <= n,
        0 <= defender_losses(a_dice, d_dice, n) <= n,
    decreases n,
{
    if n > 0 {
        lemma_round_losses(a_dice, d_dice, n - 1);
    }
}

/// Smaller of the two pool sizes: the number of die pairs in a round.
pub open spec fn paired_dice(a_dice: Seq<u8>, d_dice: Seq<u8>) -> int {
    if a_dice.len() <= d_dice.len() {
        a_dice.len() as int
    } else {
        d_dice.len() as int
    }
}

/// Play one round of attrition: pair the dice positionally, highest first,
/// and remove one unit per pair — from the attacker when the defender's die
/// is at least as high, from the defender otherwise.
///
/// The round removes exactly `paired_dice(..)` units in total, split between
/// the sides as `attacker_losses`/`defender_losses` state.
pub fn battle_round(attackers_nbr: u32, defenders_nbr: u32, a_dice: &Vec<u8>, d_dice: &Vec<u8>) -> (r:
    (u32, u32))
    requires
        attackers_nbr >= 2,
        defenders_nbr >= 1,
        1 <= a_dice@.len() <= attackers_nbr - 1,
        1 <= d_dice@.len() <= defenders_nbr,
        sorted_descending(a_dice@),
        sorted_descending(d_dice@),
    ensures
        r.0 == attackers_nbr - attacker_losses(a_dice@, d_dice@, paired_dice(a_dice@, d_dice@)),
        r.1 == defenders_nbr - defender_losses(a_dice@, d_dice@, paired_dice(a_dice@, d_dice@)),
        1 <= r.0 <= attackers_nbr,
        r.1 <= defenders_nbr,
        r.0 + r.1 + paired_dice(a_dice@, d_dice@) == attackers_nbr + defenders_nbr,
        d_dice@.len() <= 2 ==> attackers_nbr + defenders_nbr - (r.0 + r.1) <= 2,
{
    let pairs = if a_dice.len() <= d_dice.len() {
        a_dice.len()
    } else {
        d_dice.len()
    };
    let mut attackers = attackers_nbr;
    let mut defenders = defenders_nbr;
    let mut i: usize = 0;
    while i < pairs
        invariant
            i <= pairs,
            pairs == paired_dice(a_dice@, d_dice@),
            pairs <= a_dice@.len(),
            pairs <= d_dice@.len(),
            a_dice@.len() <= attackers_nbr - 1,
            d_dice@.len() <= defenders_nbr,
            attackers == attackers_nbr - attacker_losses(a_dice@, d_dice@, i as int),
            defenders == defenders_nbr - defender_losses(a_dice@, d_dice@, i as int),
        decreases pairs - i,
    {
        proof {
            lemma_round_losses(a_dice@, d_dice@, i as int);
        }
        if d_dice[i] >= a_dice[i] {
            attackers = attackers - 1;
        } else {
            defenders = defenders - 1;
        }
        i = i + 1;
    }
    proof {
        lemma_round_losses(a_dice@, d_dice@, pairs as int);
    }
    (attackers, defenders)
}

/// What a finished battle started from `a` attackers and `d` defenders looks
/// like: a terminal state is reached, the winner is the attacker exactly
/// when no defenders are left, exactly one terminal condition holds when the
/// battle was not degenerate on entry, and a degenerate battle (defenders
/// already gone, or only the occupying attacker left) ends at once with the
/// forces untouched. An attacking force reduced to its occupying unit over
/// an empty territory holds it: (1, 0) is an attacker win.
pub open spec fn battle_result_ok(a: u32, d: u32, r: BattleResult) -> bool {
    &&& 1 <= r.remaining_attackers_nbr <= a
    &&& r.remaining_defenders_nbr <= d
    &&& (r.remaining_attackers_nbr == 1 || r.remaining_defenders_nbr == 0)
    &&& (r.winner == Player::ATTACKER <==> r.remaining_defenders_nbr == 0)
    &&& (r.winner == Player::DEFENDER <==> r.remaining_defenders_nbr > 0)
    &&& (r.winner == Player::DEFENDER ==> r.remaining_attackers_nbr == 1)
    &&& (a >= 2 && d >= 1 ==> !(r.remaining_attackers_nbr == 1 && r.remaining_defenders_nbr == 0))
    &&& (a == 1 && d >= 1 ==> r.winner == Player::DEFENDER && r.remaining_attackers_nbr == 1
        && r.remaining_defenders_nbr == d)
    &&& (d == 0 ==> r.winner == Player::ATTACKER && r.remaining_attackers_nbr == a
        && r.remaining_defenders_nbr == 0)
}

/// Resolve one battle with freshly drawn dice, round by round, until the
/// defenders are eliminated or only the occupying attacker is left.
pub fn risk(initial_attackers_nbr: &u32, initial_defenders_nbr: &u32) -> (r: BattleResult)
    requires
        *initial_attackers_nbr >= 1,
    ensures
        battle_result_ok(*initial_attackers_nbr, *initial_defenders_nbr, r),
{
    let mut attackers_nbr: u32 = *initial_attackers_nbr;
    let mut defenders_nbr: u32 = *initial_defenders_nbr;
    while attackers_nbr > 1 && defenders_nbr > 0
        invariant
            1 <= attackers_nbr <= *initial_attackers_nbr,
            defenders_nbr <= *initial_defenders_nbr,
            *initial_attackers_nbr == 1 ==> attackers_nbr == 1 && defenders_nbr
                == *initial_defenders_nbr,
            *initial_defenders_nbr == 0 ==> attackers_nbr == *initial_attackers_nbr
                && defenders_nbr == 0,
            !(attackers_nbr == 1 && defenders_nbr == 0) || *initial_attackers_nbr == 1
                || *initial_defenders_nbr == 0,
        decreases attackers_nbr + defenders_nbr,
    {
        let a_dice_nbr = compute_attacker_dice_number(&attackers_nbr);
        let a_dice = draw_sorted_dice_pool(a_dice_nbr);
        let d_dice_nbr = compute_defender_dice_number_0(&a_dice, &attackers_nbr, &defenders_nbr);
        let d_dice = draw_sorted_dice_pool(d_dice_nbr);
        let round = battle_round(attackers_nbr, defenders_nbr, &a_dice, &d_dice);
        attackers_nbr = round.0;
        defenders_nbr = round.1;
    }
    if defenders_nbr == 0 {
        BattleResult {
            winner: Player::ATTACKER,
            remaining_attackers_nbr: attackers_nbr,
            remaining_defenders_nbr: defenders_nbr,
        }
    } else {
        BattleResult {
            winner: Player::DEFENDER,
            remaining_attackers_nbr: attackers_nbr,
            remaining_defenders_nbr: defenders_nbr,
        }
    }
}

/// The whole battle as a function of the initial forces and a prescribed
/// die sequence read from `idx` on: each round takes the attacker's rolls,
/// then the defender's, sorts each pool descending, and applies the exact
/// pairwise attrition; `None` when the sequence runs out mid-battle. This is
/// what replaying a fixed sequence through the resolver must return.
pub open spec fn spec_replay(
    attackers_nbr: u32,
    defenders_nbr: u32,
    rolls: Seq<u8>,
    idx: int,
) -> Option<BattleResult>
    decreases rolls.len() - idx,
{
    if defenders_nbr == 0 {
        Some(
            BattleResult {
                winner: Player::ATTACKER,
                remaining_attackers_nbr: attackers_nbr,
                remaining_defenders_nbr: 0,
            },
        )
    } else if attackers_nbr <= 1 {
        Some(
            BattleResult {
                winner: Player::DEFENDER,
                remaining_attackers_nbr: attackers_nbr,
                remaining_defenders_nbr: defenders_nbr,
            },
        )
    } else {
        let a_nbr = spec_attacker_dice_number(attackers_nbr);
        if idx < 0 || idx + a_nbr > rolls.len() {
            None
        } else {
            let a_pool = sort_desc(rolls.subrange(idx, idx + a_nbr));
            let d_nbr = spec_defender_dice_number_0(defenders_nbr) as int;
            if idx + a_nbr + d_nbr > rolls.len() {
                None
            } else {
                let d_pool = sort_desc(rolls.subrange(idx + a_nbr, idx + a_nbr + d_nbr));
                let pairs = paired_dice(a_pool, d_pool);
                spec_replay(
                    (attackers_nbr - attacker_losses(a_pool, d_pool, pairs)) as u32,
                    (defenders_nbr - defender_losses(a_pool, d_pool, pairs)) as u32,
                    rolls,
                    idx + a_nbr + d_nbr,
                )
            }
        }
    }
}

/// Resolve one battle replaying a prescribed sequence of die rolls instead
/// of drawing them, reading the rolls left to right in the order the random
/// resolver would have drawn them (the attacker's pool first in every
/// round). Returns `None` when the sequence runs out mid-battle; a sequence
/// of `5 * (attackers + defenders)` rolls is always enough, since a round
/// reads at most five rolls and removes at least one unit.
pub fn risk_with_rolls(
    initial_attackers_nbr: &u32,
    initial_defenders_nbr: &u32,
    rolls: &Vec<u8>,
) -> (r: Option<BattleResult>)
    requires
        *initial_attackers_nbr >= 1,
        all_die_faces(rolls@),
    ensures
        r == spec_replay(*initial_attackers_nbr, *initial_defenders_nbr, rolls@, 0),
        r matches Some(b) ==> battle_result_ok(
            *initial_attackers_nbr,
            *initial_defenders_nbr,
            b,
        ),
        rolls@.len() >= 5 * (*initial_attackers_nbr + *initial_defenders_nbr) ==> r is Some,
{
    let mut attackers_nbr: u32 = *initial_attackers_nbr;
    let mut defenders_nbr: u32 = *initial_defenders_nbr;
    let n = rolls.len();
    let mut idx: usize = 0;
    while attackers_nbr > 1 && defenders_nbr > 0
        invariant
            1 <= attackers_nbr <= *initial_attackers_nbr,
            defenders_nbr <= *initial_defenders_nbr,
            *initial_attackers_nbr == 1 ==> attackers_nbr == 1 && defenders_nbr
                == *initial_defenders_nbr,
            *initial_defenders_nbr == 0 ==> attackers_nbr == *initial_attackers_nbr
                && defenders_nbr == 0,
            !(attackers_nbr == 1 && defenders_nbr == 0) || *initial_attackers_nbr == 1
                || *initial_defenders_nbr == 0,
            n == rolls@.len(),
            all_die_faces(rolls@),
            idx <= n,
            idx <= 5 * (*initial_attackers_nbr + *initial_defenders_nbr - attackers_nbr
                - defenders_nbr),
            spec_replay(*initial_attackers_nbr, *initial_defenders_nbr, rolls@, 0) == spec_replay(
                attackers_nbr,
                defenders_nbr,
                rolls@,
                idx as int,
            ),
        decreases attackers_nbr + defenders_nbr,
    {
        let ghost idx0 = idx as int;
        let a_dice_nbr = compute_attacker_dice_number(&attackers_nbr);
        let a_nbr = a_dice_nbr as usize;
        if n - idx < a_nbr {
            return None;
        }
        let a_dice = sorted_pool_from(rolls, idx, a_nbr);
        idx = idx + a_nbr;
        let d_dice_nbr = compute_defender_dice_number_0(&a_dice, &attackers_nbr, &defenders_nbr);
        let d_nbr = d_dice_nbr as usize;
        if n - idx < d_nbr {
            return None;
        }
        let d_dice = sorted_pool_from(rolls, idx, d_nbr);
        idx = idx + d_nbr;
        let round = battle_round(attackers_nbr, defenders_nbr, &a_dice, &d_dice);
        proof {
            assert(spec_replay(attackers_nbr, defenders_nbr, rolls@, idx0) == spec_replay(
                round.0,
                round.1,
                rolls@,
                idx as int,
            ));
        }
        attackers_nbr = round.0;
        defenders_nbr = round.1;
    }
    if defenders_nbr == 0 {
        Some(
            BattleResult {
                winner: Player::ATTACKER,
                remaining_attackers_nbr: attackers_nbr,
                remaining_defenders_nbr: defenders_nbr,
            },
        )
    } else {
        Some(
            BattleResult {
                winner: Player::DEFENDER,
                remaining_attackers_nbr: attackers_nbr,
                remaining_defenders_nbr: defenders_nbr,
            },
        )
    }
}

} // verus!
