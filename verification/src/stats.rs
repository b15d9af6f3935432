//! Aggregation of many independent battles into summary totals.
//!
//! The totals are kept as exact integers; a caller divides by the trial
//! count to obtain the win rate and the average remaining unit counts.

use vstd::prelude::*;

use crate::battle::battle_result_ok;
use crate::battle::risk;
use crate::battle::Player;

verus! {

/// Exact accumulated outcome of a fixed number of trials.
#[derive(Debug, Clone, Copy, PartialEq, Eq, Structural)]
pub struct BattleTotals {
    /// Number of trials the battle was resolved in.
    pub trials: u32,
    /// Number of trials the attacker won.
    pub attacker_wins: u32,
    /// Sum over all trials of the attacker units remaining.
    pub total_attacker_units_remaining: u64,
    /// Sum over all trials of the defender units remaining.
    pub total_defender_units_remaining: u64,
}

/// Bounds that tie the totals of `n` trials of a battle between `a`
/// attackers and `d` defenders to the per-battle guarantees: the win count
/// never exceeds the trial count; each won trial leaves no defenders and at
/// least two attacker units (when `a` allows it), each lost trial leaves
/// exactly the occupying attacker and at least one defender, so the
/// remaining-unit sums are bracketed by the win count; and the degenerate
/// inputs determine the totals exactly.
pub open spec fn battle_totals_ok(a: u32, d: u32, n: u32, t: BattleTotals) -> bool {
    &&& t.trials == n
    &&& t.attacker_wins <= n
    &&& n <= t.total_attacker_units_remaining <= n * a
    &&& t.total_defender_units_remaining <= n * d
    &&& (a >= 2 ==> n + t.attacker_wins <= t.total_attacker_units_remaining <= n
        + t.attacker_wins * (a - 1))
    &&& (d >= 1 ==> n - t.attacker_wins <= t.total_defender_units_remaining <= (n
        - t.attacker_wins) * d)
    &&& (d == 0 ==> t.attacker_wins == n && t.total_attacker_units_remaining == n * a
        && t.total_defender_units_remaining == 0)
    &&& (a == 1 && d >= 1 ==> t.attacker_wins == 0 && t.total_attacker_units_remaining == n
        && t.total_defender_units_remaining == n * d)
}

/// Why an aggregation request is rejected before any battle is simulated.
#[derive(Debug, Clone, Copy, PartialEq, Eq, Structural)]
pub enum InputError {
    /// The attacking force was empty: a battle needs the occupying unit.
    ZeroAttackers,
    /// No trials were requested: averages over zero trials are undefined.
    ZeroTrials,
}

/// Resolve the same initial battle `n` times independently and accumulate
/// the attacker win count and the remaining-unit sums.
pub fn compute_risk_battle_totals(attackers_nbr: &u32, defenders_nbr: &u32, n: &u32) -> (t:
    BattleTotals)
    requires
        *attackers_nbr >= 1,
        *n >= 1,
    ensures
        battle_totals_ok(*attackers_nbr, *defenders_nbr, *n, t),
{
    let mut total_a_units_remaining: u64 = 0;
    let mut total_d_units_remaining: u64 = 0;
    let mut total_a_wins: u32 = 0;
    let mut i: u32 = 0;
    while i < *n
        invariant
            *attackers_nbr >= 1,
            i <= *n,
            total_a_wins <= i,
            i <= total_a_units_remaining <= i * *attackers_nbr,
            total_d_units_remaining <= i * *defenders_nbr,
            *attackers_nbr >= 2 ==> i + total_a_wins <= total_a_units_remaining <= i
                + total_a_wins * (*attackers_nbr - 1),
            *defenders_nbr >= 1 ==> i - total_a_wins <= total_d_units_remaining <= (i
                - total_a_wins) * *defenders_nbr,
            *defenders_nbr == 0 ==> total_a_wins == i && total_a_units_remaining == i
                * *attackers_nbr && total_d_units_remaining == 0,
            *attackers_nbr == 1 && *defenders_nbr >= 1 ==> total_a_wins == 0
                && total_a_units_remaining == i && total_d_units_remaining == i * *defenders_nbr,
        decreases *n - i,
    {
        let result = risk(attackers_nbr, defenders_nbr);
        proof {
            assert(battle_result_ok(*attackers_nbr, *defenders_nbr, result));
            assert((i + 1) * *attackers_nbr == i * *attackers_nbr + *attackers_nbr)
                by (nonlinear_arith);
            assert((i + 1) * *defenders_nbr == i * *defenders_nbr + *defenders_nbr)
                by (nonlinear_arith);
            assert((total_a_wins + 1) * (*attackers_nbr - 1) == total_a_wins * (*attackers_nbr - 1)
                + (*attackers_nbr - 1)) by (nonlinear_arith);
            assert(((i - total_a_wins) + 1) * *defenders_nbr == (i - total_a_wins)
                * *defenders_nbr + *defenders_nbr) by (nonlinear_arith);
            assert(i * *attackers_nbr <= u32::MAX * (u32::MAX as int)) by (nonlinear_arith)
                requires
                    0 <= i <= u32::MAX,
                    0 <= *attackers_nbr <= u32::MAX,
            ;
            assert(i * *defenders_nbr <= u32::MAX * (u32::MAX as int)) by (nonlinear_arith)
                requires
                    0 <= i <= u32::MAX,
                    0 <= *defenders_nbr <= u32::MAX,
            ;
        }
        total_a_units_remaining = total_a_units_remaining + result.remaining_attackers_nbr as u64;
        total_d_units_remaining = total_d_units_remaining + result.remaining_defenders_nbr as u64;
        if let Player::ATTACKER = result.winner {
            total_a_wins = total_a_wins + 1;
        }
        i = i + 1;
    }
    BattleTotals {
        trials: *n,
        attacker_wins: total_a_wins,
        total_attacker_units_remaining: total_a_units_remaining,
        total_defender_units_remaining: total_d_units_remaining,
    }
}

/// Validate the request and aggregate: an empty attacking force or a zero
/// trial count is rejected, anything else is simulated.
pub fn aggregate(attackers_nbr: &u32, defenders_nbr: &u32, n: &u32) -> (r: Result<
    BattleTotals,
    InputError,
>)
    ensures
        *attackers_nbr == 0 ==> r == Result::<BattleTotals, InputError>::Err(
            InputError::ZeroAttackers,
        ),
        *attackers_nbr >= 1 && *n == 0 ==> r == Result::<BattleTotals, InputError>::Err(
            InputError::ZeroTrials,
        ),
        *attackers_nbr >= 1 && *n >= 1 ==> (r matches Ok(t) && battle_totals_ok(
            *attackers_nbr,
            *defenders_nbr,
            *n,
            t,
        )),
{
    if *attackers_nbr == 0 {
        Err(InputError::ZeroAttackers)
    } else if *n == 0 {
        Err(InputError::ZeroTrials)
    } else {
        Ok(compute_risk_battle_totals(attackers_nbr, defenders_nbr, n))
    }
}

} // verus!
