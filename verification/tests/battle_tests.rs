use risk::battle::risk;
use risk::battle::risk_with_rolls;
use risk::battle::BattleResult;
use risk::battle::Player;

#[test]
fn risk_defenders_already_eliminated() {
    let r = risk(&5, &0);
    assert_eq!(
        r,
        BattleResult {
            winner: Player::ATTACKER,
            remaining_attackers_nbr: 5,
            remaining_defenders_nbr: 0,
        }
    );
}

#[test]
fn risk_single_attacker() {
    let r = risk(&1, &7);
    assert_eq!(
        r,
        BattleResult {
            winner: Player::DEFENDER,
            remaining_attackers_nbr: 1,
            remaining_defenders_nbr: 7,
        }
    );
}

#[test]
fn risk_single_attacker_no_defenders() {
    // both terminal conditions hold on entry; with no defenders left the
    // occupying unit holds the territory, so this is an attacker win
    let r = risk(&1, &0);
    assert_eq!(
        r,
        BattleResult {
            winner: Player::ATTACKER,
            remaining_attackers_nbr: 1,
            remaining_defenders_nbr: 0,
        }
    );
}

#[test]
fn risk_reaches_exactly_one_terminal_state() {
    let r = risk(&6, &4);
    let attacker_gone = r.remaining_attackers_nbr == 1;
    let defender_gone = r.remaining_defenders_nbr == 0;
    assert!(attacker_gone != defender_gone);
    assert!(1 <= r.remaining_attackers_nbr && r.remaining_attackers_nbr <= 6);
    assert!(r.remaining_defenders_nbr <= 4);
    match r.winner {
        Player::ATTACKER => assert!(defender_gone && !attacker_gone),
        Player::DEFENDER => assert!(attacker_gone),
    }
}

#[test]
fn scripted_battle_attacker_wins() {
    // 3 vs 2: round one reads [5,3] for the attacker and [4,3] for the
    // defender: 5 beats 4, 3 ties 3, so each side loses one unit (2 vs 1).
    // Round two reads [6] and [2]: 6 beats 2 and the last defender falls.
    let rolls = vec![5u8, 3, 4, 3, 6, 2];
    let r = risk_with_rolls(&3, &2, &rolls);
    assert_eq!(
        r,
        Some(BattleResult {
            winner: Player::ATTACKER,
            remaining_attackers_nbr: 2,
            remaining_defenders_nbr: 0,
        })
    );
}

#[test]
fn scripted_battle_attacker_sweeps_a_round() {
    // 3 vs 2: one round reads [6,5] for the attacker and [3,2] for the
    // defender; 6 beats 3 and 5 beats 2, so both defenders fall at once
    let rolls = vec![6u8, 5, 3, 2];
    let r = risk_with_rolls(&3, &2, &rolls);
    assert_eq!(
        r,
        Some(BattleResult {
            winner: Player::ATTACKER,
            remaining_attackers_nbr: 3,
            remaining_defenders_nbr: 0,
        })
    );
}

#[test]
fn scripted_battle_is_deterministic() {
    // the battle is a function of the forces and the die sequence alone
    let rolls = vec![5u8, 3, 4, 3, 6, 2, 1, 1, 2, 6];
    assert_eq!(risk_with_rolls(&4, &3, &rolls), risk_with_rolls(&4, &3, &rolls));
}

#[test]
fn scripted_battle_defender_wins_after_sorting() {
    // 3 vs 2: the attacker's draw [1,6] must be sorted to [6,1] before the
    // pairing. Round one against [2,2]: 6 beats 2, 2 beats 1 (2 vs 1).
    // Round two reads [3] and [3]: the defender wins the tie (1 vs 1).
    let rolls = vec![1u8, 6, 2, 2, 3, 3];
    let r = risk_with_rolls(&3, &2, &rolls);
    assert_eq!(
        r,
        Some(BattleResult {
            winner: Player::DEFENDER,
            remaining_attackers_nbr: 1,
            remaining_defenders_nbr: 1,
        })
    );
}

#[test]
fn scripted_battle_runs_out_of_rolls() {
    // 3 attackers roll two dice, but only one roll is supplied
    let rolls = vec![5u8];
    assert_eq!(risk_with_rolls(&3, &3, &rolls), None);
}

#[test]
fn scripted_battle_with_enough_rolls_finishes() {
    // 5 * (4 + 3) rolls are always enough; all ties favour the defender
    let rolls = vec![3u8; 35];
    let r = risk_with_rolls(&4, &3, &rolls);
    assert_eq!(
        r,
        Some(BattleResult {
            winner: Player::DEFENDER,
            remaining_attackers_nbr: 1,
            remaining_defenders_nbr: 3,
        })
    );
}

#[test]
fn report_names_the_attacker() {
    let r = BattleResult {
        winner: Player::ATTACKER,
        remaining_attackers_nbr: 2,
        remaining_defenders_nbr: 0,
    };
    assert_eq!(r.to_string(), "Attacker wins with 2 unit(s) remaining");
}

#[test]
fn report_names_the_defender() {
    let r = BattleResult {
        winner: Player::DEFENDER,
        remaining_attackers_nbr: 1,
        remaining_defenders_nbr: 120,
    };
    assert_eq!(r.to_string(), "Defender wins with 120 unit(s) remaining");
}

#[test]
fn report_renders_zero_and_two_digit_counts() {
    let zero = BattleResult {
        winner: Player::DEFENDER,
        remaining_attackers_nbr: 1,
        remaining_defenders_nbr: 0,
    };
    assert_eq!(zero.to_string(), "Defender wins with 0 unit(s) remaining");
    let ten = BattleResult {
        winner: Player::ATTACKER,
        remaining_attackers_nbr: 10,
        remaining_defenders_nbr: 0,
    };
    assert_eq!(ten.to_string(), "Attacker wins with 10 unit(s) remaining");
}
