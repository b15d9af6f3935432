use risk::policy::compute_defender_dice_number_0;
use risk::policy::compute_defender_dice_number_1;
use risk::policy::compute_defender_dice_number_2;
use risk::policy::compute_defender_dice_number_3;

#[test]
fn canonical_policy_rolls_the_maximum() {
    assert_eq!(compute_defender_dice_number_0(&vec![6, 6, 6], &5, &1), 1);
    assert_eq!(compute_defender_dice_number_0(&vec![6, 6], &5, &2), 2);
    assert_eq!(compute_defender_dice_number_0(&vec![], &2, &4), 2);
}

#[test]
fn cautious_policy_holds_on_a_strong_attack() {
    assert_eq!(compute_defender_dice_number_1(&vec![6, 5, 2], &5, &1), 1);
    // the two highest dice sum to 8: hold with one die
    assert_eq!(compute_defender_dice_number_1(&vec![4, 4, 1], &5, &3), 1);
    // sum 7: roll two dice
    assert_eq!(compute_defender_dice_number_1(&vec![4, 3, 2], &5, &3), 2);
    // a single die never reaches 8
    assert_eq!(compute_defender_dice_number_1(&vec![6], &2, &3), 2);
    assert_eq!(compute_defender_dice_number_1(&vec![], &2, &3), 2);
}

#[test]
fn cautious_policy_defends_a_pair_fully() {
    assert_eq!(compute_defender_dice_number_2(&vec![6, 6], &5, &1), 1);
    // with exactly two defenders the heuristic is ignored
    assert_eq!(compute_defender_dice_number_2(&vec![6, 6], &5, &2), 2);
    assert_eq!(compute_defender_dice_number_2(&vec![6, 2, 1], &5, &3), 1);
    assert_eq!(compute_defender_dice_number_2(&vec![3, 4, 2], &5, &3), 2);
}

#[test]
fn cautious_policy_ignores_small_attacking_forces() {
    assert_eq!(compute_defender_dice_number_3(&vec![6, 6], &4, &1), 1);
    assert_eq!(compute_defender_dice_number_3(&vec![6, 6], &4, &2), 2);
    // three or fewer attacking units: roll two dice whatever they threw
    assert_eq!(compute_defender_dice_number_3(&vec![6, 6], &3, &3), 2);
    assert_eq!(compute_defender_dice_number_3(&vec![6, 6], &4, &3), 1);
    assert_eq!(compute_defender_dice_number_3(&vec![3, 4], &4, &3), 2);
}
