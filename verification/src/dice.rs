//! Drawing and ordering of dice pools.

use vstd::prelude::*;

use rand::prelude::SliceRandom;

verus! {

/// A value is a die face when it lies in 1..=6.
pub open spec fn is_die_face(v: u8) -> bool {
    1 <= v && v <= 6
}

/// Every element of the sequence is a die face.
pub open spec fn all_die_faces(s: Seq<u8>) -> bool {
    forall|i: int| 0 <= i < s.len() ==> is_die_face(#[trigger] s[i])
}

/// The sequence is sorted in descending order.
pub open spec fn sorted_descending(s: Seq<u8>) -> bool {
    forall|i: int, j: int| 0 <= i <= j < s.len() ==> s[i] >= s[j]
}

/// The sequence reordered into descending order.
pub open spec fn sort_desc(s: Seq<u8>) -> Seq<u8> {
    s.sort_by(|x: u8, y: u8| x >= y)
}

/// `sort_desc` keeps exactly the elements of its input and orders them
/// descending.
pub proof fn lemma_sort_desc_ensures(s: Seq<u8>)
    ensures
        sort_desc(s).to_multiset() == s.to_multiset(),
        sorted_descending(sort_desc(s)),
{
    let leq = |x: u8, y: u8| x >= y;
    assert(vstd::relations::total_ordering(leq));
    s.lemma_sort_by_ensures(leq);
    assert(s.to_multiset() =~= sort_desc(s).to_multiset());
    assert forall|i: int, j: int|
        0 <= i <= j < sort_desc(s).len() implies sort_desc(s)[i] >= sort_desc(s)[j] by {
        if i < j {
            assert(leq(sort_desc(s)[i], sort_desc(s)[j]));
        }
    }
}

/// A multiset of dice has exactly one descending arrangement: two sorted
/// pools with the same dice are the same pool.
pub proof fn lemma_sorted_desc_unique(x: Seq<u8>, y: Seq<u8>)
    requires
        sorted_descending(x),
        sorted_descending(y),
        x.to_multiset() == y.to_multiset(),
    ensures
        x == y,
{
    let leq = |a: u8, b: u8| a >= b;
    assert(vstd::relations::sorted_by(x, leq));
    assert(vstd::relations::sorted_by(y, leq));
    assert(vstd::relations::total_ordering(leq));
    vstd::seq_lib::lemma_sorted_unique(x, y, leq);
    assert(x =~= y);
}

/// Relies on `rand`'s `SliceRandom::choose` with `rand::thread_rng`: it
/// returns `Some` of an element of the (non-empty) slice, so the result is
/// always one of the six die faces. Nothing is assumed about which face
/// comes back.
#[verifier::external_body]
fn throw_dice() -> (r: u8)
    ensures
        is_die_face(r),
{
    let faces: [u8; 6] = [1, 2, 3, 4, 5, 6];
    *faces.choose(&mut rand::thread_rng()).unwrap()
}

/// Number of dice the attacker rolls in a round: `min(3, attackers - 1)`.
/// The occupying unit never rolls.
pub open spec fn spec_attacker_dice_number(attackers_nbr: u32) -> int {
    if attackers_nbr - 1 < 3 {
        attackers_nbr - 1
    } else {
        3
    }
}

/// How many dice the attacker may roll: at most three, and never the
/// occupying unit.
pub fn compute_attacker_dice_number(attackers_nbr: &u32) -> (r: u32)
    requires
        *attackers_nbr >= 1,
    ensures
        r == spec_attacker_dice_number(*attackers_nbr),
        r <= 3,
        r <= *attackers_nbr - 1,
        *attackers_nbr >= 2 ==> r >= 1,
{
    if *attackers_nbr - 1 < 3 {
        *attackers_nbr - 1
    } else {
        3
    }
}

/// Insert one die into a pool kept sorted in descending order.
fn insert_sorted_desc(pool: &mut Vec<u8>, x: u8)
    requires
        sorted_descending(old(pool)@),
    ensures
        sorted_descending(final(pool)@),
        final(pool)@.len() == old(pool)@.len() + 1,
        final(pool)@.to_multiset() == old(pool)@.to_multiset().insert(x),
        forall|j: int|
            0 <= j < final(pool)@.len() ==> (final(pool)@[j] == x || old(pool)@.contains(
                #[trigger] final(pool)@[j],
            )),
{
    let ghost orig = pool@;
    let mut i: usize = 0;
    while i < pool.len() && pool[i] >= x
        invariant
            pool@ == orig,
            sorted_descending(orig),
            i <= orig.len(),
            forall|j: int| 0 <= j < i ==> orig[j] >= x,
        decreases orig.len() - i,
    {
        i = i + 1;
    }
    pool.insert(i, x);
    proof {
        assert(pool@ == orig.insert(i as int, x));
        broadcast use vstd::seq_lib::to_multiset_insert;

        assert(pool@.to_multiset() == orig.to_multiset().insert(x));
        assert forall|j: int| 0 <= j < pool@.len() implies (pool@[j] == x || orig.contains(
            #[trigger] pool@[j],
        )) by {
            if j < i {
                assert(pool@[j] == orig[j]);
            } else if j > i {
                assert(pool@[j] == orig[j - 1]);
            }
        }
        assert forall|p: int, q: int| 0 <= p <= q < pool@.len() implies pool@[p] >= pool@[q] by {
            if q < i {
                assert(pool@[p] == orig[p] && pool@[q] == orig[q]);
            } else if p > i {
                assert(pool@[p] == orig[p - 1] && pool@[q] == orig[q - 1]);
            } else if p < i && q == i {
                assert(pool@[p] == orig[p] && orig[p] >= x);
            } else if p < i && q > i {
                assert(pool@[p] == orig[p] && pool@[q] == orig[q - 1]);
            } else if p == i && q > i {
                // the loop stopped at i, so orig[i] < x, and orig is sorted
                assert(pool@[q] == orig[q - 1] && orig[i as int] >= orig[q - 1]);
            }
        }
    }
}

/// Draw `dice_nbr` independent die rolls, as a pool sorted descending.
pub fn draw_sorted_dice_pool(dice_nbr: u32) -> (r: Vec<u8>)
    ensures
        r@.len() == dice_nbr,
        all_die_faces(r@),
        sorted_descending(r@),
{
    let mut pool: Vec<u8> = Vec::new();
    let mut i: u32 = 0;
    while i < dice_nbr
        invariant
            i <= dice_nbr,
            pool@.len() == i,
            all_die_faces(pool@),
            sorted_descending(pool@),
        decreases dice_nbr - i,
    {
        let die = throw_dice();
        insert_sorted_desc(&mut pool, die);
        i = i + 1;
    }
    pool
}

/// Take `count` prescribed rolls starting at `start`, as a pool sorted
/// descending.
pub fn sorted_pool_from(rolls: &Vec<u8>, start: usize, count: usize) -> (r: Vec<u8>)
    requires
        start + count <= rolls@.len(),
        all_die_faces(rolls@),
    ensures
        r@.len() == count,
        all_die_faces(r@),
        sorted_descending(r@),
        r@.to_multiset() == rolls@.subrange(start as int, (start + count) as int).to_multiset(),
        r@ == sort_desc(rolls@.subrange(start as int, (start + count) as int)),
{
    let n = rolls.len();
    let mut pool: Vec<u8> = Vec::new();
    let mut i: usize = 0;
    proof {
        assert(pool@ =~= rolls@.subrange(start as int, start as int));
    }
    while i < count
        invariant
            i <= count,
            n == rolls@.len(),
            start + count <= rolls@.len(),
            all_die_faces(rolls@),
            pool@.len() == i,
            all_die_faces(pool@),
            sorted_descending(pool@),
            pool@.to_multiset() == rolls@.subrange(start as int, (start + i) as int).to_multiset(),
        decreases count - i,
    {
        let die = rolls[start + i];
        insert_sorted_desc(&mut pool, die);
        i = i + 1;
        proof {
            broadcast use vstd::seq_lib::to_multiset_build;

            assert(rolls@.subrange(start as int, (start + i) as int) =~= rolls@.subrange(
                start as int,
                (start + i - 1) as int,
            ).push(rolls@[(start + i - 1) as int]));
        }
    }
    proof {
        let sub = rolls@.subrange(start as int, (start + count) as int);
        lemma_sort_desc_ensures(sub);
        lemma_sorted_desc_unique(pool@, sort_desc(sub));
    }
    pool
}

} // verus!
