//! The piece-supply bag: refilling a queue of upcoming shapes under the two
//! selectable policies, and the exhaustion law of the seven-shape bag.

use vstd::prelude::*;
use vstd::seq_lib::group_to_multiset_ensures;

use crate::mino::MinoShape;
use crate::mino::catalog_seq;
use crate::rng::GameRng;

verus! {

/// What one refill must deliver: seven shapes, and under seven-bag
/// sequencing a permutation of the whole catalog, each shape exactly once.
pub open spec fn is_fresh_bag(s: Seq<MinoShape>, bag_mode: bool) -> bool {
    &&& s.len() == 7
    &&& (bag_mode ==> s.to_multiset() == catalog_seq().to_multiset())
}

/// Fills one bag from the catalog. Under `bag_mode` the bag is a random
/// permutation of all seven shapes; otherwise each slot is drawn
/// independently, permitting repeats.
pub fn refill_bag(rng: &mut GameRng, mino_list: &Vec<MinoShape>, bag_mode: bool) -> (bag: Vec<
    MinoShape>)
    requires
        mino_list@ == catalog_seq(),
    ensures
        is_fresh_bag(bag@, bag_mode),
{
    broadcast use group_to_multiset_ensures;

    let mut bag: Vec<MinoShape> = Vec::new();
    if bag_mode {
        let mut pool: Vec<MinoShape> = Vec::new();
        let mut i: usize = 0;
        while i < mino_list.len()
            invariant
                i <= mino_list@.len(),
                mino_list@ == catalog_seq(),
                pool@ == catalog_seq().take(i as int),
            decreases mino_list@.len() - i,
        {
            pool.push(mino_list[i]);
            proof {
                assert(pool@ =~= catalog_seq().take(i as int + 1));
            }
            i = i + 1;
        }
        proof {
            assert(pool@ =~= catalog_seq());
        }
        while pool.len() > 0
            invariant
                bag@.to_multiset().add(pool@.to_multiset()) == catalog_seq().to_multiset(),
                bag@.len() + pool@.len() == 7,
            decreases pool@.len(),
        {
            let k: u32 = rng.below(pool.len() as u32);
            let ghost pool_before = pool@;
            let ghost bag_before = bag@;
            let m = pool.remove(k as usize);
            bag.push(m);
            proof {
                broadcast use group_to_multiset_ensures;

                assert(pool_before[k as int] == m);
                assert(pool_before.contains(m));
                assert(pool_before.remove(k as int).to_multiset()
                    == pool_before.to_multiset().remove(m));
                assert(bag_before.push(m).to_multiset() == bag_before.to_multiset().insert(m));
                assert(bag@.to_multiset().add(pool@.to_multiset())
                    =~= bag_before.to_multiset().add(pool_before.to_multiset()));
            }
        }
        proof {
            broadcast use group_to_multiset_ensures;

            assert(pool@.to_multiset().len() == 0);
            assert(bag@.to_multiset().add(pool@.to_multiset()) =~= bag@.to_multiset());
        }
    } else {
        let mut i: usize = 0;
        while i < 7
            invariant
                i <= 7,
                bag@.len() == i as int,
                mino_list@ == catalog_seq(),
            decreases 7 - i,
        {
            let k: u32 = rng.below(7);
            bag.push(mino_list[k as usize]);
            i = i + 1;
        }
    }
    bag
}

/// Law: a bag holding a permutation of the catalog has exactly seven
/// entries and yields, over seven successive front draws, each of the seven
/// shapes exactly once.
pub proof fn lemma_bag_exhaustion(s: Seq<MinoShape>)
    requires
        s.to_multiset() == catalog_seq().to_multiset(),
    ensures
        s.len() == 7,
        forall|k: MinoShape| #[trigger] s.to_multiset().count(k) == 1,
        forall|k: MinoShape| #[trigger] s.contains(k),
{
    broadcast use group_to_multiset_ensures;

    lemma_catalog_counts();
    assert(s.len() == s.to_multiset().len());
    assert(catalog_seq().len() == catalog_seq().to_multiset().len());
    assert forall|k: MinoShape| #[trigger] s.contains(k) by {
        assert(s.to_multiset().count(k) == 1);
    }
}

/// Law: the catalog holds each of the seven shapes exactly once.
pub proof fn lemma_catalog_counts()
    ensures
        forall|k: MinoShape| #[trigger] catalog_seq().to_multiset().count(k) == 1,
{
    broadcast use group_to_multiset_ensures;

    let e = Seq::<MinoShape>::empty();
    let s1 = e.push(MinoShape::I);
    let s2 = s1.push(MinoShape::L);
    let s3 = s2.push(MinoShape::J);
    let s4 = s3.push(MinoShape::S);
    let s5 = s4.push(MinoShape::Z);
    let s6 = s5.push(MinoShape::O);
    let s7 = s6.push(MinoShape::T);
    assert(catalog_seq() =~= s7);
    assert forall|k: MinoShape| #[trigger] e.to_multiset().count(k) == 0 by {
        assert(!e.contains(k));
        if e.to_multiset().count(k) > 0 {
            assert(e.contains(k));
        }
    }
    assert forall|k: MinoShape| #[trigger] catalog_seq().to_multiset().count(k) == 1 by {
        assert(s7.to_multiset() =~= e.to_multiset().insert(MinoShape::I).insert(
            MinoShape::L).insert(MinoShape::J).insert(MinoShape::S).insert(MinoShape::Z).insert(
            MinoShape::O).insert(MinoShape::T));
        assert(e.to_multiset().count(k) == 0);
    }
}

} // verus!
