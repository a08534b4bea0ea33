//! The health lifecycle: every entity carrying a health pool is destroyed
//! once its current health drops to zero or below.

use vstd::prelude::*;

use crate::enemy_systems::EnemyBundle;
use crate::player_systems::PlayerBundle;

verus! {

/// Whether a health pool keeps its owner alive: strictly positive current
/// health.
pub open spec fn spec_alive(current: int) -> bool {
    current > 0
}

/// The enemies that survive a lifecycle pass, in their original order.
pub open spec fn spec_survivors(enemies: Seq<EnemyBundle>) -> Seq<EnemyBundle>
    decreases enemies.len(),
{
    if enemies.len() == 0 {
        Seq::empty()
    } else {
        let prefix = spec_survivors(enemies.drop_last());
        if spec_alive(enemies.last().health.0 as int) {
            prefix.push(enemies.last())
        } else {
            prefix
        }
    }
}

/// Destroys every entity whose health pool has reached zero or below: the
/// player slot empties, and dead enemies leave the column.
pub fn health_update(player: &mut Option<PlayerBundle>, enemies: &mut Vec<EnemyBundle>)
    ensures
        *final(player) == (match *old(player) {
            Some(p) => if p.health.0 <= 0 {
                None
            } else {
                Some(p)
            },
            None => None,
        }),
        final(enemies)@ == spec_survivors(old(enemies)@),
{
    let dead = match player.as_ref() {
        Some(p) => p.health.0 <= 0,
        None => false,
    };
    if dead {
        *player = None;
    }

    let ghost orig = enemies@;
    let n = enemies.len();
    let mut out: Vec<EnemyBundle> = Vec::new();
    let mut i: usize = 0;
    while i < n
        invariant
            i <= n,
            n == orig.len(),
            enemies@ == orig.skip(i as int),
            out@ == spec_survivors(orig.take(i as int)),
        decreases n - i,
    {
        proof {
            assert(orig.take(i as int + 1).drop_last() =~= orig.take(i as int));
            assert(orig.take(i as int + 1).last() == orig[i as int]);
            assert(orig.skip(i as int)[0] == orig[i as int]);
        }
        let e = enemies.remove(0);
        proof {
            assert(enemies@ =~= orig.skip(i as int + 1));
        }
        let keep = e.health.0 > 0;
        if keep {
            out.push(e);
        }
        i = i + 1;
    }
    proof {
        assert(orig.take(n as int) =~= orig);
    }
    *enemies = out;
}

/// Every survivor of a lifecycle pass is one of the original enemies.
pub proof fn lemma_survivors_from(enemies: Seq<EnemyBundle>)
    ensures
        forall|i: int|
            0 <= i < spec_survivors(enemies).len() ==> enemies.contains(
                #[trigger] spec_survivors(enemies)[i],
            ),
    decreases enemies.len(),
{
    if enemies.len() == 0 {
    } else {
        lemma_survivors_from(enemies.drop_last());
        let r = spec_survivors(enemies);
        let rp = spec_survivors(enemies.drop_last());
        assert forall|i: int| 0 <= i < r.len() implies enemies.contains(#[trigger] r[i]) by {
            if i < rp.len() {
                assert(rp[i] == r[i]);
                assert(enemies.drop_last().contains(rp[i]));
                let k = choose|k: int|
                    0 <= k < enemies.drop_last().len() && enemies.drop_last()[k] == rp[i];
                assert(enemies[k] == rp[i]);
            } else {
                assert(r[i] == enemies.last());
                assert(enemies[enemies.len() - 1] == enemies.last());
            }
        }
    }
}

/// Law: a lifecycle pass keeps exactly the entities with positive health —
/// every survivor is alive, and every enemy that was alive survives.
pub proof fn lemma_lifecycle_keeps_exactly(enemies: Seq<EnemyBundle>)
    ensures
        forall|i: int|
            0 <= i < spec_survivors(enemies).len() ==> spec_alive(
                (#[trigger] spec_survivors(enemies)[i]).health.0 as int,
            ),
        forall|i: int|
            0 <= i < enemies.len() && spec_alive((#[trigger] enemies[i]).health.0 as int)
                ==> spec_survivors(enemies).contains(enemies[i]),
    decreases enemies.len(),
{
    if enemies.len() == 0 {
    } else {
        lemma_lifecycle_keeps_exactly(enemies.drop_last());
        let r = spec_survivors(enemies);
        let rp = spec_survivors(enemies.drop_last());
        assert forall|i: int|
            0 <= i < enemies.len() && spec_alive(
                (#[trigger] enemies[i]).health.0 as int,
            ) implies spec_survivors(enemies).contains(enemies[i]) by {
            if i < enemies.len() - 1 {
                assert(enemies.drop_last()[i] == enemies[i]);
                assert(rp.contains(enemies[i]));
                let k = choose|k: int| 0 <= k < rp.len() && rp[k] == enemies[i];
                if spec_alive(enemies.last().health.0 as int) {
                    assert(r == rp.push(enemies.last()));
                    assert(r[k] == enemies[i]);
                } else {
                    assert(r == rp);
                }
            } else {
                assert(enemies[i] == enemies.last());
                assert(r == rp.push(enemies.last()));
                assert(r[r.len() - 1] == enemies[i]);
            }
        }
    }
}

} // verus!
