//! What bullets hit: each bullet against every enemy and every wall.

use vstd::prelude::*;
use crate::bullet::{Bullet, BulletFate, BulletHitEvent};
use crate::health::Health;

verus! {

/// What one bullet overlaps in a frame, as the physics engine answered.
pub struct Contacts {
    /// Entry `j` says whether the bullet overlaps enemy `j`.
    pub enemies: Vec<bool>,
    /// Entry `k` says whether the bullet overlaps wall `k`.
    pub walls: Vec<bool>,
}

/// Whether `j` is the first of the first `limit` entries of `flags` that is set.
pub open spec fn is_first_set(flags: Seq<bool>, limit: int, j: int) -> bool {
    &&& 0 <= j < flags.len()
    &&& j < limit
    &&& flags[j]
    &&& forall|k: int| 0 <= k < j ==> !flags[k]
}

/// The first of the first `limit` entries of `flags` that is set, if any is.
pub open spec fn first_set(flags: Seq<bool>, limit: int) -> Option<int> {
    if exists|j: int| is_first_set(flags, limit, j) {
        Some(choose|j: int| is_first_set(flags, limit, j))
    } else {
        None
    }
}

/// Whether any entry of `flags` is set.
pub open spec fn any_set(flags: Seq<bool>) -> bool {
    exists|k: int| 0 <= k < flags.len() && flags[k]
}

impl Contacts {
    /// What the bullet hits among `enemy_count` enemies and the walls: the
    /// first enemy it overlaps; if there is none, a wall if it overlaps one;
    /// else nothing, and it flies on. An entry for an enemy that is not
    /// there counts for nothing.
    pub open spec fn fate(self, enemy_count: int) -> BulletFate {
        match first_set(self.enemies@, enemy_count) {
            Some(j) => BulletFate::HitEnemy(j as usize),
            None => if any_set(self.walls@) {
                BulletFate::HitWall
            } else {
                BulletFate::Flying
            },
        }
    }

    /// What the bullet hits among `enemy_count` enemies and the walls.
    pub fn resolve(&self, enemy_count: usize) -> (fate: BulletFate)
        ensures
            fate == self.fate(enemy_count as int),
            fate matches BulletFate::HitEnemy(j) ==> j < enemy_count && is_first_set(
                self.enemies@,
                enemy_count as int,
                j as int,
            ),
            fate !is Expired,
    {
        let mut j: usize = 0;
        while j < self.enemies.len() && j < enemy_count
            invariant
                j <= self.enemies@.len(),
                j <= enemy_count,
                forall|k: int| 0 <= k < j ==> !self.enemies@[k],
            decreases self.enemies@.len() - j,
        {
            if self.enemies[j] {
                proof {
                    lemma_first_set(self.enemies@, enemy_count as int, j as int);
                }
                return BulletFate::HitEnemy(j);
            }
            j += 1;
        }
        let mut k: usize = 0;
        while k < self.walls.len()
            invariant
                k <= self.walls@.len(),
                first_set(self.enemies@, enemy_count as int) is None,
                forall|m: int| 0 <= m < k ==> !self.walls@[m],
            decreases self.walls@.len() - k,
        {
            if self.walls[k] {
                return BulletFate::HitWall;
            }
            k += 1;
        }
        BulletFate::Flying
    }
}

/// There is at most one first entry that is set, so naming it settles
/// [`first_set`].
pub proof fn lemma_first_set(flags: Seq<bool>, limit: int, j: int)
    requires
        is_first_set(flags, limit, j),
    ensures
        first_set(flags, limit) == Some(j),
{
}

/// What bullet `i` hits, given the contacts of all bullets. A bullet that
/// `contacts` says nothing of overlaps nothing.
pub open spec fn hit_at(contacts: Seq<Contacts>, i: int, enemy_count: int) -> BulletFate {
    if 0 <= i < contacts.len() {
        contacts[i].fate(enemy_count)
    } else {
        BulletFate::Flying
    }
}

/// What every one of `count` bullets hits.
pub open spec fn hits(contacts: Seq<Contacts>, count: nat, enemy_count: int) -> Seq<BulletFate> {
    Seq::new(count, |i: int| hit_at(contacts, i, enemy_count))
}

/// The damage that enemy `enemy` takes from `bullets`, each of which met
/// the fate that `fates` gives it.
pub open spec fn damage_dealt(bullets: Seq<Bullet>, fates: Seq<BulletFate>, enemy: int) -> nat
    decreases bullets.len(),
{
    if bullets.len() == 0 || fates.len() != bullets.len() {
        0
    } else {
        damage_dealt(bullets.drop_last(), fates.drop_last(), enemy) + if fates.last()
            == BulletFate::HitEnemy(enemy as usize) {
            bullets.last().damage as nat
        } else {
            0nat
        }
    }
}

/// One hit event for every bullet that hit an enemy, in the order of the
/// bullets.
pub open spec fn hit_events(fates: Seq<BulletFate>) -> Seq<BulletHitEvent>
    decreases fates.len(),
{
    if fates.len() == 0 {
        Seq::empty()
    } else {
        let before = hit_events(fates.drop_last());
        match fates.last() {
            BulletFate::HitEnemy(enemy) => before.push(
                BulletHitEvent { bullet: (fates.len() - 1) as usize, enemy },
            ),
            _ => before,
        }
    }
}

/// One hit event for every bullet that hit an enemy, in the order of the
/// bullets. A hit on a wall raises none.
pub fn bullet_hits(fates: &Vec<BulletFate>) -> (hits: Vec<BulletHitEvent>)
    ensures
        hits@ == hit_events(fates@),
{
    let mut hits: Vec<BulletHitEvent> = Vec::new();
    let n: usize = fates.len();
    let mut i: usize = 0;
    while i < n
        invariant
            i <= n,
            n == fates@.len(),
            hits@ == hit_events(fates@.take(i as int)),
        decreases n - i,
    {
        assert(fates@.take(i + 1).drop_last() == fates@.take(i as int));
        match fates[i] {
            BulletFate::HitEnemy(enemy) => {
                hits.push(BulletHitEvent { bullet: i, enemy });
            },
            _ => {},
        }
        i += 1;
    }
    assert(fates@.take(n as int) == fates@);
    hits
}

/// Resolves what every bullet hits in this frame. A bullet hits the first
/// enemy it overlaps and takes its damage from that enemy's health; failing
/// that, it hits a wall if it overlaps one. Entry `i` of the result is the
/// fate of bullet `i`; no bullet expires here.
pub fn bullet_collision(
    bullets: &Vec<Bullet>,
    enemies: &mut Vec<Health>,
    contacts: &Vec<Contacts>,
) -> (fates: Vec<BulletFate>)
    ensures
        fates@ == hits(contacts@, bullets@.len(), old(enemies)@.len() as int),
        final(enemies)@.len() == old(enemies)@.len(),
        forall|j: int|
            0 <= j < old(enemies)@.len() ==> #[trigger] final(enemies)@[j] == old(enemies)@[j].hurt(
                damage_dealt(bullets@, fates@, j),
            ),
{
    let mut fates: Vec<BulletFate> = Vec::new();
    let n: usize = bullets.len();
    let enemy_count: usize = enemies.len();
    let mut i: usize = 0;
    proof {
        assert forall|j: int| 0 <= j < enemy_count implies #[trigger] enemies@[j] == old(
            enemies,
        )@[j].hurt(damage_dealt(bullets@.take(0), fates@, j)) by {
            old(enemies)@[j].lemma_hurt(0);
        }
    }
    while i < n
        invariant
            i <= n,
            n == bullets@.len(),
            enemy_count == enemies@.len(),
            enemy_count == old(enemies)@.len(),
            fates@.len() == i,
            forall|k: int| 0 <= k < i ==> #[trigger] fates@[k] == hit_at(contacts@, k, enemy_count as int),
            forall|j: int|
                0 <= j < enemy_count ==> #[trigger] enemies@[j] == old(enemies)@[j].hurt(
                    damage_dealt(bullets@.take(i as int), fates@, j),
                ),
        decreases n - i,
    {
        let fate = if i < contacts.len() {
            contacts[i].resolve(enemy_count)
        } else {
            BulletFate::Flying
        };
        let ghost fates_before = fates@;
        match fate {
            BulletFate::HitEnemy(j) => {
                enemies[j].take_damage(bullets[i].damage);
            },
            _ => {},
        }
        fates.push(fate);
        proof {
            assert(bullets@.take(i + 1).drop_last() == bullets@.take(i as int));
            assert(fates@.drop_last() == fates_before);
            assert forall|j: int| 0 <= j < enemy_count implies #[trigger] enemies@[j] == old(
                enemies,
            )@[j].hurt(damage_dealt(bullets@.take(i + 1), fates@, j)) by {
                let dealt = damage_dealt(bullets@.take(i as int), fates_before, j);
                if fate == BulletFate::HitEnemy(j as usize) {
                    old(enemies)@[j].lemma_hurt_twice(dealt, bullets@[i as int].damage as nat);
                }
            }
        }
        i += 1;
    }
    assert(bullets@.take(n as int) == bullets@);
    fates
}

} // verus!
