//! Bullets in flight, how they end, and what they report when they do.

use vstd::prelude::*;
use crate::timer::Timer;

verus! {

/// Which of the two bullets of a shotgun shot.
#[derive(Clone, Copy, Debug, PartialEq, Eq, Structural)]
pub enum BulletSide {
    Left,
    Right,
}

/// Marks a bullet as one half of a shotgun shot.
#[derive(Clone, Copy, Debug, PartialEq, Eq, Structural)]
pub struct ShotgunBullet {
    /// The half of the pair this bullet is.
    pub side: BulletSide,
    /// The place of the shot within its clip, counted from zero.
    pub shot_number: u32,
}

/// Why a bullet left the game.
#[derive(Clone, Copy, Debug, PartialEq, Eq, Structural)]
pub enum BulletEndReason {
    HitEnemy,
    HitWall,
    Expired,
}

/// Tells the gauge how one half of a shotgun shot ended.
#[derive(Clone, Copy, Debug, PartialEq, Eq, Structural)]
pub struct ShotgunBulletEndEvent {
    pub side: BulletSide,
    pub shot_number: u32,
    pub reason: BulletEndReason,
}

/// Tells whoever draws or counts hits that a bullet hit an enemy. Where that
/// was is known to whoever keeps the bullet's position.
#[derive(Clone, Copy, Debug, PartialEq, Eq, Structural)]
pub struct BulletHitEvent {
    /// The index of the bullet among the bullets of the frame.
    pub bullet: usize,
    /// The index of the enemy among the enemies of the frame.
    pub enemy: usize,
}

/// What became of a bullet in one frame.
#[derive(Clone, Copy, Debug, PartialEq, Eq, Structural)]
pub enum BulletFate {
    /// It overlapped nothing and has time left.
    Flying,
    /// It hit the enemy at this index.
    HitEnemy(usize),
    /// It hit a wall.
    HitWall,
    /// Its lifetime ran out.
    Expired,
}

impl BulletFate {
    /// The reason the bullet ended, if it did.
    pub open spec fn reason(self) -> Option<BulletEndReason> {
        match self {
            BulletFate::Flying => None,
            BulletFate::HitEnemy(_) => Some(BulletEndReason::HitEnemy),
            BulletFate::HitWall => Some(BulletEndReason::HitWall),
            BulletFate::Expired => Some(BulletEndReason::Expired),
        }
    }

    /// The reason the bullet ended, if it did.
    pub fn end_reason(&self) -> (reason: Option<BulletEndReason>)
        ensures
            reason == self.reason(),
    {
        match self {
            BulletFate::Flying => None,
            BulletFate::HitEnemy(_) => Some(BulletEndReason::HitEnemy),
            BulletFate::HitWall => Some(BulletEndReason::HitWall),
            BulletFate::Expired => Some(BulletEndReason::Expired),
        }
    }
}

/// A bullet in flight. Where it is and where it is heading belong to whoever
/// draws and moves it.
#[derive(Clone, Copy, Debug, PartialEq, Eq, Structural)]
pub struct Bullet {
    /// Counts down the time the bullet has left to fly.
    pub lifetime: Timer,
    /// The hit points it takes from an enemy.
    pub damage: u32,
    /// Set on the two bullets of a shotgun shot.
    pub shotgun: Option<ShotgunBullet>,
}

impl Bullet {
    /// The bullet after `delta` of flight.
    pub open spec fn aged(self, delta: u64) -> Bullet {
        Bullet { lifetime: self.lifetime.ticked(delta), damage: self.damage, shotgun: self.shotgun }
    }

    /// What the bullet tells the gauge when it ends with `fate`: nothing if
    /// it is still flying or is no half of a shotgun shot.
    pub open spec fn end_event(self, fate: BulletFate) -> Option<ShotgunBulletEndEvent> {
        match (self.shotgun, fate.reason()) {
            (Some(tag), Some(reason)) => Some(
                ShotgunBulletEndEvent { side: tag.side, shot_number: tag.shot_number, reason },
            ),
            _ => None,
        }
    }

    /// A plain bullet with `lifetime` nanoseconds to fly.
    pub fn new(lifetime: u64, damage: u32) -> (bullet: Bullet)
        ensures
            bullet == (Bullet { lifetime: Timer::fresh(lifetime), damage, shotgun: None }),
    {
        Bullet { lifetime: Timer::new(lifetime), damage, shotgun: None }
    }

    /// The same bullet with another damage.
    pub fn change_damage(self, damage: u32) -> (bullet: Bullet)
        ensures
            bullet == (Bullet { lifetime: self.lifetime, damage, shotgun: self.shotgun }),
    {
        Bullet { lifetime: self.lifetime, damage, shotgun: self.shotgun }
    }

    /// The same bullet marked as the `side` half of shot `shot_number`.
    pub fn paired(self, side: BulletSide, shot_number: u32) -> (bullet: Bullet)
        ensures
            bullet == (Bullet {
                lifetime: self.lifetime,
                damage: self.damage,
                shotgun: Some(ShotgunBullet { side, shot_number }),
            }),
    {
        Bullet {
            lifetime: self.lifetime,
            damage: self.damage,
            shotgun: Some(ShotgunBullet { side, shot_number }),
        }
    }

    /// What the bullet tells the gauge when it ends with `fate`.
    pub fn report(&self, fate: BulletFate) -> (event: Option<ShotgunBulletEndEvent>)
        ensures
            event == self.end_event(fate),
    {
        match (self.shotgun, fate.end_reason()) {
            (Some(tag), Some(reason)) => Some(
                ShotgunBulletEndEvent { side: tag.side, shot_number: tag.shot_number, reason },
            ),
            _ => None,
        }
    }
}

/// Lets `delta` pass for every bullet. Entry `i` of the result says whether
/// bullet `i` ran out of time on this tick. No bullet is removed here: a
/// bullet that ran out of time may still have hit something in the same
/// frame, and then the hit is how it ended.
pub fn bullet_lifetime(bullets: &mut Vec<Bullet>, delta: u64) -> (expired: Vec<bool>)
    ensures
        final(bullets)@.len() == old(bullets)@.len(),
        expired@.len() == old(bullets)@.len(),
        forall|i: int|
            0 <= i < old(bullets)@.len() ==> #[trigger] final(bullets)@[i] == old(bullets)@[i].aged(
                delta,
            ),
        forall|i: int|
            0 <= i < old(bullets)@.len() ==> #[trigger] expired@[i] == old(
                bullets,
            )@[i].lifetime.completes(delta),
{
    let mut expired: Vec<bool> = Vec::new();
    let n: usize = bullets.len();
    let mut i: usize = 0;
    while i < n
        invariant
            i <= n,
            n == bullets@.len(),
            n == old(bullets)@.len(),
            expired@.len() == i,
            forall|k: int| 0 <= k < i ==> #[trigger] bullets@[k] == old(bullets)@[k].aged(delta),
            forall|k: int| i <= k < n ==> #[trigger] bullets@[k] == old(bullets)@[k],
            forall|k: int|
                0 <= k < i ==> #[trigger] expired@[k] == old(bullets)@[k].lifetime.completes(delta),
        decreases n - i,
    {
        let done = bullets[i].lifetime.tick(delta);
        expired.push(done);
        i += 1;
    }
    expired
}

} // verus!
