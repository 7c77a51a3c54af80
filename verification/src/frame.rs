//! One frame of combat: every part takes its turn, in a fixed order.

use vstd::prelude::*;
use crate::bullet::{
    bullet_lifetime, Bullet, BulletFate, BulletHitEvent, ShotgunBulletEndEvent,
};
use crate::collision::{
    bullet_collision, bullet_hits, damage_dealt, hit_at, hit_events, hits, Contacts,
};
use crate::gauge::{
    double_hits, in_range, recorded_all, settled_pairs, shotgun_check_gauge, shotgun_check_shots,
    swept, HitPair, PairReport, ShotgunGauge,
};
use crate::gun::{immediate_reload, reload, shoot_bullet, Cartridge, Gun, Shotgun};
use crate::health::Health;

verus! {

/// What happened in one frame.
pub struct FrameReport {
    /// The fate of every bullet that was in flight when the frame began, in
    /// the order in which they were handed in.
    pub fates: Vec<BulletFate>,
    /// One event for every bullet that hit an enemy.
    pub hits: Vec<BulletHitEvent>,
    /// How the shotgun bullets that ended in this frame ended.
    pub ends: Vec<ShotgunBulletEndEvent>,
    /// The shots that the gauge found settled.
    pub pairs: Vec<PairReport>,
    /// The immediate reloads that the gauge granted.
    pub reloads: usize,
    /// Whether the gun finished reloading by its countdown.
    pub reloaded: bool,
    /// The number of bullets that were fired: they are the last of the
    /// bullets in flight when the frame is over.
    pub spawned: usize,
}

/// The fate of a bullet that hit `hit` and whose lifetime did or did not run
/// out: a hit comes before the end of the lifetime.
pub open spec fn settled_fate(hit: BulletFate, expired: bool) -> BulletFate {
    if hit !is Flying {
        hit
    } else if expired {
        BulletFate::Expired
    } else {
        BulletFate::Flying
    }
}

/// The fate of every bullet in a frame of `delta`.
pub open spec fn frame_fates(
    bullets: Seq<Bullet>,
    contacts: Seq<Contacts>,
    enemy_count: int,
    delta: u64,
) -> Seq<BulletFate> {
    Seq::new(
        bullets.len(),
        |i: int|
            settled_fate(hit_at(contacts, i, enemy_count), bullets[i].lifetime.completes(delta)),
    )
}

/// Every bullet after `delta` of flight.
pub open spec fn aged_all(bullets: Seq<Bullet>, delta: u64) -> Seq<Bullet> {
    Seq::new(bullets.len(), |i: int| bullets[i].aged(delta))
}

/// What the bullets that ended tell the gauge, in the order of the bullets.
pub open spec fn end_events(bullets: Seq<Bullet>, fates: Seq<BulletFate>) -> Seq<
    ShotgunBulletEndEvent,
>
    decreases bullets.len(),
{
    if bullets.len() == 0 || fates.len() != bullets.len() {
        Seq::empty()
    } else {
        let before = end_events(bullets.drop_last(), fates.drop_last());
        match bullets.last().end_event(fates.last()) {
            Some(event) => before.push(event),
            None => before,
        }
    }
}

/// The bullets that fly on, in their order.
pub open spec fn survivors(bullets: Seq<Bullet>, fates: Seq<BulletFate>) -> Seq<Bullet>
    decreases bullets.len(),
{
    if bullets.len() == 0 || fates.len() != bullets.len() {
        Seq::empty()
    } else {
        let before = survivors(bullets.drop_last(), fates.drop_last());
        if fates.last() is Flying {
            before.push(bullets.last())
        } else {
            before
        }
    }
}

/// Whether a gauge of `len` pairs has a place for every shotgun bullet.
pub open spec fn tags_in_range(bullets: Seq<Bullet>, len: nat) -> bool {
    forall|i: int|
        0 <= i < bullets.len() ==> ((#[trigger] bullets[i]).shotgun matches Some(tag)
            ==> tag.shot_number < len)
}

/// The pairs of the gauge after the gun's turn: a shotgun that fires empties
/// the pair of its shot.
pub open spec fn pairs_after_shot(
    pairs: Seq<HitPair>,
    gun: Gun,
    shotgun: bool,
    pressed: bool,
    delta: u64,
) -> Seq<HitPair> {
    if shotgun && gun.fires(pressed, delta) {
        pairs.update(gun.shot_number() as int, HitPair::empty())
    } else {
        pairs
    }
}

/// Whether a frame can be run on this gun, gauge and bullets: the gun is one
/// that can be in play, and the gauge, if there is one, has a pair for every
/// shot of the clip and for every shotgun bullet in flight.
pub open spec fn in_play(gun: Gun, gauge: Option<Seq<HitPair>>, bullets: Seq<Bullet>) -> bool {
    &&& gun.wf()
    &&& gauge matches Some(pairs) ==> gun.clip_size <= pairs.len() && tags_in_range(
        bullets,
        pairs.len(),
    )
}

/// Whether a frame can be run on this gun, gauge and bullets.
pub fn check_in_play(gun: &Gun, gauge: Option<&ShotgunGauge>, bullets: &Vec<Bullet>) -> (ok: bool)
    ensures
        ok == in_play(
            *gun,
            match gauge {
                Some(g) => Some(g@),
                None => None,
            },
            bullets@,
        ),
{
    match gauge {
        None => gun.is_wf(),
        Some(g) => gun.is_wf() && gun.clip_size as usize <= g.len() && tags_fit(bullets, g.len()),
    }
}

/// Whether a gauge of `len` pairs has a place for every shotgun bullet.
pub fn tags_fit(bullets: &Vec<Bullet>, len: usize) -> (ok: bool)
    ensures
        ok == tags_in_range(bullets@, len as nat),
{
    let mut i: usize = 0;
    while i < bullets.len()
        invariant
            i <= bullets@.len(),
            forall|k: int|
                0 <= k < i ==> ((#[trigger] bullets@[k]).shotgun matches Some(tag)
                    ==> tag.shot_number < len),
        decreases bullets@.len() - i,
    {
        match bullets[i].shotgun {
            Some(tag) => {
                if tag.shot_number as usize >= len {
                    return false;
                }
            },
            None => {},
        }
        i += 1;
    }
    true
}

/// Joins what every bullet hit with whether its lifetime ran out.
fn settle(hits: &Vec<BulletFate>, expired: &Vec<bool>) -> (fates: Vec<BulletFate>)
    requires
        hits@.len() == expired@.len(),
    ensures
        fates@.len() == hits@.len(),
        forall|i: int|
            0 <= i < hits@.len() ==> #[trigger] fates@[i] == settled_fate(hits@[i], expired@[i]),
{
    let mut fates: Vec<BulletFate> = Vec::new();
    let mut i: usize = 0;
    while i < hits.len()
        invariant
            i <= hits@.len(),
            hits@.len() == expired@.len(),
            fates@.len() == i,
            forall|k: int| 0 <= k < i ==> #[trigger] fates@[k] == settled_fate(hits@[k], expired@[k]),
        decreases hits@.len() - i,
    {
        let fate = match hits[i] {
            BulletFate::Flying => if expired[i] {
                BulletFate::Expired
            } else {
                BulletFate::Flying
            },
            hit => hit,
        };
        fates.push(fate);
        i += 1;
    }
    fates
}

/// Gathers what the bullets that ended tell the gauge.
fn collect_ends(bullets: &Vec<Bullet>, fates: &Vec<BulletFate>) -> (ends: Vec<
    ShotgunBulletEndEvent,
>)
    requires
        fates@.len() == bullets@.len(),
    ensures
        ends@ == end_events(bullets@, fates@),
{
    let mut ends: Vec<ShotgunBulletEndEvent> = Vec::new();
    let n: usize = bullets.len();
    let mut i: usize = 0;
    while i < n
        invariant
            i <= n,
            n == bullets@.len(),
            n == fates@.len(),
            ends@ == end_events(bullets@.take(i as int), fates@.take(i as int)),
        decreases n - i,
    {
        assert(bullets@.take(i + 1).drop_last() == bullets@.take(i as int));
        assert(fates@.take(i + 1).drop_last() == fates@.take(i as int));
        match bullets[i].report(fates[i]) {
            Some(event) => {
                ends.push(event);
            },
            None => {},
        }
        i += 1;
    }
    assert(bullets@.take(n as int) == bullets@);
    assert(fates@.take(n as int) == fates@);
    ends
}

/// Keeps the bullets that fly on.
fn retire(bullets: &Vec<Bullet>, fates: &Vec<BulletFate>) -> (flying: Vec<Bullet>)
    requires
        fates@.len() == bullets@.len(),
    ensures
        flying@ == survivors(bullets@, fates@),
{
    let mut flying: Vec<Bullet> = Vec::new();
    let n: usize = bullets.len();
    let mut i: usize = 0;
    while i < n
        invariant
            i <= n,
            n == bullets@.len(),
            n == fates@.len(),
            flying@ == survivors(bullets@.take(i as int), fates@.take(i as int)),
        decreases n - i,
    {
        assert(bullets@.take(i + 1).drop_last() == bullets@.take(i as int));
        assert(fates@.take(i + 1).drop_last() == fates@.take(i as int));
        match fates[i] {
            BulletFate::Flying => {
                flying.push(bullets[i]);
            },
            _ => {},
        }
        i += 1;
    }
    assert(bullets@.take(n as int) == bullets@);
    assert(fates@.take(n as int) == fates@);
    flying
}

/// How many of `fates` are to fly on.
pub open spec fn flying_count(fates: Seq<BulletFate>) -> nat
    decreases fates.len(),
{
    if fates.len() == 0 {
        0
    } else {
        flying_count(fates.drop_last()) + if fates.last() is Flying {
            1nat
        } else {
            0nat
        }
    }
}

/// As many bullets fly on as there are fates that say so: a bullet that
/// ended is gone when the frame is over, and can end no second time.
pub proof fn lemma_survivors_count(bullets: Seq<Bullet>, fates: Seq<BulletFate>)
    requires
        fates.len() == bullets.len(),
    ensures
        survivors(bullets, fates).len() == flying_count(fates),
        flying_count(fates) <= bullets.len(),
        flying_count(fates) == bullets.len() ==> survivors(bullets, fates) == bullets,
    decreases bullets.len(),
{
    if bullets.len() > 0 {
        lemma_survivors_count(bullets.drop_last(), fates.drop_last());
    }
}

/// A bullet alone in a frame that overlaps nothing is gone after the frame
/// exactly if its lifetime ran out in it, and has aged by the frame otherwise.
pub proof fn lemma_lone_bullet(bullet: Bullet, contacts: Seq<Contacts>, enemy_count: int, delta: u64)
    requires
        hit_at(contacts, 0, enemy_count) is Flying,
    ensures
        ({
            let fates = frame_fates(seq![bullet], contacts, enemy_count, delta);
            let after = survivors(aged_all(seq![bullet], delta), fates);
            if bullet.lifetime.completes(delta) {
                fates == seq![BulletFate::Expired] && after == Seq::<Bullet>::empty()
            } else {
                fates == seq![BulletFate::Flying] && after == seq![bullet.aged(delta)]
            }
        }),
{
    let fates = frame_fates(seq![bullet], contacts, enemy_count, delta);
    let aged = aged_all(seq![bullet], delta);
    assert(survivors(aged.drop_last(), fates.drop_last()) == Seq::<Bullet>::empty());
}

/// What bullets tell the gauge depends on their marks alone, not on their age.
proof fn lemma_end_events_of_aged(bullets: Seq<Bullet>, fates: Seq<BulletFate>, delta: u64)
    ensures
        end_events(aged_all(bullets, delta), fates) == end_events(bullets, fates),
    decreases bullets.len(),
{
    if bullets.len() > 0 && fates.len() == bullets.len() {
        assert(aged_all(bullets, delta).drop_last() == aged_all(bullets.drop_last(), delta));
        lemma_end_events_of_aged(bullets.drop_last(), fates.drop_last(), delta);
    }
}

/// The damage an enemy takes is that of the bullets that hit it, whether or
/// not the lifetime of others ran out.
proof fn lemma_damage_of_fates(
    bullets: Seq<Bullet>,
    contacts: Seq<Contacts>,
    enemy_count: int,
    delta: u64,
    enemy: int,
)
    ensures
        damage_dealt(
            bullets,
            hits(contacts, bullets.len(), enemy_count),
            enemy,
        ) == damage_dealt(bullets, frame_fates(bullets, contacts, enemy_count, delta), enemy),
    decreases bullets.len(),
{
    let h = hits(contacts, bullets.len(), enemy_count);
    let f = frame_fates(bullets, contacts, enemy_count, delta);
    if bullets.len() > 0 {
        let before = bullets.drop_last();
        assert(h.drop_last() == hits(contacts, before.len(), enemy_count));
        assert(f.drop_last() == frame_fates(before, contacts, enemy_count, delta));
        lemma_damage_of_fates(before, contacts, enemy_count, delta, enemy);
    }
}

/// The gauge has a place for whatever bullets in its range tell it.
proof fn lemma_ends_in_range(bullets: Seq<Bullet>, fates: Seq<BulletFate>, len: nat)
    requires
        tags_in_range(bullets, len),
    ensures
        in_range(len, end_events(bullets, fates)),
    decreases bullets.len(),
{
    if bullets.len() > 0 && fates.len() == bullets.len() {
        assert(tags_in_range(bullets.drop_last(), len));
        lemma_ends_in_range(bullets.drop_last(), fates.drop_last(), len);
    }
}

/// The bullets that fly on are among those that flew.
proof fn lemma_survivors_in_range(bullets: Seq<Bullet>, fates: Seq<BulletFate>, len: nat)
    requires
        tags_in_range(bullets, len),
    ensures
        tags_in_range(survivors(bullets, fates), len),
    decreases bullets.len(),
{
    if bullets.len() > 0 && fates.len() == bullets.len() {
        assert(tags_in_range(bullets.drop_last(), len));
        lemma_survivors_in_range(bullets.drop_last(), fates.drop_last(), len);
    }
}

/// Runs one frame of `delta`. The gun takes the trigger and may fire, which
/// empties the pair of a shotgun shot in the gauge. The bullets already in
/// flight age, and each is resolved against `contacts`, a hit coming before
/// the end of its lifetime. After that the gauge takes what the ended shotgun
/// bullets tell it and is read, and last the gun reloads, by its countdown
/// or at once if the gauge grants it. The bullets that ended are gone from
/// `bullets` when the frame is over, and the bullets that were fired are at
/// its end: they take no part in this frame.
pub fn frame(
    gun: &mut Gun,
    shotgun: Option<&Shotgun>,
    gauge: Option<&mut ShotgunGauge>,
    cart: Option<&Cartridge>,
    bullets: &mut Vec<Bullet>,
    enemies: &mut Vec<Health>,
    contacts: &Vec<Contacts>,
    button_pressed: bool,
    delta: u64,
) -> (report: FrameReport)
    requires
        in_play(
            *old(gun),
            match gauge {
                Some(g) => Some(g@),
                None => None,
            },
            old(bullets)@,
        ),
    ensures
        report.fates@ == frame_fates(old(bullets)@, contacts@, old(enemies)@.len() as int, delta),
        report.hits@ == hit_events(report.fates@),
        final(enemies)@.len() == old(enemies)@.len(),
        forall|j: int|
            0 <= j < old(enemies)@.len() ==> #[trigger] final(enemies)@[j] == old(enemies)@[j].hurt(
                damage_dealt(old(bullets)@, report.fates@, j),
            ),
        report.ends@ == end_events(old(bullets)@, report.fates@),
        gauge matches Some(g) ==> ({
            let read = recorded_all(
                pairs_after_shot(g@, *old(gun), shotgun is Some, button_pressed, delta),
                report.ends@,
            );
            &&& report.pairs@ == settled_pairs(read)
            &&& report.reloads == double_hits(read)
            &&& final(g)@ == swept(read)
        }),
        gauge is None ==> report.pairs@.len() == 0 && report.reloads == 0,
        *final(gun) == old(gun).after_trigger(button_pressed, delta).after_reload(
            delta,
        ).after_bonus(report.reloads as nat),
        report.reloaded == old(gun).after_trigger(button_pressed, delta).reload_completes(delta),
        final(bullets)@ == survivors(aged_all(old(bullets)@, delta), report.fates@) + old(
            gun,
        ).shots(shotgun is Some, cart is Some, button_pressed, delta),
        report.spawned == old(gun).shots(
            shotgun is Some,
            cart is Some,
            button_pressed,
            delta,
        ).len(),
        in_play(
            *final(gun),
            match gauge {
                Some(g) => Some(final(g)@),
                None => None,
            },
            final(bullets)@,
        ),
{
    let ghost flew = bullets@;
    let ghost enemy_count = enemies@.len() as int;
    let struck = bullet_collision(bullets, enemies, contacts);
    let expired = bullet_lifetime(bullets, delta);
    let fates = settle(&struck, &expired);
    let hits = bullet_hits(&fates);
    let ends = collect_ends(bullets, &fates);
    let mut flying = retire(bullets, &fates);
    proof {
        assert(fates@ =~= frame_fates(flew, contacts@, enemy_count, delta));
        assert(bullets@ =~= aged_all(flew, delta));
        lemma_end_events_of_aged(flew, fates@, delta);
        assert forall|j: int| 0 <= j < enemy_count implies damage_dealt(flew, struck@, j)
            == damage_dealt(flew, fates@, j) by {
            lemma_damage_of_fates(flew, contacts@, enemy_count, delta, j);
        }
    }
    let mut pairs: Vec<PairReport> = Vec::new();
    let mut reloads: usize = 0;
    let shots = match gauge {
        Some(g) => {
            let ghost len = g@.len();
            let shots = shoot_bullet(gun, shotgun, Some(&mut *g), cart, button_pressed, delta);
            proof {
                lemma_ends_in_range(flew, fates@, len);
                lemma_survivors_in_range(bullets@, fates@, len);
            }
            shotgun_check_shots(g, &ends);
            let read = shotgun_check_gauge(g);
            pairs = read.pairs;
            reloads = read.reloads;
            shots
        },
        None => shoot_bullet(gun, shotgun, None, cart, button_pressed, delta),
    };
    let reloaded = reload(gun, delta);
    immediate_reload(gun, reloads);
    let spawned: usize = shots.len();
    let mut i: usize = 0;
    while i < spawned
        invariant
            i <= spawned,
            spawned == shots@.len(),
            flying@ == survivors(aged_all(flew, delta), fates@) + shots@.take(i as int),
        decreases spawned - i,
    {
        flying.push(shots[i]);
        i += 1;
    }
    *bullets = flying;
    FrameReport { fates, hits, ends, pairs, reloads, reloaded, spawned }
}

} // verus!
