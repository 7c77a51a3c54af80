//! The gun: its ammunition, the pause between shots, and reloading.

use vstd::prelude::*;
use crate::bullet::{Bullet, BulletSide, ShotgunBullet};
use crate::gauge::{HitPair, ShotgunGauge};
use crate::timer::Timer;

verus! {

/// The damage of every bullet fired while a cartridge is attached.
pub const CARTRIDGE_DAMAGE: u32 = 2;

/// The angle, in degrees, by which each bullet of a shotgun shot is turned
/// away from the aim: the left one to the left, the right one to the right.
pub const SPREAD_DEGREES: u32 = 6;

/// Whether the gun can be fired or is being reloaded.
#[derive(Clone, Copy, Debug, PartialEq, Eq, Structural)]
pub enum GunState {
    /// There is ammunition in the clip.
    Ready,
    /// The clip is empty and the reload is under way.
    Reloading,
    /// Set aside for later use; no gun is ever in this state.
    Shooting,
}

/// Makes a gun fire two bullets at a time, spread to the left and right.
#[derive(Clone, Copy, Debug, PartialEq, Eq, Structural)]
pub struct Shotgun;

/// The power of a cartridge as it is picked up.
pub const CARTRIDGE_POWER: usize = 100;

/// A power-up attached to the gun.
#[derive(Clone, Copy, Debug, PartialEq, Eq, Structural)]
pub struct Cartridge {
    pub power: usize,
}

impl Cartridge {
    /// A cartridge as it is picked up.
    pub fn new() -> (cart: Cartridge)
        ensures
            cart == (Cartridge { power: CARTRIDGE_POWER }),
    {
        Cartridge { power: CARTRIDGE_POWER }
    }
}

/// A gun with a clip of `clip_size` shots.
#[derive(Clone, Copy, Debug, PartialEq, Eq, Structural)]
pub struct Gun {
    /// The number of shots in a full clip.
    pub clip_size: u32,
    /// The number of shots left in the clip.
    pub shots_left: u32,
    /// The pause that must pass after a shot before the next.
    pub time_between_shots: u64,
    /// What is left of that pause.
    pub cooldown_remaining: u64,
    /// Counts down the reload. It starts over whenever the clip runs empty.
    pub reload_timer: Timer,
    /// Whether the gun can be fired or is being reloaded.
    pub state: GunState,
    /// The damage of a bullet fired without a cartridge.
    pub damage: u32,
    /// The time a bullet of this gun may fly.
    pub bullet_lifetime: u64,
}

/// Something that happens to a gun.
pub enum GunEvent {
    /// A frame of `delta` passes for the trigger, which is held or not.
    Trigger { pressed: bool, delta: u64 },
    /// A frame of `delta` passes for the reload.
    Reload { delta: u64 },
    /// The gauge grants an immediate reload.
    Bonus,
}

impl Gun {
    /// What holds of every gun in play: the clip is never overfull, the gun
    /// is reloading exactly while the clip is empty, and the pause between
    /// shots never exceeds its full length.
    pub open spec fn wf(self) -> bool {
        &&& 0 < self.clip_size
        &&& self.shots_left <= self.clip_size
        &&& self.state == GunState::Ready <==> self.shots_left > 0
        &&& self.state == GunState::Reloading <==> self.shots_left == 0
        &&& self.cooldown_remaining <= self.time_between_shots
        &&& self.reload_timer.wf()
        &&& self.state == GunState::Reloading ==> !self.reload_timer.finished
    }

    /// A new gun with a full clip, ready to fire.
    pub open spec fn loaded(
        clip_size: u32,
        time_between_shots: u64,
        reload_time: u64,
        damage: u32,
        bullet_lifetime: u64,
    ) -> Gun {
        Gun {
            clip_size,
            shots_left: clip_size,
            time_between_shots,
            cooldown_remaining: 0,
            reload_timer: Timer::fresh(reload_time),
            state: GunState::Ready,
            damage,
            bullet_lifetime,
        }
    }

    /// Whether the gun fires in a frame of `delta`: the trigger is held, there
    /// is a shot left, and the pause since the last shot is over by the end
    /// of the frame.
    pub open spec fn fires(self, pressed: bool, delta: u64) -> bool {
        pressed && self.shots_left > 0 && self.cooldown_remaining <= delta
    }

    /// The place within the clip of the shot that would be fired next.
    pub open spec fn shot_number(self) -> u32 {
        (self.clip_size - self.shots_left) as u32
    }

    /// The damage of a bullet fired now.
    pub open spec fn bullet_damage(self, cart: bool) -> u32 {
        if cart {
            CARTRIDGE_DAMAGE
        } else {
            self.damage
        }
    }

    /// The gun after a frame of `delta` with the trigger held or not. A shot
    /// takes one round from the clip and starts the pause anew; the last
    /// round starts the reload. Without a shot only the pause runs down.
    pub open spec fn after_trigger(self, pressed: bool, delta: u64) -> Gun {
        if self.fires(pressed, delta) {
            if self.shots_left == 1 {
                Gun {
                    shots_left: 0,
                    cooldown_remaining: self.time_between_shots,
                    state: GunState::Reloading,
                    reload_timer: Timer::fresh(self.reload_timer.duration),
                    ..self
                }
            } else {
                Gun {
                    shots_left: (self.shots_left - 1) as u32,
                    cooldown_remaining: self.time_between_shots,
                    ..self
                }
            }
        } else if delta >= self.cooldown_remaining {
            Gun { cooldown_remaining: 0, ..self }
        } else {
            Gun { cooldown_remaining: (self.cooldown_remaining - delta) as u64, ..self }
        }
    }

    /// The bullets that leave the gun in that frame: none if it does not
    /// fire, the left and the right one of a shotgun, else a single one.
    pub open spec fn shots(self, shotgun: bool, cart: bool, pressed: bool, delta: u64) -> Seq<
        Bullet,
    > {
        let plain = Bullet {
            lifetime: Timer::fresh(self.bullet_lifetime),
            damage: self.bullet_damage(cart),
            shotgun: None,
        };
        if !self.fires(pressed, delta) {
            Seq::empty()
        } else if shotgun {
            seq![
                Bullet {
                    shotgun: Some(
                        ShotgunBullet { side: BulletSide::Left, shot_number: self.shot_number() },
                    ),
                    ..plain
                },
                Bullet {
                    shotgun: Some(
                        ShotgunBullet { side: BulletSide::Right, shot_number: self.shot_number() },
                    ),
                    ..plain
                },
            ]
        } else {
            seq![plain]
        }
    }

    /// Whether a frame of `delta` ends the reload.
    pub open spec fn reload_completes(self, delta: u64) -> bool {
        self.state == GunState::Reloading && self.reload_timer.completes(delta)
    }

    /// The gun with a full clip, ready to fire.
    pub open spec fn refilled(self) -> Gun {
        Gun { shots_left: self.clip_size, state: GunState::Ready, ..self }
    }

    /// The gun after a frame of `delta` of reloading. Only a reloading gun
    /// changes: its countdown runs, and when it ends the clip is full again.
    pub open spec fn after_reload(self, delta: u64) -> Gun {
        if self.state == GunState::Reloading {
            let ticked = Gun { reload_timer: self.reload_timer.ticked(delta), ..self };
            if self.reload_timer.completes(delta) {
                ticked.refilled()
            } else {
                ticked
            }
        } else {
            self
        }
    }

    /// The gun after `signals` immediate reloads: one is as good as many.
    pub open spec fn after_bonus(self, signals: nat) -> Gun {
        if signals > 0 {
            self.refilled()
        } else {
            self
        }
    }

    /// The gun after `event`.
    pub open spec fn after(self, event: GunEvent) -> Gun {
        match event {
            GunEvent::Trigger { pressed, delta } => self.after_trigger(pressed, delta),
            GunEvent::Reload { delta } => self.after_reload(delta),
            GunEvent::Bonus => self.after_bonus(1),
        }
    }

    /// The gun after all of `events`, in order.
    pub open spec fn after_all(self, events: Seq<GunEvent>) -> Gun
        decreases events.len(),
    {
        if events.len() == 0 {
            self
        } else {
            self.after_all(events.drop_last()).after(events.last())
        }
    }

    /// The time that passes for the trigger over `events`.
    pub open spec fn trigger_time(events: Seq<GunEvent>) -> nat
        decreases events.len(),
    {
        if events.len() == 0 {
            0
        } else {
            Self::trigger_time(events.drop_last()) + match events.last() {
                GunEvent::Trigger { delta, .. } => delta as nat,
                _ => 0nat,
            }
        }
    }

    /// Whether the gun fires on `event`.
    pub open spec fn fires_on(self, event: GunEvent) -> bool {
        event matches GunEvent::Trigger { pressed, delta } && self.fires(pressed, delta)
    }

    /// How many times the gun fires over `events`.
    pub open spec fn shots_fired(self, events: Seq<GunEvent>) -> nat
        decreases events.len(),
    {
        if events.len() == 0 {
            0
        } else {
            self.shots_fired(events.drop_last()) + if self.after_all(events.drop_last()).fires_on(
                events.last(),
            ) {
                1nat
            } else {
                0nat
            }
        }
    }

    /// Whether `event` refills a clip that is neither empty nor full: an
    /// immediate reload that reaches a gun with some of its shots fired.
    pub open spec fn tops_up(self, event: GunEvent) -> bool {
        event is Bonus && 0 < self.shots_left < self.clip_size
    }

    /// A new gun with a full clip, ready to fire; `None` for a clip of no shots.
    pub fn new(
        clip_size: u32,
        time_between_shots: u64,
        reload_time: u64,
        damage: u32,
        bullet_lifetime: u64,
    ) -> (gun: Option<Gun>)
        ensures
            gun == if clip_size == 0 {
                None
            } else {
                Some(Gun::loaded(clip_size, time_between_shots, reload_time, damage, bullet_lifetime))
            },
            gun matches Some(g) ==> g.wf(),
    {
        if clip_size == 0 {
            None
        } else {
            Some(
                Gun {
                    clip_size,
                    shots_left: clip_size,
                    time_between_shots,
                    cooldown_remaining: 0,
                    reload_timer: Timer::new(reload_time),
                    state: GunState::Ready,
                    damage,
                    bullet_lifetime,
                },
            )
        }
    }

    /// Whether the gun is one that can be in play.
    pub fn is_wf(&self) -> (ok: bool)
        ensures
            ok == self.wf(),
    {
        let timer = &self.reload_timer;
        let timer_ok = timer.remaining <= timer.duration && (!timer.finished || timer.remaining
            == 0);
        let state_ok = match self.state {
            GunState::Ready => self.shots_left > 0,
            GunState::Reloading => self.shots_left == 0 && !timer.finished,
            GunState::Shooting => false,
        };
        0 < self.clip_size && self.shots_left <= self.clip_size && state_ok
            && self.cooldown_remaining <= self.time_between_shots && timer_ok
    }
}

/// One frame of the trigger. If the trigger is held, a shot is left and the
/// pause since the last shot is over, the gun fires: one bullet, or the two
/// of a shotgun, whose pair in the gauge is emptied first. Otherwise nothing
/// leaves the gun and only the pause runs down.
///
/// A shot is known to the gauge by its place in the clip alone. Bullets of an
/// earlier clip that are still in flight when a shot takes their place again
/// will write to the pair of the new shot.
pub fn shoot_bullet(
    gun: &mut Gun,
    shotgun: Option<&Shotgun>,
    gauge: Option<&mut ShotgunGauge>,
    cart: Option<&Cartridge>,
    button_pressed: bool,
    delta: u64,
) -> (shots: Vec<Bullet>)
    requires
        old(gun).wf(),
        gauge matches Some(g) ==> (shotgun is Some && old(gun).fires(button_pressed, delta)
            ==> old(gun).shot_number() < g@.len()),
    ensures
        *final(gun) == old(gun).after_trigger(button_pressed, delta),
        final(gun).wf(),
        shots@ == old(gun).shots(shotgun is Some, cart is Some, button_pressed, delta),
        gauge matches Some(g) ==> final(g)@ == if shotgun is Some && old(gun).fires(
            button_pressed,
            delta,
        ) {
            g@.update(old(gun).shot_number() as int, HitPair::empty())
        } else {
            g@
        },
{
    let mut shots: Vec<Bullet> = Vec::new();
    if button_pressed && gun.shots_left > 0 && gun.cooldown_remaining <= delta {
        let damage: u32 = if cart.is_some() {
            CARTRIDGE_DAMAGE
        } else {
            gun.damage
        };
        let shot_number: u32 = gun.clip_size - gun.shots_left;
        let bullet = Bullet::new(gun.bullet_lifetime, damage);
        if shotgun.is_some() {
            match gauge {
                Some(g) => {
                    g.reset(shot_number as usize);
                },
                None => {},
            }
            shots.push(bullet.paired(BulletSide::Left, shot_number));
            shots.push(bullet.paired(BulletSide::Right, shot_number));
        } else {
            shots.push(bullet);
        }
        gun.cooldown_remaining = gun.time_between_shots;
        gun.shots_left -= 1;
        if gun.shots_left == 0 {
            gun.state = GunState::Reloading;
            gun.reload_timer.reset();
        }
    } else if delta >= gun.cooldown_remaining {
        gun.cooldown_remaining = 0;
    } else {
        gun.cooldown_remaining -= delta;
    }
    shots
}

/// One frame of reloading. Returns whether the reload ended in this frame,
/// which fills the clip and makes the gun ready.
pub fn reload(gun: &mut Gun, delta: u64) -> (finished: bool)
    requires
        old(gun).wf(),
    ensures
        *final(gun) == old(gun).after_reload(delta),
        finished == old(gun).reload_completes(delta),
        final(gun).wf(),
{
    if gun.state == GunState::Reloading {
        if gun.reload_timer.tick(delta) {
            gun.shots_left = gun.clip_size;
            gun.state = GunState::Ready;
            true
        } else {
            false
        }
    } else {
        false
    }
}

/// Takes `signals` immediate reloads: if there is any, the clip is filled and
/// the gun is ready, whatever it was doing.
pub fn immediate_reload(gun: &mut Gun, signals: usize)
    requires
        old(gun).wf(),
    ensures
        *final(gun) == old(gun).after_bonus(signals as nat),
        final(gun).wf(),
{
    if signals > 0 {
        gun.shots_left = gun.clip_size;
        gun.state = GunState::Ready;
    }
}

/// A gun in play is still one after any event, with the same clip and the
/// same pause between shots.
pub proof fn lemma_event_keeps_wf(gun: Gun, event: GunEvent)
    requires
        gun.wf(),
    ensures
        gun.after(event).wf(),
        gun.after(event).clip_size == gun.clip_size,
        gun.after(event).time_between_shots == gun.time_between_shots,
{
}

/// A gun in play is still one after any run of events.
pub proof fn lemma_events_keep_wf(gun: Gun, events: Seq<GunEvent>)
    requires
        gun.wf(),
    ensures
        gun.after_all(events).wf(),
        gun.after_all(events).clip_size == gun.clip_size,
        gun.after_all(events).time_between_shots == gun.time_between_shots,
    decreases events.len(),
{
    if events.len() > 0 {
        lemma_events_keep_wf(gun, events.drop_last());
        lemma_event_keeps_wf(gun.after_all(events.drop_last()), events.last());
    }
}

/// The ammunition only goes down while the gun is ready, by one round for
/// each shot, and goes up only when a reloading gun becomes ready, which
/// fills the clip. The one event left out is an immediate reload that
/// reaches a ready gun with some of its shots fired: it fills the clip too.
pub proof fn lemma_ammo_steps(gun: Gun, event: GunEvent)
    requires
        gun.wf(),
        !gun.tops_up(event),
    ensures
        gun.after(event).shots_left < gun.shots_left ==> gun.state == GunState::Ready
            && gun.fires_on(event) && gun.after(event).shots_left == gun.shots_left - 1,
        gun.after(event).shots_left > gun.shots_left ==> gun.state == GunState::Reloading
            && gun.after(event).state == GunState::Ready && gun.after(event).shots_left
            == gun.clip_size,
{
}

/// The same of every step of a run of events that tops up no clip.
pub proof fn lemma_ammo_steps_all(gun: Gun, events: Seq<GunEvent>, i: int)
    requires
        gun.wf(),
        0 <= i < events.len(),
        !gun.after_all(events.take(i)).tops_up(events[i]),
    ensures
        ({
            let before = gun.after_all(events.take(i));
            let after = gun.after_all(events.take(i + 1));
            &&& before.wf()
            &&& after == before.after(events[i])
            &&& after.shots_left < before.shots_left ==> before.state == GunState::Ready
                && before.fires_on(events[i]) && after.shots_left == before.shots_left - 1
            &&& after.shots_left > before.shots_left ==> before.state == GunState::Reloading
                && after.state == GunState::Ready && after.shots_left == gun.clip_size
        }),
{
    assert(events.take(i + 1).drop_last() == events.take(i));
    lemma_events_keep_wf(gun, events.take(i));
    lemma_ammo_steps(gun.after_all(events.take(i)), events[i]);
}

/// While the events add up to less time than is left of the pause between
/// shots, the gun does not fire, and the pause has run down by no more than
/// that time.
pub proof fn lemma_pause_holds(gun: Gun, events: Seq<GunEvent>)
    requires
        gun.wf(),
        Gun::trigger_time(events) < gun.cooldown_remaining,
    ensures
        gun.shots_fired(events) == 0,
        gun.after_all(events).cooldown_remaining >= gun.cooldown_remaining - Gun::trigger_time(
            events,
        ),
    decreases events.len(),
{
    if events.len() > 0 {
        lemma_pause_holds(gun, events.drop_last());
        lemma_events_keep_wf(gun, events.drop_last());
    }
}

/// A gun that has fired does not fire again within the pause between shots:
/// over a firing frame and any events after it that add up to less than the
/// pause, whatever reloads come in between, exactly one shot is fired.
pub proof fn lemma_one_shot_per_pause(gun: Gun, pressed: bool, delta: u64, events: Seq<GunEvent>)
    requires
        gun.wf(),
        gun.fires(pressed, delta),
        Gun::trigger_time(events) < gun.time_between_shots,
    ensures
        gun.shots_fired(seq![GunEvent::Trigger { pressed, delta }] + events) == 1,
        gun.after_trigger(pressed, delta).shots_fired(events) == 0,
{
    let first = seq![GunEvent::Trigger { pressed, delta }];
    let fired = gun.after_trigger(pressed, delta);
    lemma_event_keeps_wf(gun, first[0]);
    lemma_pause_holds(fired, events);
    lemma_run_after_first(gun, first[0], events);
}

/// A run of events is its first event and then the rest.
pub proof fn lemma_run_after_first(gun: Gun, first: GunEvent, rest: Seq<GunEvent>)
    ensures
        gun.after_all(seq![first] + rest) == gun.after(first).after_all(rest),
        gun.shots_fired(seq![first] + rest) == gun.after(first).shots_fired(rest) + if gun.fires_on(
            first,
        ) {
            1nat
        } else {
            0nat
        },
    decreases rest.len(),
{
    let all = seq![first] + rest;
    if rest.len() == 0 {
        assert(gun.shots_fired(all.drop_last()) == 0);
    } else {
        assert(all.drop_last() == seq![first] + rest.drop_last());
        lemma_run_after_first(gun, first, rest.drop_last());
    }
}

} // verus!
