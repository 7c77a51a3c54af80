use gunplay::bullet::{Bullet, BulletEndReason, BulletSide, ShotgunBullet, ShotgunBulletEndEvent};
use gunplay::gauge::{HitPair, ShotgunGauge};
use gunplay::gun::{
    immediate_reload, reload, shoot_bullet, Cartridge, Gun, GunState, Shotgun, CARTRIDGE_DAMAGE,
    SPREAD_DEGREES,
};
use gunplay::timer::Timer;

const MS: u64 = 1_000_000;
const SECOND: u64 = 1_000 * MS;

fn pistol() -> Gun {
    Gun::new(2, 300 * MS, 2 * SECOND, 1, SECOND).unwrap()
}

#[test]
fn new_gun_is_loaded_and_ready() {
    let g = pistol();
    assert_eq!(
        g,
        Gun {
            clip_size: 2,
            shots_left: 2,
            time_between_shots: 300 * MS,
            cooldown_remaining: 0,
            reload_timer: Timer::new(2 * SECOND),
            state: GunState::Ready,
            damage: 1,
            bullet_lifetime: SECOND,
        }
    );
    assert!(g.is_wf());
}

#[test]
fn gun_without_a_clip_is_refused() {
    assert_eq!(Gun::new(0, 300 * MS, 2 * SECOND, 1, SECOND), None);
}

#[test]
fn is_wf_refuses_guns_that_cannot_be_in_play() {
    let good = pistol();
    assert!(!Gun { shots_left: 3, ..good }.is_wf());
    assert!(!Gun { shots_left: 0, ..good }.is_wf());
    assert!(!Gun { state: GunState::Reloading, ..good }.is_wf());
    assert!(!Gun { state: GunState::Shooting, ..good }.is_wf());
    assert!(!Gun { clip_size: 0, shots_left: 0, state: GunState::Reloading, ..good }.is_wf());
    assert!(!Gun { cooldown_remaining: 301 * MS, ..good }.is_wf());
    assert!(Gun { cooldown_remaining: 300 * MS, ..good }.is_wf());
    assert!(Gun { shots_left: 0, state: GunState::Reloading, ..good }.is_wf());
    let done = Timer { duration: SECOND, remaining: 0, finished: true };
    assert!(!Gun { shots_left: 0, state: GunState::Reloading, reload_timer: done, ..good }.is_wf());
    let broken = Timer { duration: SECOND, remaining: 2 * SECOND, finished: false };
    assert!(!Gun { reload_timer: broken, ..good }.is_wf());
}

#[test]
fn trigger_fires_one_bullet() {
    let mut g = pistol();
    let shots = shoot_bullet(&mut g, None, None, None, true, 16 * MS);
    assert_eq!(shots, vec![Bullet { lifetime: Timer::new(SECOND), damage: 1, shotgun: None }]);
    assert_eq!(g.shots_left, 1);
    assert_eq!(g.cooldown_remaining, 300 * MS);
    assert_eq!(g.state, GunState::Ready);
    assert!(g.is_wf());
}

#[test]
fn trigger_released_fires_nothing() {
    let mut g = pistol();
    let shots = shoot_bullet(&mut g, None, None, None, false, 16 * MS);
    assert!(shots.is_empty());
    assert_eq!(g, pistol());
}

#[test]
fn second_shot_within_the_pause_is_ignored() {
    let mut g = pistol();
    assert_eq!(shoot_bullet(&mut g, None, None, None, true, 16 * MS).len(), 1);
    let shots = shoot_bullet(&mut g, None, None, None, true, 299 * MS);
    assert!(shots.is_empty());
    assert_eq!(g.shots_left, 1);
    assert_eq!(g.cooldown_remaining, MS);
}

#[test]
fn pause_runs_down_over_several_frames() {
    let mut g = pistol();
    assert_eq!(shoot_bullet(&mut g, None, None, None, true, 0).len(), 1);
    let mut fired = 0;
    for _ in 0..18 {
        fired += shoot_bullet(&mut g, None, None, None, true, 16 * MS).len();
    }
    assert_eq!(fired, 0);
    assert_eq!(g.cooldown_remaining, 12 * MS);
    assert_eq!(shoot_bullet(&mut g, None, None, None, true, 16 * MS).len(), 1);
    assert_eq!(g.shots_left, 0);
}

#[test]
fn shot_is_allowed_once_the_pause_is_over() {
    let mut g = pistol();
    assert_eq!(shoot_bullet(&mut g, None, None, None, true, 16 * MS).len(), 1);
    let shots = shoot_bullet(&mut g, None, None, None, true, 300 * MS);
    assert_eq!(shots.len(), 1);
    assert_eq!(g.shots_left, 0);
}

#[test]
fn pause_runs_down_while_the_trigger_is_released() {
    let mut g = pistol();
    shoot_bullet(&mut g, None, None, None, true, 0);
    shoot_bullet(&mut g, None, None, None, false, 100 * MS);
    assert_eq!(g.cooldown_remaining, 200 * MS);
    shoot_bullet(&mut g, None, None, None, false, 500 * MS);
    assert_eq!(g.cooldown_remaining, 0);
}

#[test]
fn last_shot_starts_the_reload() {
    let mut g = pistol();
    shoot_bullet(&mut g, None, None, None, true, 0);
    g.reload_timer.tick(SECOND);
    shoot_bullet(&mut g, None, None, None, true, 300 * MS);
    assert_eq!(g.shots_left, 0);
    assert_eq!(g.state, GunState::Reloading);
    assert_eq!(g.reload_timer, Timer::new(2 * SECOND));
    assert!(g.is_wf());
}

#[test]
fn empty_gun_does_not_fire() {
    let mut g = Gun::new(1, 0, 2 * SECOND, 1, SECOND).unwrap();
    assert_eq!(shoot_bullet(&mut g, None, None, None, true, 0).len(), 1);
    let before = g;
    assert!(shoot_bullet(&mut g, None, None, None, true, SECOND).is_empty());
    assert_eq!(g, before);
}

#[test]
fn gun_without_a_pause_fires_every_frame() {
    let mut g = Gun::new(3, 0, SECOND, 1, SECOND).unwrap();
    let mut fired = 0;
    for _ in 0..5 {
        fired += shoot_bullet(&mut g, None, None, None, true, 0).len();
    }
    assert_eq!(fired, 3);
    assert_eq!(g.state, GunState::Reloading);
}

#[test]
fn cartridge_sets_the_damage() {
    let mut g = Gun::new(2, 0, SECOND, 7, SECOND).unwrap();
    let cart = Cartridge { power: 100 };
    let with = shoot_bullet(&mut g, None, None, Some(&cart), true, 0);
    assert_eq!(with[0].damage, 2);
    assert_eq!(CARTRIDGE_DAMAGE, 2);
    let without = shoot_bullet(&mut g, None, None, None, true, 0);
    assert_eq!(without[0].damage, 7);
}

#[test]
fn shotgun_fires_a_left_and_a_right_bullet() {
    let mut g = pistol();
    let mut gauge = ShotgunGauge::new(2);
    let shots = shoot_bullet(&mut g, Some(&Shotgun), Some(&mut gauge), None, true, 16 * MS);
    let plain = Bullet { lifetime: Timer::new(SECOND), damage: 1, shotgun: None };
    assert_eq!(
        shots,
        vec![
            Bullet {
                shotgun: Some(ShotgunBullet { side: BulletSide::Left, shot_number: 0 }),
                ..plain
            },
            Bullet {
                shotgun: Some(ShotgunBullet { side: BulletSide::Right, shot_number: 0 }),
                ..plain
            },
        ]
    );
    assert_eq!(g.shots_left, 1);
    assert_eq!(SPREAD_DEGREES, 6);
}

#[test]
fn shotgun_shots_are_numbered_within_the_clip() {
    let mut g = Gun::new(3, 0, 0, 1, SECOND).unwrap();
    let mut gauge = ShotgunGauge::new(3);
    let mut numbers = Vec::new();
    for _ in 0..3 {
        let shots = shoot_bullet(&mut g, Some(&Shotgun), Some(&mut gauge), None, true, 0);
        numbers.push(shots[0].shotgun.unwrap().shot_number);
        assert_eq!(shots[1].shotgun.unwrap().shot_number, *numbers.last().unwrap());
    }
    assert_eq!(numbers, vec![0, 1, 2]);
    assert!(reload(&mut g, 0));
    let shots = shoot_bullet(&mut g, Some(&Shotgun), Some(&mut gauge), None, true, 0);
    assert_eq!(shots[0].shotgun.unwrap().shot_number, 0);
}

#[test]
fn shotgun_shot_empties_its_pair_first() {
    let mut g = pistol();
    let mut gauge = ShotgunGauge::new(2);
    let stale = |side, shot_number| ShotgunBulletEndEvent {
        side,
        shot_number,
        reason: BulletEndReason::HitEnemy,
    };
    gauge.record(&stale(BulletSide::Left, 0));
    gauge.record(&stale(BulletSide::Right, 1));
    shoot_bullet(&mut g, Some(&Shotgun), Some(&mut gauge), None, true, 0);
    assert_eq!(gauge.pair(0), Some(HitPair { left: None, right: None }));
    assert_eq!(gauge.pair(1), Some(HitPair { left: None, right: Some(true) }));
}

#[test]
fn gauge_is_untouched_when_nothing_is_fired() {
    let mut g = pistol();
    let mut gauge = ShotgunGauge::new(2);
    gauge.record(&ShotgunBulletEndEvent {
        side: BulletSide::Left,
        shot_number: 0,
        reason: BulletEndReason::HitEnemy,
    });
    shoot_bullet(&mut g, Some(&Shotgun), Some(&mut gauge), None, false, 0);
    assert_eq!(gauge.pair(0), Some(HitPair { left: Some(true), right: None }));
}

#[test]
fn plain_gun_leaves_the_gauge_alone() {
    let mut g = pistol();
    let mut gauge = ShotgunGauge::new(2);
    gauge.record(&ShotgunBulletEndEvent {
        side: BulletSide::Left,
        shot_number: 0,
        reason: BulletEndReason::HitEnemy,
    });
    let shots = shoot_bullet(&mut g, None, Some(&mut gauge), None, true, 0);
    assert_eq!(shots.len(), 1);
    assert_eq!(shots[0].shotgun, None);
    assert_eq!(gauge.pair(0), Some(HitPair { left: Some(true), right: None }));
}

#[test]
fn shotgun_without_a_gauge_still_fires_two() {
    let mut g = pistol();
    let shots = shoot_bullet(&mut g, Some(&Shotgun), None, None, true, 0);
    assert_eq!(shots.len(), 2);
}

#[test]
fn reload_does_nothing_to_a_ready_gun() {
    let mut g = pistol();
    assert!(!reload(&mut g, 10 * SECOND));
    assert_eq!(g, pistol());
}

#[test]
fn reload_takes_its_time() {
    let mut g = Gun::new(1, 0, 2 * SECOND, 1, SECOND).unwrap();
    shoot_bullet(&mut g, None, None, None, true, 0);
    assert_eq!(g.state, GunState::Reloading);
    assert!(!reload(&mut g, SECOND));
    assert_eq!(g.shots_left, 0);
    assert_eq!(g.state, GunState::Reloading);
    assert_eq!(g.reload_timer.remaining, SECOND);
    assert!(!reload(&mut g, SECOND - 1));
    assert!(reload(&mut g, 1));
    assert_eq!(g.shots_left, 1);
    assert_eq!(g.state, GunState::Ready);
    assert!(g.is_wf());
    assert!(!reload(&mut g, SECOND));
}

#[test]
fn every_reload_takes_the_full_time() {
    let mut g = Gun::new(1, 0, 2 * SECOND, 1, SECOND).unwrap();
    shoot_bullet(&mut g, None, None, None, true, 0);
    assert!(reload(&mut g, 3 * SECOND));
    shoot_bullet(&mut g, None, None, None, true, 0);
    assert!(!reload(&mut g, 2 * SECOND - 1));
    assert!(reload(&mut g, 1));
}

#[test]
fn immediate_reload_ends_the_reload_at_once() {
    let mut g = Gun::new(1, 0, 2 * SECOND, 1, SECOND).unwrap();
    shoot_bullet(&mut g, None, None, None, true, 0);
    immediate_reload(&mut g, 1);
    assert_eq!(g.shots_left, 1);
    assert_eq!(g.state, GunState::Ready);
    assert!(g.is_wf());
}

#[test]
fn immediate_reload_tops_up_a_ready_gun() {
    let mut g = pistol();
    shoot_bullet(&mut g, None, None, None, true, 0);
    assert_eq!(g.shots_left, 1);
    immediate_reload(&mut g, 1);
    assert_eq!(g.shots_left, 2);
    assert_eq!(g.state, GunState::Ready);
    assert_eq!(g.cooldown_remaining, 300 * MS);
}

#[test]
fn immediate_reload_of_a_full_gun_changes_nothing() {
    let mut g = pistol();
    immediate_reload(&mut g, 1);
    assert_eq!(g, pistol());
}

#[test]
fn many_immediate_reloads_are_as_one() {
    let mut once = Gun::new(3, 0, 2 * SECOND, 1, SECOND).unwrap();
    shoot_bullet(&mut once, None, None, None, true, 0);
    let mut thrice = once;
    immediate_reload(&mut once, 1);
    immediate_reload(&mut thrice, 3);
    assert_eq!(once, thrice);
    immediate_reload(&mut once, 1);
    assert_eq!(once, thrice);
}

#[test]
fn no_immediate_reload_changes_nothing() {
    let mut g = Gun::new(1, 0, 2 * SECOND, 1, SECOND).unwrap();
    shoot_bullet(&mut g, None, None, None, true, 0);
    let before = g;
    immediate_reload(&mut g, 0);
    assert_eq!(g, before);
}

#[test]
fn immediate_reload_does_not_shorten_the_pause() {
    let mut g = Gun::new(1, 300 * MS, 2 * SECOND, 1, SECOND).unwrap();
    shoot_bullet(&mut g, None, None, None, true, 0);
    immediate_reload(&mut g, 1);
    assert!(shoot_bullet(&mut g, None, None, None, true, 299 * MS).is_empty());
    assert_eq!(shoot_bullet(&mut g, None, None, None, true, MS).len(), 1);
}

#[test]
fn ammunition_only_goes_down_while_ready_and_up_on_reload() {
    let mut g = Gun::new(3, 100 * MS, 500 * MS, 1, SECOND).unwrap();
    let mut reloads = 0;
    for frame in 0..200u32 {
        let before = g;
        shoot_bullet(&mut g, None, None, None, frame % 3 != 0, 16 * MS);
        assert!(g.shots_left <= before.shots_left);
        if g.shots_left < before.shots_left {
            assert_eq!(before.state, GunState::Ready);
            assert_eq!(g.shots_left, before.shots_left - 1);
        }
        let mid = g;
        if reload(&mut g, 16 * MS) {
            reloads += 1;
            assert_eq!(mid.state, GunState::Reloading);
            assert_eq!(g.state, GunState::Ready);
            assert_eq!(g.shots_left, g.clip_size);
        } else {
            assert_eq!(g.shots_left, mid.shots_left);
        }
        assert!(g.is_wf());
    }
    assert!(reloads > 0);
}
