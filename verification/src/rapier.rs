//! Asks the physics engine what every bullet overlaps.

use vstd::prelude::*;
use bevy::ecs::entity::Entity;
use bevy_rapier2d::plugin::RapierContext;
use crate::bullet::{Bullet, BulletFate};
use crate::collision::{bullet_collision, damage_dealt, hits, Contacts};
use crate::gun::{Cartridge, CARTRIDGE_POWER};
use crate::health::Health;

verus! {

/// The state of the physics engine. Nothing is known of what is inside.
#[verifier::external_type_specification]
#[verifier::external_body]
pub struct ExRapierContext(bevy_rapier2d::plugin::RapierContext);

/// The name of an entity of the game world. Nothing is known of what is inside.
#[verifier::external_type_specification]
#[verifier::external_body]
pub struct ExEntity(bevy::ecs::entity::Entity);

/// `RapierContext::intersection_pair` looks the two entities up among the
/// colliders and reads what the last physics step found of the pair:
/// `Some(true)` if they may overlap. The answer depends on the state of the
/// engine, so nothing is claimed of it; the call does not panic.
pub assume_specification[ bevy_rapier2d::plugin::RapierContext::intersection_pair ](
    context: &RapierContext,
    collider1: Entity,
    collider2: Entity,
) -> (answer: Option<bool>)
;

/// Whether an answer of the engine says that two colliders overlap: a pair
/// it has no record of does not.
pub open spec fn overlapping(answer: Option<bool>) -> bool {
    answer == Some(true)
}

/// Whether an answer of the engine says that two colliders overlap.
pub fn is_overlapping(answer: Option<bool>) -> (yes: bool)
    ensures
        yes == overlapping(answer),
{
    match answer {
        Some(true) => true,
        _ => false,
    }
}

/// Whether `contacts` has an answer for each of `bullets` bullets against
/// each of `enemies` enemies and each of `walls` walls.
pub open spec fn complete(contacts: Seq<Contacts>, bullets: nat, enemies: nat, walls: nat) -> bool {
    &&& contacts.len() == bullets
    &&& forall|i: int|
        0 <= i < contacts.len() ==> (#[trigger] contacts[i]).enemies@.len() == enemies
            && contacts[i].walls@.len() == walls
}

fn overlaps_of(context: &RapierContext, bullet: Entity, others: &Vec<Entity>) -> (flags: Vec<bool>)
    ensures
        flags@.len() == others@.len(),
{
    let mut flags: Vec<bool> = Vec::new();
    let mut j: usize = 0;
    while j < others.len()
        invariant
            j <= others@.len(),
            flags@.len() == j,
        decreases others@.len() - j,
    {
        let answer = context.intersection_pair(bullet, others[j]);
        flags.push(is_overlapping(answer));
        j += 1;
    }
    flags
}

/// Asks the engine, for every bullet, which of the enemies and which of the
/// walls it overlaps. What the engine answers is not known beforehand; there
/// is one answer for every pair.
pub fn bullet_contacts(
    context: &RapierContext,
    bullets: &Vec<Entity>,
    enemies: &Vec<Entity>,
    walls: &Vec<Entity>,
) -> (contacts: Vec<Contacts>)
    ensures
        complete(contacts@, bullets@.len(), enemies@.len(), walls@.len()),
{
    let mut contacts: Vec<Contacts> = Vec::new();
    let mut i: usize = 0;
    while i < bullets.len()
        invariant
            i <= bullets@.len(),
            complete(contacts@, i as nat, enemies@.len(), walls@.len()),
        decreases bullets@.len() - i,
    {
        let bullet = bullets[i];
        let row = Contacts {
            enemies: overlaps_of(context, bullet, enemies),
            walls: overlaps_of(context, bullet, walls),
        };
        contacts.push(row);
        i += 1;
    }
    contacts
}

/// Resolves what every bullet hits, by what the engine says of it. Bullet
/// `i` is the entity `bullet_entities[i]`, enemy `j` the entity
/// `enemy_entities[j]`. Returns the answers of the engine and the fate of
/// every bullet; the enemies that were hit have taken the damage.
pub fn bullet_collision_rapier(
    context: &RapierContext,
    bullets: &Vec<Bullet>,
    bullet_entities: &Vec<Entity>,
    enemies: &mut Vec<Health>,
    enemy_entities: &Vec<Entity>,
    walls: &Vec<Entity>,
) -> (found: (Vec<Contacts>, Vec<BulletFate>))
    ensures
        complete(found.0@, bullet_entities@.len(), enemy_entities@.len(), walls@.len()),
        found.1@ == hits(found.0@, bullets@.len(), old(enemies)@.len() as int),
        final(enemies)@.len() == old(enemies)@.len(),
        forall|j: int|
            0 <= j < old(enemies)@.len() ==> #[trigger] final(enemies)@[j] == old(enemies)@[j].hurt(
                damage_dealt(bullets@, found.1@, j),
            ),
{
    let contacts = bullet_contacts(context, bullet_entities, enemy_entities, walls);
    let fates = bullet_collision(bullets, enemies, &contacts);
    (contacts, fates)
}

/// What the player gets from a pickup, given what the engine answered of
/// the two: a new cartridge if they overlap, nothing otherwise.
pub fn picked_up(answer: Option<bool>) -> (picked: Option<Cartridge>)
    ensures
        picked == if overlapping(answer) {
            Some(Cartridge { power: CARTRIDGE_POWER })
        } else {
            None
        },
{
    if is_overlapping(answer) {
        Some(Cartridge::new())
    } else {
        None
    }
}

/// Asks the engine whether the player overlaps the pickup, and hands the
/// player its cartridge if so.
pub fn check_pickup(context: &RapierContext, pickup: Entity, player: Entity) -> (picked: Option<
    Cartridge,
>)
    ensures
        picked matches Some(cart) ==> cart == (Cartridge { power: CARTRIDGE_POWER }),
{
    picked_up(context.intersection_pair(pickup, player))
}

} // verus!
