//! Hit points of a damageable entity.

use vstd::prelude::*;

verus! {

/// Hit points of an entity: the amount it started with and what is left.
#[derive(Clone, Copy, Debug, PartialEq, Eq, Structural)]
pub struct Health {
    max_health: u32,
    current_health: u32,
}

impl Health {
    /// The hit points the entity was created with.
    pub closed spec fn max(self) -> nat {
        self.max_health as nat
    }

    /// The hit points that are left.
    pub closed spec fn current(self) -> nat {
        self.current_health as nat
    }

    /// What is left of `current` hit points after `damage`: never below zero.
    pub open spec fn after_damage(current: nat, damage: nat) -> nat {
        if damage > current {
            0
        } else {
            (current - damage) as nat
        }
    }

    /// The entity after `damage` hit points have been taken from it.
    pub closed spec fn hurt(self, damage: nat) -> Health {
        Health {
            max_health: self.max_health,
            current_health: Self::after_damage(self.current(), damage) as u32,
        }
    }

    /// Taking damage changes what is left and nothing else.
    pub proof fn lemma_hurt(self, damage: nat)
        ensures
            self.hurt(damage).max() == self.max(),
            self.hurt(damage).current() == Self::after_damage(self.current(), damage),
            damage == 0 ==> self.hurt(damage) == self,
    {
    }

    /// Damage adds up: two blows are as one blow of their sum.
    pub proof fn lemma_hurt_twice(self, first: nat, second: nat)
        ensures
            self.hurt(first).hurt(second) == self.hurt(first + second),
    {
    }

    /// A fresh entity at full health.
    pub fn new(hp: u32) -> (h: Self)
        ensures
            h.max() == hp,
            h.current() == hp,
    {
        Health { max_health: hp, current_health: hp }
    }

    /// Takes `damage` hit points away, stopping at zero.
    pub fn take_damage(&mut self, damage: u32)
        ensures
            *final(self) == old(self).hurt(damage as nat),
            final(self).max() == old(self).max(),
            final(self).current() == Self::after_damage(old(self).current(), damage as nat),
    {
        if damage > self.current_health {
            self.current_health = 0;
        } else {
            self.current_health -= damage;
        }
    }

    /// The hit points that are left.
    pub fn current_health(&self) -> (hp: u32)
        ensures
            hp == self.current(),
    {
        self.current_health
    }

    /// The hit points the entity was created with.
    pub fn max_health(&self) -> (hp: u32)
        ensures
            hp == self.max(),
    {
        self.max_health
    }

    /// Whether no hit points are left, so that the entity is to be removed.
    pub fn is_dead(&self) -> (dead: bool)
        ensures
            dead <==> self.current() == 0,
    {
        self.current_health == 0
    }
}

} // verus!
