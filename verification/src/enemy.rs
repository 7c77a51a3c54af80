//! How many enemies the player is to face.

use vstd::prelude::*;

verus! {

/// The number of enemies sent in when the game starts.
pub const STARTING_ENEMIES: usize = 5;

/// The number of enemies below which another is sent in.
pub const FEWEST_ENEMIES: usize = 2;

/// Whether another enemy is to be sent in, with `num_enemies` alive.
pub fn when_to_spawn_enemies(num_enemies: usize) -> (spawn: bool)
    ensures
        spawn <==> num_enemies < FEWEST_ENEMIES,
{
    num_enemies < FEWEST_ENEMIES
}

} // verus!
