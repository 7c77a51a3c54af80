use gunplay::enemy::{when_to_spawn_enemies, FEWEST_ENEMIES, STARTING_ENEMIES};

#[test]
fn another_enemy_is_sent_in_below_two() {
    assert!(when_to_spawn_enemies(0));
    assert!(when_to_spawn_enemies(1));
    assert!(!when_to_spawn_enemies(2));
    assert!(!when_to_spawn_enemies(5));
    assert!(!when_to_spawn_enemies(usize::MAX));
}

#[test]
fn game_starts_with_five_enemies() {
    assert_eq!(STARTING_ENEMIES, 5);
    assert_eq!(FEWEST_ENEMIES, 2);
}
