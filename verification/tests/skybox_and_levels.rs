use shooter_core::levels::load_levels;
use shooter_core::skybox::{next_cubemap_index, pick_initial_cubemap};

#[test]
fn initial_cubemap_takes_first_supported() {
    assert_eq!(pick_initial_cubemap(&[false, true, true, false]), 1);
    assert_eq!(pick_initial_cubemap(&[true, false, false, false]), 0);
}

#[test]
fn initial_cubemap_defaults_to_first_slot() {
    assert_eq!(pick_initial_cubemap(&[false, false, false, false]), 0);
}

#[test]
fn cycle_skips_unsupported_formats() {
    let supported = [true, false, true, false];
    assert_eq!(next_cubemap_index(0, &supported), 2);
    assert_eq!(next_cubemap_index(2, &supported), 0);
}

#[test]
fn cycle_lands_back_when_alone() {
    let supported = [false, true, false, false];
    assert_eq!(next_cubemap_index(1, &supported), 1);
}

#[test]
fn cycle_with_nothing_supported_stays_put() {
    let supported = [false, false, false, false];
    assert_eq!(next_cubemap_index(2, &supported), 2);
}

#[test]
fn the_three_levels() {
    let levels = load_levels();
    assert_eq!(levels.len(), 3);
    assert_eq!(levels[0].name, "Level 1");
    assert_eq!(levels[0].enemy_count, 5);
    assert_eq!(levels[0].player_start_position, (0, 0));
    assert_eq!(levels[1].name, "Level 2");
    assert_eq!(levels[1].enemy_count, 10);
    assert_eq!(levels[1].player_start_position, (1, 1));
    assert_eq!(levels[2].name, "Level 3");
    assert_eq!(levels[2].enemy_count, 15);
    assert_eq!(levels[2].player_start_position, (2, 2));
}
