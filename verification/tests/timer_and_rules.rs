use shooter_core::bullet::BulletLifetime;
use shooter_core::explosion::{lerp_milli, progress_milli};
use shooter_core::rules::{
    bounce_sound_audible, cursor_visible, drive_force_milli, enemy_count_under_threshold,
    enemy_on_ground, roll_direction_change_delay_ms, roll_enemy_stats, roll_spawn_delay_ms,
    should_despawn_far, state_after_escape, state_after_resume_click, tree_collider_action,
    AppState, ColliderAction, Enemy, Player,
};
use shooter_core::timer::{GameTimer, TimerMode};

#[test]
fn once_timer_finishes_exactly_once() {
    let mut t = GameTimer::new(2000, TimerMode::Once);
    assert!(!t.tick(1500));
    assert!(!t.finished());
    assert!(t.tick(1500));
    assert!(t.finished());
    assert!(!t.tick(1000));
    assert!(t.finished());
}

#[test]
fn once_timer_saturates_at_duration() {
    let mut t = GameTimer::new(1000, TimerMode::Once);
    t.tick(5000);
    assert_eq!(t.elapsed_ms, 1000);
}

#[test]
fn repeating_timer_wraps_each_lap() {
    let mut t = GameTimer::new(400, TimerMode::Repeating);
    assert!(!t.tick(300));
    assert_eq!(t.elapsed_ms, 300);
    assert!(t.tick(300));
    assert_eq!(t.elapsed_ms, 200);
    assert!(t.tick(1000));
    assert_eq!(t.elapsed_ms, 0);
}

#[test]
fn bullet_expires_after_its_lifetime() {
    let mut life = BulletLifetime::new(4000);
    assert!(!life.tick(3999));
    assert!(life.tick(1));
    assert!(life.tick(500));
}

#[test]
fn fresh_enemy_carries_the_fixed_steering_numbers() {
    let e = Enemy::with_damage(12_500);
    assert_eq!(e.damage_milli, 12_500);
    assert_eq!(e.max_turn_speed_milli, 1571);
    assert_eq!(e.move_force_milli, 7000);
    assert_eq!(e.max_speed_milli, 3000);
    assert_eq!(e.turn_torque_milli, 20_000);
}

#[test]
fn swell_progress_and_interpolation() {
    let mut t = GameTimer::new(2000, TimerMode::Once);
    assert_eq!(progress_milli(&t), 0);
    t.tick(500);
    assert_eq!(progress_milli(&t), 250);
    t.tick(5000);
    assert_eq!(progress_milli(&t), 1000);
    // The swell grows from scale 1 to scale 2.
    assert_eq!(lerp_milli(1000, 2000, 0), 1000);
    assert_eq!(lerp_milli(1000, 2000, 250), 1250);
    assert_eq!(lerp_milli(1000, 2000, 1000), 2000);
    // A fading value runs the other way.
    assert_eq!(lerp_milli(2000, 1000, 500), 1500);
}

#[test]
fn escape_pauses_and_button_resumes() {
    assert_eq!(state_after_escape(), AppState::Paused);
    assert_eq!(state_after_resume_click(), AppState::Running);
    assert_eq!(AppState::default(), AppState::Running);
}

#[test]
fn cursor_shows_only_in_pause() {
    assert!(cursor_visible(AppState::Paused));
    assert!(!cursor_visible(AppState::Running));
}

#[test]
fn player_keeps_its_stats() {
    let p = Player::new(12_000, 60_000);
    assert_eq!(p.speed_milli, 12_000);
    assert_eq!(p.acceleration_milli, 60_000);
}

#[test]
fn enemy_stats_stay_in_their_ranges() {
    for _ in 0..50 {
        let s = roll_enemy_stats();
        assert!((50_000..=150_000).contains(&s.health_milli));
        assert!((5_000..=20_000).contains(&s.damage_milli));
        assert!((500..2500).contains(&roll_spawn_delay_ms()));
        assert!((1000..3000).contains(&roll_direction_change_delay_ms()));
    }
}

#[test]
fn spawn_threshold_is_twenty() {
    assert!(enemy_count_under_threshold(19));
    assert!(!enemy_count_under_threshold(20));
}

#[test]
fn drive_force_cuts_out_at_top_speed() {
    assert_eq!(drive_force_milli(11_999, 12_000, 60_000), 60_000);
    assert_eq!(drive_force_milli(12_000, 12_000, 60_000), 0);
}

#[test]
fn ground_check_uses_resting_height_band() {
    assert!(enemy_on_ground(500));
    assert!(enemy_on_ground(440));
    assert!(enemy_on_ground(560));
    assert!(!enemy_on_ground(439));
    assert!(!enemy_on_ground(561));
}

#[test]
fn far_enemies_despawn_past_three_hundred_units() {
    assert!(!should_despawn_far(300_000));
    assert!(should_despawn_far(300_001));
}

#[test]
fn bounce_sound_needs_the_player_nearby() {
    assert!(bounce_sound_audible(1999));
    assert!(!bounce_sound_audible(2000));
}

#[test]
fn tree_colliders_follow_the_cull_distance() {
    assert_eq!(tree_collider_action(79_999, false), ColliderAction::Spawn);
    assert_eq!(tree_collider_action(79_999, true), ColliderAction::Keep);
    assert_eq!(tree_collider_action(80_000, true), ColliderAction::Remove);
    assert_eq!(tree_collider_action(80_000, false), ColliderAction::Keep);
}
