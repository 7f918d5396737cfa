//! The small per-frame scripted rules: speed caps, ground checks, cull
//! and despawn distances, the pause state, and the random stats a fresh
//! enemy rolls. Speeds and forces are in thousandths of a unit, distances
//! in millimetres.

use vstd::prelude::*;
use crate::rng::random_below;

verus! {

/// Whether the game runs or sits in the pause menu.
#[derive(Clone, Copy, Debug, PartialEq, Eq, Hash, Structural)]
pub enum AppState {
    Running,
    Paused,
}

impl Default for AppState {
    /// The game starts running.
    fn default() -> (r: AppState)
        ensures
            r == AppState::Running,
    {
        AppState::Running
    }
}

/// Pressing escape while running pauses the game.
pub fn state_after_escape() -> (r: AppState)
    ensures
        r == AppState::Paused,
{
    AppState::Paused
}

/// Pressing the menu's button resumes the game.
pub fn state_after_resume_click() -> (r: AppState)
    ensures
        r == AppState::Running,
{
    AppState::Running
}

/// The cursor is freed and shown exactly while the game is paused.
pub fn cursor_visible(state: AppState) -> (r: bool)
    ensures
        r == (state == AppState::Paused),
{
    match state {
        AppState::Paused => true,
        AppState::Running => false,
    }
}

/// The player, as the movement rules read it.
#[derive(Clone, Copy, Debug, PartialEq, Eq, Structural)]
pub struct Player {
    /// Top speed, in thousandths of a unit per second.
    pub speed_milli: i64,
    /// Drive force, in thousandths.
    pub acceleration_milli: i64,
}

impl Player {
    /// A player with the given top speed and drive force.
    pub fn new(speed_milli: i64, acceleration_milli: i64) -> (r: Player)
        ensures
            r == (Player { speed_milli, acceleration_milli }),
    {
        Player { speed_milli, acceleration_milli }
    }
}

/// An enemy's movement and combat component, as the steering and combat
/// rules read it; the asset handle for its material stays engine-side.
#[derive(Clone, Copy, Debug, PartialEq, Eq, Structural)]
pub struct Enemy {
    /// Damage per hit, in thousandths.
    pub damage_milli: i64,
    /// Fastest turn, in thousandths of a radian per second.
    pub max_turn_speed_milli: i64,
    /// Drive force, in thousandths.
    pub move_force_milli: i64,
    /// Top speed, in thousandths of a unit per second.
    pub max_speed_milli: i64,
    /// Torque applied while turning, in thousandths.
    pub turn_torque_milli: i64,
}

impl Enemy {
    /// A fresh enemy with its rolled damage and the fixed steering
    /// numbers: a quarter turn per second (1571 thousandths of a
    /// radian), drive force seven, top speed three, turn torque twenty.
    pub fn with_damage(damage_milli: i64) -> (r: Enemy)
        ensures
            r == (Enemy {
                damage_milli,
                max_turn_speed_milli: 1571,
                move_force_milli: 7000,
                max_speed_milli: 3000,
                turn_torque_milli: 20_000,
            }),
    {
        Enemy {
            damage_milli,
            max_turn_speed_milli: 1571,
            move_force_milli: 7000,
            max_speed_milli: 3000,
            turn_torque_milli: 20_000,
        }
    }
}

/// An enemy's rolled stats, as the movement and combat rules read them.
#[derive(Clone, Copy, Debug, PartialEq, Eq, Structural)]
pub struct EnemyStats {
    /// Hit points, in thousandths.
    pub health_milli: i64,
    /// Damage per hit, in thousandths.
    pub damage_milli: i64,
}

/// Rolls the stats of a fresh enemy: health anywhere in 50 to 150,
/// damage anywhere in 5 to 20.
pub fn roll_enemy_stats() -> (r: EnemyStats)
    ensures
        50_000 <= r.health_milli <= 150_000,
        5_000 <= r.damage_milli <= 20_000,
{
    let health = 50_000 + random_below(100_001) as i64;
    let damage = 5_000 + random_below(15_001) as i64;
    EnemyStats { health_milli: health, damage_milli: damage }
}

/// Rolls the delay until the next enemy may spawn: half a second up to
/// two and a half.
pub fn roll_spawn_delay_ms() -> (r: u64)
    ensures
        500 <= r < 2500,
{
    500 + random_below(2000) as u64
}

/// Rolls the time an enemy keeps its movement direction: one second up
/// to three.
pub fn roll_direction_change_delay_ms() -> (r: u64)
    ensures
        1000 <= r < 3000,
{
    1000 + random_below(2000) as u64
}

/// New enemies spawn only while fewer than twenty are alive.
pub fn enemy_count_under_threshold(count: usize) -> (r: bool)
    ensures
        r == (count < 20),
{
    count < 20
}

/// The drive force to apply along the movement direction: the full force
/// below the top speed, none at or above it, so the body saturates at its
/// top speed instead of running away.
pub fn drive_force_milli(vel_in_dir_milli: i64, max_speed_milli: i64, move_force_milli: i64) -> (r:
    i64)
    ensures
        r == if vel_in_dir_milli < max_speed_milli {
            move_force_milli as int
        } else {
            0
        },
{
    if vel_in_dir_milli < max_speed_milli {
        move_force_milli
    } else {
        0
    }
}

/// An enemy only steers while it stands on the ground: its height within
/// sixty thousandths of the resting height of one half.
pub fn enemy_on_ground(y_mm: i64) -> (r: bool)
    ensures
        r == (440 <= y_mm <= 560),
{
    440 <= y_mm && y_mm <= 560
}

/// An enemy farther than 300 units from the player is despawned.
pub fn should_despawn_far(dist_mm: u64) -> (r: bool)
    ensures
        r == (dist_mm > 300_000),
{
    dist_mm > 300_000
}

/// A bullet's bounce is audible only within two units of the player.
pub fn bounce_sound_audible(dist_mm: u64) -> (r: bool)
    ensures
        r == (dist_mm < 2000),
{
    dist_mm < 2000
}

/// What to do about a tree's physics colliders this frame.
#[derive(Clone, Copy, Debug, PartialEq, Eq, Structural)]
pub enum ColliderAction {
    /// The player came within the cull distance: give the tree colliders.
    Spawn,
    /// The player left the cull distance: drop them.
    Remove,
    /// Nothing to change.
    Keep,
}

/// Trees carry colliders only within eighty units of the player: spawn
/// them when the player comes near, drop them when the player leaves.
pub fn tree_collider_action(dist_mm: u64, has_collider: bool) -> (r: ColliderAction)
    ensures
        r == if dist_mm < 80_000 && !has_collider {
            ColliderAction::Spawn
        } else if dist_mm >= 80_000 && has_collider {
            ColliderAction::Remove
        } else {
            ColliderAction::Keep
        },
{
    if dist_mm < 80_000 && !has_collider {
        ColliderAction::Spawn
    } else if dist_mm >= 80_000 && has_collider {
        ColliderAction::Remove
    } else {
        ColliderAction::Keep
    }
}

} // verus!
