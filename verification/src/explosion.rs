//! The record an entity carries once it is primed to explode, and the
//! effect an explosion has at a distance: certain death inside the dead
//! zone, an impulse fading linearly across the affected zone.

use vstd::prelude::*;
use crate::timer::{GameTimer, TimerMode};

verus! {

/// An explosion waiting to happen: an animation timer, the visual
/// parameters of the swelling entity (in thousandths), and the two
/// radii of the blast.
#[derive(Clone, Copy, Debug, PartialEq, Eq, Structural)]
pub struct PendingExplosion {
    pub timer: GameTimer,
    pub lighten_milli: u64,
    pub emissive_milli: u64,
    pub start_scale_milli: u64,
    pub end_scale_milli: u64,
    pub dead_zone_radius_mm: u64,
    pub affected_zone_radius_mm: u64,
}

impl PendingExplosion {
    /// Radii stay on the playfield scale and the timer is a well-formed
    /// one-shot.
    pub open spec fn wf(self) -> bool {
        &&& self.timer.wf()
        &&& self.timer.mode == TimerMode::Once
        &&& self.timer.duration_ms <= 86_400_000
        &&& 0 < self.affected_zone_radius_mm <= 100_000_000
        &&& self.dead_zone_radius_mm <= 100_000_000
    }

    /// A pending explosion with the given animation length, visual
    /// parameters and blast radii.
    pub fn new(
        timer_ms: u64,
        lighten_milli: u64,
        emissive_milli: u64,
        start_scale_milli: u64,
        end_scale_milli: u64,
        dead_zone_radius_mm: u64,
        affected_zone_radius_mm: u64,
    ) -> (r: PendingExplosion)
        requires
            0 < timer_ms <= 86_400_000,
            0 < affected_zone_radius_mm <= 100_000_000,
            dead_zone_radius_mm <= 100_000_000,
        ensures
            r == (PendingExplosion {
                timer: GameTimer {
                    duration_ms: timer_ms,
                    elapsed_ms: 0,
                    mode: TimerMode::Once,
                },
                lighten_milli,
                emissive_milli,
                start_scale_milli,
                end_scale_milli,
                dead_zone_radius_mm,
                affected_zone_radius_mm,
            }),
            r.wf(),
    {
        PendingExplosion {
            timer: GameTimer::new(timer_ms, TimerMode::Once),
            lighten_milli,
            emissive_milli,
            start_scale_milli,
            end_scale_milli,
            dead_zone_radius_mm,
            affected_zone_radius_mm,
        }
    }

    /// The profile of an exploding enemy.
    pub open spec fn enemy_profile() -> PendingExplosion {
        PendingExplosion {
            timer: GameTimer { duration_ms: 2000, elapsed_ms: 0, mode: TimerMode::Once },
            lighten_milli: 1000,
            emissive_milli: 8000,
            start_scale_milli: 1000,
            end_scale_milli: 2000,
            dead_zone_radius_mm: 3000,
            affected_zone_radius_mm: 10_000,
        }
    }

    /// The profile of an uprooted tree: a wider blast.
    pub open spec fn tree_profile() -> PendingExplosion {
        PendingExplosion {
            timer: GameTimer { duration_ms: 2000, elapsed_ms: 0, mode: TimerMode::Once },
            lighten_milli: 1000,
            emissive_milli: 8000,
            start_scale_milli: 1000,
            end_scale_milli: 2000,
            dead_zone_radius_mm: 6000,
            affected_zone_radius_mm: 15_000,
        }
    }

    /// The pending explosion an uprooted tree carries.
    pub fn for_tree() -> (r: PendingExplosion)
        ensures
            r == PendingExplosion::tree_profile(),
            r.wf(),
    {
        PendingExplosion::new(2000, 1000, 8000, 1000, 2000, 6000, 15_000)
    }
}

impl Default for PendingExplosion {
    /// The profile an enemy is primed with when a bullet hits it: a two
    /// second swell, then a 3 m dead zone inside a 10 m affected zone.
    fn default() -> (r: PendingExplosion)
        ensures
            r == PendingExplosion::enemy_profile(),
            r.wf(),
    {
        PendingExplosion::new(2000, 1000, 8000, 1000, 2000, 3000, 10_000)
    }
}

/// One impulse an explosion asks the physics engine to apply: away from
/// the blast centre, with this strength in thousandths of the full 20.
#[derive(Clone, Copy, Debug, PartialEq, Eq, Structural)]
pub struct Impulse {
    pub id: u64,
    pub strength_milli: u64,
}

/// How far the swell animation has come, in thousandths of the timer's
/// duration, rounded down.
pub fn progress_milli(t: &GameTimer) -> (r: u64)
    requires
        t.wf(),
        t.duration_ms <= 86_400_000,
    ensures
        r == 1000 * t.elapsed_ms / (t.duration_ms as int),
        r <= 1000,
{
    let r = 1000 * t.elapsed_ms / t.duration_ms;
    proof {
        assert(1000 * t.elapsed_ms / (t.duration_ms as int) <= 1000) by (nonlinear_arith)
            requires
                0 < t.duration_ms,
                t.elapsed_ms <= t.duration_ms,
        ;
    }
    r
}

/// The animated value at progress `t_milli` (in thousandths) on the way
/// from `a` to `b`, as the swelling scale uses it.
pub fn lerp_milli(a: u64, b: u64, t_milli: u64) -> (r: u64)
    requires
        t_milli <= 1000,
        a <= 1_000_000_000,
        b <= 1_000_000_000,
    ensures
        r == if b >= a {
            a + (b - a) * t_milli / 1000
        } else {
            a - (a - b) * t_milli / 1000
        },
        r <= 1_000_000_000,
{
    if b >= a {
        proof {
            assert((b - a) * t_milli <= 1_000_000_000int * 1000 && (b - a) * t_milli / 1000 <= (b
                - a)) by (nonlinear_arith)
                requires
                    t_milli <= 1000,
                    a <= b <= 1_000_000_000,
            ;
        }
        let step = (b - a) * t_milli / 1000;
        a + step
    } else {
        proof {
            assert((a - b) * t_milli <= 1_000_000_000int * 1000 && (a - b) * t_milli / 1000 <= (a
                - b)) by (nonlinear_arith)
                requires
                    t_milli <= 1000,
                    b <= a <= 1_000_000_000,
            ;
        }
        let step = (a - b) * t_milli / 1000;
        a - step
    }
}

} // verus!
