//! Bullets: the marker the collision systems look for, and the lifetime
//! that despawns a bullet a few seconds after it was fired.

use vstd::prelude::*;
use crate::timer::{GameTimer, TimerMode};

verus! {

/// Marks an entity as a bullet.
#[derive(Clone, Copy, Debug, PartialEq, Eq, Structural)]
pub struct Bullet;

/// The countdown after which a bullet despawns on its own.
#[derive(Clone, Copy, Debug, PartialEq, Eq, Structural)]
pub struct BulletLifetime {
    pub timer: GameTimer,
}

impl BulletLifetime {
    pub open spec fn wf(self) -> bool {
        &&& self.timer.wf()
        &&& self.timer.mode == TimerMode::Once
    }

    /// A fresh lifetime of `lifetime_ms`.
    pub fn new(lifetime_ms: u64) -> (r: BulletLifetime)
        requires
            lifetime_ms > 0,
        ensures
            r.wf(),
            r.timer.duration_ms == lifetime_ms,
            r.timer.elapsed_ms == 0,
    {
        BulletLifetime { timer: GameTimer::new(lifetime_ms, TimerMode::Once) }
    }

    /// A frame passes; once the lifetime has fully run out the bullet is
    /// to be despawned.
    pub fn tick(&mut self, delta_ms: u64) -> (expired: bool)
        requires
            old(self).wf(),
            old(self).timer.elapsed_ms + delta_ms <= u64::MAX,
        ensures
            final(self).wf(),
            final(self).timer.duration_ms == old(self).timer.duration_ms,
            final(self).timer.elapsed_ms == if old(self).timer.elapsed_ms + delta_ms <= old(
                self,
            ).timer.duration_ms {
                old(self).timer.elapsed_ms + delta_ms
            } else {
                old(self).timer.duration_ms as int
            },
            expired == final(self).timer.is_finished(),
    {
        self.timer.tick(delta_ms);
        self.timer.finished()
    }
}

} // verus!
