//! The combat world as the cascade logic sees it: the player's health,
//! every enemy and every tree, each with its position and its explosion
//! state. Collision events come in from the physics engine; this module
//! decides what they do to the world and which impulses, despawns and
//! particle bursts the engine is asked for in return.

use vstd::prelude::*;
use crate::explosion::{Impulse, PendingExplosion};
use crate::geometry::{dist_mm, dist_sq, falloff_milli, impulse_milli, sqrt_floor, within_mm, PosMm};
use crate::seq_util::lemma_filter_push;
use crate::timer::{GameTimer, TimerMode};

verus! {

/// An enemy: alive until caught in a dead zone, primed to explode once a
/// bullet has hit it.
#[derive(Clone, Copy, Debug, PartialEq, Eq)]
pub struct EnemyUnit {
    pub id: u64,
    pub pos: PosMm,
    /// Set once a bullet hit primed the enemy to explode on its next
    /// ground or tree contact.
    pub pending: Option<PendingExplosion>,
    /// Set once an explosion caught the enemy in its dead zone; the enemy
    /// falls when this runs out.
    pub doomed: Option<GameTimer>,
}

impl EnemyUnit {
    pub open spec fn wf(self) -> bool {
        &&& self.pos.wf()
        &&& match self.pending {
            Some(p) => p.wf(),
            None => true,
        }
        &&& match self.doomed {
            Some(t) => t.wf() && t.mode == TimerMode::Once && t.duration_ms <= 86_400_000,
            None => true,
        }
    }
}

/// A tree: fixed while standing; once uprooted it flies, and carries a
/// pending explosion for when it comes down.
#[derive(Clone, Copy, Debug, PartialEq, Eq)]
pub struct TreeUnit {
    pub id: u64,
    pub pos: PosMm,
    pub trunk_radius_mm: u64,
    pub state: TreeState,
}

#[derive(Clone, Copy, Debug, PartialEq, Eq)]
pub enum TreeState {
    Standing,
    Uprooted(PendingExplosion),
}

impl TreeUnit {
    pub open spec fn wf(self) -> bool {
        &&& self.pos.wf()
        &&& match self.state {
            TreeState::Standing => true,
            TreeState::Uprooted(p) => p.wf(),
        }
    }

    pub open spec fn is_standing(self) -> bool {
        self.state == TreeState::Standing
    }
}

/// What came of a contact involving a primed entity.
#[derive(Clone, Debug, PartialEq, Eq)]
pub enum ContactResult {
    /// Nothing primed was involved; the world is unchanged.
    Ignored,
    /// The primed entity blew up: the engine despawns it, spawns the
    /// particle burst, plays the blast, and applies these impulses.
    Exploded(Vec<Impulse>),
}

/// What a bullet turned out to have struck.
#[derive(Clone, Copy, Debug, PartialEq, Eq, Structural)]
pub enum BulletOutcome {
    HitPlayer,
    HitEnemy,
    Missed,
}

/// The whole combat world.
#[derive(Clone, Debug, PartialEq, Eq)]
pub struct World {
    pub player_id: u64,
    pub player_health: i64,
    pub enemies: Vec<EnemyUnit>,
    pub trees: Vec<TreeUnit>,
}

/// `i` is the position of the first record with this id.
pub open spec fn is_first_enemy(s: Seq<EnemyUnit>, id: u64, i: int) -> bool {
    &&& 0 <= i < s.len()
    &&& s[i].id == id
    &&& forall|j: int| 0 <= j < i ==> s[j].id != id
}

/// The position of the first enemy record with this id, if any.
pub open spec fn enemy_index(s: Seq<EnemyUnit>, id: u64) -> Option<int> {
    if exists|i: int| is_first_enemy(s, id, i) {
        Some(choose|i: int| is_first_enemy(s, id, i))
    } else {
        None
    }
}

/// `i` is the position of the first tree record with this id.
pub open spec fn is_first_tree(s: Seq<TreeUnit>, id: u64, i: int) -> bool {
    &&& 0 <= i < s.len()
    &&& s[i].id == id
    &&& forall|j: int| 0 <= j < i ==> s[j].id != id
}

/// The position of the first tree record with this id, if any.
pub open spec fn tree_index(s: Seq<TreeUnit>, id: u64) -> Option<int> {
    if exists|i: int| is_first_tree(s, id, i) {
        Some(choose|i: int| is_first_tree(s, id, i))
    } else {
        None
    }
}

/// The enemy, primed to explode with the bullet-hit profile.
pub open spec fn primed(e: EnemyUnit) -> EnemyUnit {
    EnemyUnit { pending: Some(PendingExplosion::enemy_profile()), ..e }
}

/// The enemy stands within the dead zone of a blast at `center`.
pub open spec fn in_dead_zone(e: EnemyUnit, center: PosMm, dead_mm: u64) -> bool {
    dist_sq(e.pos, center) <= dead_mm * dead_mm
}

/// The enemy stands within the affected zone of a blast at `center`.
pub open spec fn in_affected_zone(e: EnemyUnit, center: PosMm, affected_mm: u64) -> bool {
    dist_sq(e.pos, center) <= affected_mm * affected_mm
}

/// The two seconds an enemy keeps tottering after a blast caught it.
pub open spec fn delayed_death() -> GameTimer {
    GameTimer { duration_ms: 2000, elapsed_ms: 0, mode: TimerMode::Once }
}

/// The enemy after a blast at `center`: doomed (with a fresh delayed
/// death) when inside the dead zone, untouched otherwise.
pub open spec fn doom_update(e: EnemyUnit, center: PosMm, dead_mm: u64) -> EnemyUnit {
    if in_dead_zone(e, center, dead_mm) {
        EnemyUnit { doomed: Some(delayed_death()), ..e }
    } else {
        e
    }
}

/// The impulse the blast asks for on this enemy.
pub open spec fn impulse_for(e: EnemyUnit, center: PosMm, affected_mm: u64) -> Impulse {
    Impulse {
        id: e.id,
        strength_milli: falloff_milli(sqrt_floor(dist_sq(e.pos, center)), affected_mm as int) as u64,
    }
}

/// The impulses a blast at `center` asks for: one per enemy in the
/// affected zone, in the enemies' order.
pub open spec fn explosion_impulses(s: Seq<EnemyUnit>, center: PosMm, affected_mm: u64) -> Seq<
    Impulse,
> {
    s.filter(|e: EnemyUnit| in_affected_zone(e, center, affected_mm)).map_values(
        |e: EnemyUnit| impulse_for(e, center, affected_mm),
    )
}

/// How many enemies the dead zone of the blast catches.
pub open spec fn killed_count(s: Seq<EnemyUnit>, center: PosMm, dead_mm: u64) -> int {
    s.filter(|e: EnemyUnit| in_dead_zone(e, center, dead_mm)).len() as int
}

/// A one-shot timer after `delta` more milliseconds have passed: it
/// saturates at its duration.
pub open spec fn tick_once_timer(t: GameTimer, delta: int) -> GameTimer {
    GameTimer {
        elapsed_ms: if t.elapsed_ms + delta <= t.duration_ms {
            (t.elapsed_ms + delta) as u64
        } else {
            t.duration_ms
        },
        ..t
    }
}

/// The enemy one frame later: its animation and delayed-death timers have
/// advanced.
pub open spec fn tick_enemy(e: EnemyUnit, delta: int) -> EnemyUnit {
    EnemyUnit {
        pending: match e.pending {
            Some(p) => Some(PendingExplosion { timer: tick_once_timer(p.timer, delta), ..p }),
            None => None,
        },
        doomed: match e.doomed {
            Some(t) => Some(tick_once_timer(t, delta)),
            None => None,
        },
        ..e
    }
}

/// The enemy outlives the frame unless its delayed death just ran out.
pub open spec fn enemy_survives(e: EnemyUnit) -> bool {
    match e.doomed {
        Some(t) => t.elapsed_ms < t.duration_ms,
        None => true,
    }
}

/// The tree one frame later: an uprooted tree's animation timer has
/// advanced.
pub open spec fn tick_tree(t: TreeUnit, delta: int) -> TreeUnit {
    match t.state {
        TreeState::Uprooted(p) => TreeUnit {
            state: TreeState::Uprooted(
                PendingExplosion { timer: tick_once_timer(p.timer, delta), ..p },
            ),
            ..t
        },
        TreeState::Standing => t,
    }
}

/// A frame's tick loses no enemy unaccounted for: the survivors and the
/// despawned ids of `tick` together cover every enemy, so a delayed
/// death running out is the one terminal action, and it acts on exactly
/// one record.
pub proof fn lemma_tick_accounts_for_every_enemy(s: Seq<EnemyUnit>, delta: int)
    ensures
        s.map_values(|e: EnemyUnit| tick_enemy(e, delta)).filter(
            |e: EnemyUnit| enemy_survives(e),
        ).len() + s.map_values(|e: EnemyUnit| tick_enemy(e, delta)).filter(
            |e: EnemyUnit| !enemy_survives(e),
        ).len() == s.len(),
{
    crate::seq_util::lemma_filter_partition(
        s.map_values(|e: EnemyUnit| tick_enemy(e, delta)),
        |e: EnemyUnit| enemy_survives(e),
        |e: EnemyUnit| !enemy_survives(e),
    );
}

/// The tree, uprooted and primed with the tree blast profile.
pub open spec fn uprooted(t: TreeUnit) -> TreeUnit {
    TreeUnit { state: TreeState::Uprooted(PendingExplosion::tree_profile()), ..t }
}

/// A player barrelling into a trunk uproots the tree only at nearly full
/// tilt: within 10 units of the player's own top speed.
pub open spec fn ramming_speed(speed_milli: int, max_speed_milli: int) -> bool {
    speed_milli >= max_speed_milli - 10_000
}

impl World {
    pub open spec fn wf(self) -> bool {
        &&& forall|i: int| 0 <= i < self.enemies@.len() ==> (#[trigger] self.enemies@[i]).wf()
        &&& forall|i: int| 0 <= i < self.trees@.len() ==> (#[trigger] self.trees@[i]).wf()
    }

    /// A world with a player and no enemies or trees yet.
    pub fn new(player_id: u64, player_health: i64) -> (r: World)
        ensures
            r.wf(),
            r.player_id == player_id,
            r.player_health == player_health,
            r.enemies@ == Seq::<EnemyUnit>::empty(),
            r.trees@ == Seq::<TreeUnit>::empty(),
    {
        World { player_id, player_health, enemies: Vec::new(), trees: Vec::new() }
    }

    fn find_enemy(&self, id: u64) -> (r: Option<usize>)
        ensures
            match r {
                Some(k) => enemy_index(self.enemies@, id) == Some(k as int),
                None => enemy_index(self.enemies@, id) is None,
            },
    {
        let mut k: usize = 0;
        while k < self.enemies.len()
            invariant
                k <= self.enemies@.len(),
                forall|j: int| 0 <= j < k ==> self.enemies@[j].id != id,
            decreases self.enemies@.len() - k,
        {
            if self.enemies[k].id == id {
                proof {
                    assert(is_first_enemy(self.enemies@, id, k as int));
                    let w = choose|i: int| is_first_enemy(self.enemies@, id, i);
                    assert(w == k as int);
                }
                return Some(k);
            }
            k = k + 1;
        }
        proof {
            assert forall|i: int| !is_first_enemy(self.enemies@, id, i) by {}
        }
        None
    }

    fn find_tree(&self, id: u64) -> (r: Option<usize>)
        ensures
            match r {
                Some(k) => tree_index(self.trees@, id) == Some(k as int),
                None => tree_index(self.trees@, id) is None,
            },
    {
        let mut k: usize = 0;
        while k < self.trees.len()
            invariant
                k <= self.trees@.len(),
                forall|j: int| 0 <= j < k ==> self.trees@[j].id != id,
            decreases self.trees@.len() - k,
        {
            if self.trees[k].id == id {
                proof {
                    assert(is_first_tree(self.trees@, id, k as int));
                    let w = choose|i: int| is_first_tree(self.trees@, id, i);
                    assert(w == k as int);
                }
                return Some(k);
            }
            k = k + 1;
        }
        proof {
            assert forall|i: int| !is_first_tree(self.trees@, id, i) by {}
        }
        None
    }

    /// A bullet struck `target`. The player loses one health; an enemy is
    /// primed to explode; anything else shrugs it off. In the first two
    /// cases the engine is expected to despawn the bullet.
    pub fn on_bullet_hit(&mut self, target: u64) -> (r: BulletOutcome)
        requires
            old(self).wf(),
            old(self).player_health > i64::MIN,
        ensures
            final(self).wf(),
            final(self).player_id == old(self).player_id,
            final(self).trees == old(self).trees,
            target == old(self).player_id ==> {
                &&& r == BulletOutcome::HitPlayer
                &&& final(self).player_health == old(self).player_health - 1
                &&& final(self).enemies == old(self).enemies
            },
            target != old(self).player_id ==> final(self).player_health == old(
                self,
            ).player_health,
            target != old(self).player_id ==> match enemy_index(old(self).enemies@, target) {
                Some(i) => {
                    &&& r == BulletOutcome::HitEnemy
                    &&& final(self).enemies@ == old(self).enemies@.update(i, primed(
                        old(self).enemies@[i],
                    ))
                },
                None => {
                    &&& r == BulletOutcome::Missed
                    &&& final(self).enemies == old(self).enemies
                },
            },
    {
        if target == self.player_id {
            self.player_health = self.player_health - 1;
            return BulletOutcome::HitPlayer;
        }
        match self.find_enemy(target) {
            Some(k) => {
                self.enemies[k].pending = Some(PendingExplosion::default());
                assert(self.enemies@[k as int] == primed(old(self).enemies@[k as int]));
                BulletOutcome::HitEnemy
            },
            None => BulletOutcome::Missed,
        }
    }

    /// Adds an enemy, alive and unprimed.
    pub fn spawn_enemy(&mut self, id: u64, pos: PosMm)
        requires
            old(self).wf(),
            pos.wf(),
        ensures
            final(self).wf(),
            final(self).player_id == old(self).player_id,
            final(self).player_health == old(self).player_health,
            final(self).trees == old(self).trees,
            final(self).enemies@ == old(self).enemies@.push(
                EnemyUnit { id, pos, pending: None, doomed: None },
            ),
    {
        self.enemies.push(EnemyUnit { id, pos, pending: None, doomed: None });
    }

    /// Adds a standing tree.
    pub fn spawn_tree(&mut self, id: u64, pos: PosMm, trunk_radius_mm: u64)
        requires
            old(self).wf(),
            pos.wf(),
        ensures
            final(self).wf(),
            final(self).player_id == old(self).player_id,
            final(self).player_health == old(self).player_health,
            final(self).enemies == old(self).enemies,
            final(self).trees@ == old(self).trees@.push(
                TreeUnit { id, pos, trunk_radius_mm, state: TreeState::Standing },
            ),
    {
        self.trees.push(TreeUnit { id, pos, trunk_radius_mm, state: TreeState::Standing });
    }

    /// A blast at `center`: every enemy in the dead zone is doomed to
    /// fall after a two second delay; every enemy in the affected zone
    /// is pushed away from the blast, fading with distance; the player
    /// earns two health for each enemy the dead zone caught.
    pub fn explode_at(&mut self, center: PosMm, dead_mm: u64, affected_mm: u64) -> (impulses: Vec<
        Impulse,
    >)
        requires
            old(self).wf(),
            center.wf(),
            dead_mm <= 100_000_000,
            0 < affected_mm <= 100_000_000,
            old(self).enemies@.len() <= 1_000_000_000,
            old(self).player_health + 2 * old(self).enemies@.len() <= i64::MAX,
        ensures
            final(self).wf(),
            final(self).player_id == old(self).player_id,
            final(self).trees == old(self).trees,
            final(self).enemies@ == old(self).enemies@.map_values(
                |e: EnemyUnit| doom_update(e, center, dead_mm),
            ),
            final(self).player_health == old(self).player_health + 2 * killed_count(
                old(self).enemies@,
                center,
                dead_mm,
            ),
            impulses@ == explosion_impulses(old(self).enemies@, center, affected_mm),
    {
        let ghost orig = self.enemies@;
        let ghost doom_fn = |e: EnemyUnit| doom_update(e, center, dead_mm);
        let ghost dead_pred = |e: EnemyUnit| in_dead_zone(e, center, dead_mm);
        let ghost aff_pred = |e: EnemyUnit| in_affected_zone(e, center, affected_mm);
        let ghost imp_fn = |e: EnemyUnit| impulse_for(e, center, affected_mm);
        let mut updated: Vec<EnemyUnit> = Vec::new();
        let mut impulses: Vec<Impulse> = Vec::new();
        let mut killed: usize = 0;
        let mut k: usize = 0;
        while k < self.enemies.len()
            invariant
                self.enemies@ == orig,
                forall|i: int| 0 <= i < orig.len() ==> (#[trigger] orig[i]).wf(),
                center.wf(),
                dead_mm <= 100_000_000,
                0 < affected_mm <= 100_000_000,
                k <= orig.len(),
                killed <= k,
                updated@ == orig.take(k as int).map_values(doom_fn),
                impulses@ == orig.take(k as int).filter(aff_pred).map_values(imp_fn),
                killed == orig.take(k as int).filter(dead_pred).len(),
                doom_fn == (|e: EnemyUnit| doom_update(e, center, dead_mm)),
                dead_pred == (|e: EnemyUnit| in_dead_zone(e, center, dead_mm)),
                aff_pred == (|e: EnemyUnit| in_affected_zone(e, center, affected_mm)),
                imp_fn == (|e: EnemyUnit| impulse_for(e, center, affected_mm)),
            decreases orig.len() - k,
        {
            let e = self.enemies[k];
            proof {
                assert(orig.take(k + 1).drop_last() =~= orig.take(k as int));
                assert(orig.take(k + 1) =~= orig.take(k as int).push(e));
                lemma_filter_push(orig.take(k as int), e, aff_pred);
                lemma_filter_push(orig.take(k as int), e, dead_pred);
            }
            if within_mm(e.pos, center, dead_mm) {
                updated.push(
                    EnemyUnit {
                        id: e.id,
                        pos: e.pos,
                        pending: e.pending,
                        doomed: Some(
                            GameTimer { duration_ms: 2000, elapsed_ms: 0, mode: TimerMode::Once },
                        ),
                    },
                );
                killed = killed + 1;
            } else {
                updated.push(e);
            }
            proof {
                assert(updated@ =~= orig.take(k + 1).map_values(doom_fn));
            }
            if within_mm(e.pos, center, affected_mm) {
                let d = dist_mm(e.pos, center);
                let strength = impulse_milli(d, affected_mm);
                impulses.push(Impulse { id: e.id, strength_milli: strength });
                proof {
                    assert(Impulse { id: e.id, strength_milli: strength } == imp_fn(e));
                    assert(impulses@ =~= orig.take(k + 1).filter(aff_pred).map_values(imp_fn));
                }
            } else {
                proof {
                    assert(impulses@ =~= orig.take(k + 1).filter(aff_pred).map_values(imp_fn));
                }
            }
            k = k + 1;
        }
        proof {
            assert(orig.take(orig.len() as int) =~= orig);
        }
        let reward = 2 * (killed as i64);
        self.player_health = self.player_health + reward;
        self.enemies = updated;
        proof {
            assert forall|i: int| 0 <= i < self.enemies@.len() implies (
            #[trigger] self.enemies@[i]).wf() by {
                assert(self.enemies@[i] == doom_fn(orig[i]));
            }
        }
        impulses
    }

    /// Uproots the tree: it turns dynamic, flies up, and is primed with
    /// the tree blast profile. Nothing happens to a tree already
    /// uprooted, or to an id that is no tree.
    pub fn maybe_uproot_tree(&mut self, tree: u64) -> (r: bool)
        requires
            old(self).wf(),
        ensures
            final(self).wf(),
            final(self).player_id == old(self).player_id,
            final(self).player_health == old(self).player_health,
            final(self).enemies == old(self).enemies,
            match tree_index(old(self).trees@, tree) {
                Some(i) => if old(self).trees@[i].is_standing() {
                    r && final(self).trees@ == old(self).trees@.update(i, uprooted(
                        old(self).trees@[i],
                    ))
                } else {
                    !r && final(self).trees == old(self).trees
                },
                None => !r && final(self).trees == old(self).trees,
            },
    {
        match self.find_tree(tree) {
            Some(k) => {
                let standing = match self.trees[k].state {
                    TreeState::Standing => true,
                    TreeState::Uprooted(_) => false,
                };
                if standing {
                    self.trees[k].state = TreeState::Uprooted(PendingExplosion::for_tree());
                    assert(self.trees@[k as int] == uprooted(old(self).trees@[k as int]));
                    true
                } else {
                    false
                }
            },
            None => false,
        }
    }

    /// The player ran into the trunk of `tree`: the tree is uprooted only
    /// when the player is at ramming speed, near their own top speed.
    pub fn player_tree_contact(&mut self, tree: u64, speed_milli: i64, max_speed_milli: i64) -> (r:
        bool)
        requires
            old(self).wf(),
            max_speed_milli > i64::MIN + 10_000,
        ensures
            final(self).wf(),
            final(self).player_id == old(self).player_id,
            final(self).player_health == old(self).player_health,
            final(self).enemies == old(self).enemies,
            !ramming_speed(speed_milli as int, max_speed_milli as int) ==> !r && final(self).trees
                == old(self).trees,
            ramming_speed(speed_milli as int, max_speed_milli as int) ==> match tree_index(
                old(self).trees@,
                tree,
            ) {
                Some(i) => if old(self).trees@[i].is_standing() {
                    r && final(self).trees@ == old(self).trees@.update(i, uprooted(
                        old(self).trees@[i],
                    ))
                } else {
                    !r && final(self).trees == old(self).trees
                },
                None => !r && final(self).trees == old(self).trees,
            },
    {
        if speed_milli < max_speed_milli - 10_000 {
            return false;
        }
        self.maybe_uproot_tree(tree)
    }

    /// A primed entity came down on the ground: it explodes. An enemy
    /// explodes with its own profile and is gone; an uprooted tree
    /// likewise. Unprimed entities, and ids that are neither enemy nor
    /// tree, shrug the contact off.
    pub fn on_pending_hits_ground(&mut self, entity: u64) -> (r: ContactResult)
        requires
            old(self).wf(),
            old(self).enemies@.len() <= 1_000_000_000,
            old(self).player_health + 2 * old(self).enemies@.len() <= i64::MAX,
        ensures
            final(self).wf(),
            final(self).player_id == old(self).player_id,
            match enemy_index(old(self).enemies@, entity) {
                Some(i) => match old(self).enemies@[i].pending {
                    Some(p) => {
                        let center = old(self).enemies@[i].pos;
                        &&& (r matches ContactResult::Exploded(imp) && imp@ == explosion_impulses(
                            old(self).enemies@,
                            center,
                            p.affected_zone_radius_mm,
                        ))
                        &&& final(self).enemies@ == old(self).enemies@.map_values(
                            |e: EnemyUnit| doom_update(e, center, p.dead_zone_radius_mm),
                        ).remove(i)
                        &&& final(self).player_health == old(self).player_health + 2 * killed_count(
                            old(self).enemies@,
                            center,
                            p.dead_zone_radius_mm,
                        )
                        &&& final(self).trees == old(self).trees
                    },
                    None => r == ContactResult::Ignored && *final(self) == *old(self),
                },
                None => match tree_index(old(self).trees@, entity) {
                    Some(i) => match old(self).trees@[i].state {
                        TreeState::Uprooted(p) => {
                            let center = old(self).trees@[i].pos;
                            &&& (r matches ContactResult::Exploded(imp) && imp@
                                == explosion_impulses(
                                old(self).enemies@,
                                center,
                                p.affected_zone_radius_mm,
                            ))
                            &&& final(self).enemies@ == old(self).enemies@.map_values(
                                |e: EnemyUnit| doom_update(e, center, p.dead_zone_radius_mm),
                            )
                            &&& final(self).player_health == old(self).player_health + 2
                                * killed_count(
                                old(self).enemies@,
                                center,
                                p.dead_zone_radius_mm,
                            )
                            &&& final(self).trees@ == old(self).trees@.remove(i)
                        },
                        TreeState::Standing => r == ContactResult::Ignored && *final(self) == *old(
                            self,
                        ),
                    },
                    None => r == ContactResult::Ignored && *final(self) == *old(self),
                },
            },
    {
        match self.find_enemy(entity) {
            Some(k) => {
                match self.enemies[k].pending {
                    Some(p) => {
                        let center = self.enemies[k].pos;
                        let imps = self.explode_at(
                            center,
                            p.dead_zone_radius_mm,
                            p.affected_zone_radius_mm,
                        );
                        self.enemies.remove(k);
                        proof {
                            assert forall|i: int| 0 <= i < self.enemies@.len() implies (
                            #[trigger] self.enemies@[i]).wf() by {}
                        }
                        ContactResult::Exploded(imps)
                    },
                    None => ContactResult::Ignored,
                }
            },
            None => {
                match self.find_tree(entity) {
                    Some(k) => {
                        let primed_tree = match self.trees[k].state {
                            TreeState::Uprooted(p) => Some(p),
                            TreeState::Standing => None,
                        };
                        match primed_tree {
                            Some(p) => {
                                let center = self.trees[k].pos;
                                let imps = self.explode_at(
                                    center,
                                    p.dead_zone_radius_mm,
                                    p.affected_zone_radius_mm,
                                );
                                self.trees.remove(k);
                                proof {
                                    assert forall|i: int| 0 <= i < self.trees@.len() implies (
                                    #[trigger] self.trees@[i]).wf() by {}
                                }
                                ContactResult::Exploded(imps)
                            },
                            None => ContactResult::Ignored,
                        }
                    },
                    None => ContactResult::Ignored,
                }
            },
        }
    }

    /// A primed entity brushed a standing tree's collider: the tree is
    /// uprooted, and a primed enemy explodes on the spot (a falling tree
    /// only uproots; it explodes when it meets the ground).
    pub fn on_pending_touches_tree(&mut self, pending_entity: u64, tree: u64) -> (r: (
        bool,
        ContactResult,
    ))
        requires
            old(self).wf(),
            old(self).enemies@.len() <= 1_000_000_000,
            old(self).player_health + 2 * old(self).enemies@.len() <= i64::MAX,
        ensures
            final(self).wf(),
            final(self).player_id == old(self).player_id,
            match tree_index(old(self).trees@, tree) {
                Some(i) => if old(self).trees@[i].is_standing() {
                    r.0 && final(self).trees@ == old(self).trees@.update(i, uprooted(
                        old(self).trees@[i],
                    ))
                } else {
                    !r.0 && final(self).trees == old(self).trees
                },
                None => !r.0 && final(self).trees == old(self).trees,
            },
            match enemy_index(old(self).enemies@, pending_entity) {
                Some(i) => match old(self).enemies@[i].pending {
                    Some(p) => {
                        let center = old(self).enemies@[i].pos;
                        &&& (r.1 matches ContactResult::Exploded(imp) && imp@
                            == explosion_impulses(
                            old(self).enemies@,
                            center,
                            p.affected_zone_radius_mm,
                        ))
                        &&& final(self).enemies@ == old(self).enemies@.map_values(
                            |e: EnemyUnit| doom_update(e, center, p.dead_zone_radius_mm),
                        ).remove(i)
                        &&& final(self).player_health == old(self).player_health + 2 * killed_count(
                            old(self).enemies@,
                            center,
                            p.dead_zone_radius_mm,
                        )
                    },
                    None => r.1 == ContactResult::Ignored && final(self).enemies == old(
                        self,
                    ).enemies && final(self).player_health == old(self).player_health,
                },
                None => r.1 == ContactResult::Ignored && final(self).enemies == old(self).enemies
                    && final(self).player_health == old(self).player_health,
            },
    {
        let up = self.maybe_uproot_tree(tree);
        let res = match self.find_enemy(pending_entity) {
            Some(k) => {
                match self.enemies[k].pending {
                    Some(p) => {
                        let center = self.enemies[k].pos;
                        let imps = self.explode_at(
                            center,
                            p.dead_zone_radius_mm,
                            p.affected_zone_radius_mm,
                        );
                        self.enemies.remove(k);
                        proof {
                            assert forall|i: int| 0 <= i < self.enemies@.len() implies (
                            #[trigger] self.enemies@[i]).wf() by {}
                        }
                        ContactResult::Exploded(imps)
                    },
                    None => ContactResult::Ignored,
                }
            },
            None => ContactResult::Ignored,
        };
        (up, res)
    }

    /// A frame's `delta_ms` of time passes. Every timer advances; each
    /// enemy whose delayed death just ran out is gone, and its id is
    /// returned so the engine despawns it. The timer running out is the
    /// one terminal action of a doomed enemy: it leaves the world in the
    /// same tick.
    pub fn tick(&mut self, delta_ms: u64) -> (despawned: Vec<u64>)
        requires
            old(self).wf(),
            delta_ms <= 1_000_000_000,
        ensures
            final(self).wf(),
            final(self).player_id == old(self).player_id,
            final(self).player_health == old(self).player_health,
            final(self).enemies@ == old(self).enemies@.map_values(
                |e: EnemyUnit| tick_enemy(e, delta_ms as int),
            ).filter(|e: EnemyUnit| enemy_survives(e)),
            despawned@ == old(self).enemies@.map_values(
                |e: EnemyUnit| tick_enemy(e, delta_ms as int),
            ).filter(|e: EnemyUnit| !enemy_survives(e)).map_values(|e: EnemyUnit| e.id),
            final(self).trees@ == old(self).trees@.map_values(
                |t: TreeUnit| tick_tree(t, delta_ms as int),
            ),
    {
        let ghost orig = self.enemies@;
        let ghost tick_fn = |e: EnemyUnit| tick_enemy(e, delta_ms as int);
        let ghost live_pred = |e: EnemyUnit| enemy_survives(e);
        let ghost dead_pred = |e: EnemyUnit| !enemy_survives(e);
        let ghost id_fn = |e: EnemyUnit| e.id;
        let mut survivors: Vec<EnemyUnit> = Vec::new();
        let mut despawned: Vec<u64> = Vec::new();
        let mut k: usize = 0;
        while k < self.enemies.len()
            invariant
                self.enemies@ == orig,
                forall|i: int| 0 <= i < orig.len() ==> (#[trigger] orig[i]).wf(),
                delta_ms <= 1_000_000_000,
                k <= orig.len(),
                survivors@ == orig.take(k as int).map_values(tick_fn).filter(live_pred),
                despawned@ == orig.take(k as int).map_values(tick_fn).filter(dead_pred).map_values(
                    id_fn,
                ),
                forall|i: int|
                    0 <= i < survivors@.len() ==> (#[trigger] survivors@[i]).wf(),
                tick_fn == (|e: EnemyUnit| tick_enemy(e, delta_ms as int)),
                live_pred == (|e: EnemyUnit| enemy_survives(e)),
                dead_pred == (|e: EnemyUnit| !enemy_survives(e)),
                id_fn == (|e: EnemyUnit| e.id),
            decreases orig.len() - k,
        {
            let e = self.enemies[k];
            let ticked = EnemyUnit {
                id: e.id,
                pos: e.pos,
                pending: match e.pending {
                    Some(p) => {
                        let mut t = p.timer;
                        t.tick(delta_ms);
                        Some(
                            PendingExplosion {
                                timer: t,
                                lighten_milli: p.lighten_milli,
                                emissive_milli: p.emissive_milli,
                                start_scale_milli: p.start_scale_milli,
                                end_scale_milli: p.end_scale_milli,
                                dead_zone_radius_mm: p.dead_zone_radius_mm,
                                affected_zone_radius_mm: p.affected_zone_radius_mm,
                            },
                        )
                    },
                    None => None,
                },
                doomed: match e.doomed {
                    Some(dt) => {
                        let mut t = dt;
                        t.tick(delta_ms);
                        Some(t)
                    },
                    None => None,
                },
            };
            assert(ticked == tick_fn(e));
            let survives = match ticked.doomed {
                Some(t) => t.elapsed_ms < t.duration_ms,
                None => true,
            };
            proof {
                assert(orig.take(k + 1).drop_last() =~= orig.take(k as int));
                assert(orig.take(k + 1) =~= orig.take(k as int).push(e));
                let mapped = orig.take(k as int).map_values(tick_fn);
                assert(orig.take(k + 1).map_values(tick_fn) =~= mapped.push(tick_fn(e)));
                lemma_filter_push(mapped, ticked, live_pred);
                lemma_filter_push(mapped, ticked, dead_pred);
            }
            if survives {
                survivors.push(ticked);
            } else {
                despawned.push(ticked.id);
                proof {
                    assert(despawned@ =~= orig.take(k + 1).map_values(tick_fn).filter(
                        dead_pred,
                    ).map_values(id_fn));
                }
            }
            k = k + 1;
        }
        proof {
            assert(orig.take(orig.len() as int) =~= orig);
        }
        self.enemies = survivors;
        let ghost torig = self.trees@;
        let ghost ttick_fn = |t: TreeUnit| tick_tree(t, delta_ms as int);
        let mut new_trees: Vec<TreeUnit> = Vec::new();
        let mut j: usize = 0;
        while j < self.trees.len()
            invariant
                self.trees@ == torig,
                forall|i: int| 0 <= i < torig.len() ==> (#[trigger] torig[i]).wf(),
                delta_ms <= 1_000_000_000,
                j <= torig.len(),
                new_trees@ == torig.take(j as int).map_values(ttick_fn),
                ttick_fn == (|t: TreeUnit| tick_tree(t, delta_ms as int)),
            decreases torig.len() - j,
        {
            let t = self.trees[j];
            let ticked = match t.state {
                TreeState::Uprooted(p) => {
                    let mut tm = p.timer;
                    tm.tick(delta_ms);
                    TreeUnit {
                        id: t.id,
                        pos: t.pos,
                        trunk_radius_mm: t.trunk_radius_mm,
                        state: TreeState::Uprooted(
                            PendingExplosion {
                                timer: tm,
                                lighten_milli: p.lighten_milli,
                                emissive_milli: p.emissive_milli,
                                start_scale_milli: p.start_scale_milli,
                                end_scale_milli: p.end_scale_milli,
                                dead_zone_radius_mm: p.dead_zone_radius_mm,
                                affected_zone_radius_mm: p.affected_zone_radius_mm,
                            },
                        ),
                    }
                },
                TreeState::Standing => t,
            };
            assert(ticked == ttick_fn(t));
            new_trees.push(ticked);
            proof {
                assert(torig.take(j + 1).drop_last() =~= torig.take(j as int));
                assert(torig.take(j + 1) =~= torig.take(j as int).push(t));
                assert(new_trees@ =~= torig.take(j + 1).map_values(ttick_fn));
            }
            j = j + 1;
        }
        proof {
            assert(torig.take(torig.len() as int) =~= torig);
        }
        self.trees = new_trees;
        proof {
            assert forall|i: int| 0 <= i < self.trees@.len() implies (
            #[trigger] self.trees@[i]).wf() by {
                assert(self.trees@[i] == ttick_fn(torig[i]));
            }
        }
        despawned
    }
}

} // verus!
