use shooter_core::explosion::PendingExplosion;
use shooter_core::geometry::PosMm;
use shooter_core::world::{BulletOutcome, ContactResult, TreeState, World};

fn pos(x: i64, y: i64, z: i64) -> PosMm {
    PosMm { x, y, z }
}

const PLAYER: u64 = 1;

#[test]
fn bullet_on_player_costs_one_health() {
    let mut w = World::new(PLAYER, 100);
    assert_eq!(w.on_bullet_hit(PLAYER), BulletOutcome::HitPlayer);
    assert_eq!(w.player_health, 99);
}

#[test]
fn bullet_on_enemy_primes_it() {
    let mut w = World::new(PLAYER, 100);
    w.spawn_enemy(7, pos(0, 500, 0));
    assert_eq!(w.on_bullet_hit(7), BulletOutcome::HitEnemy);
    let p = w.enemies[0].pending.expect("enemy is primed");
    assert_eq!(p.dead_zone_radius_mm, 3000);
    assert_eq!(p.affected_zone_radius_mm, 10_000);
    assert_eq!(w.player_health, 100);
}

#[test]
fn bullet_on_nothing_misses() {
    let mut w = World::new(PLAYER, 100);
    w.spawn_enemy(7, pos(0, 500, 0));
    assert_eq!(w.on_bullet_hit(42), BulletOutcome::Missed);
    assert!(w.enemies[0].pending.is_none());
}

#[test]
fn ground_impact_explodes_primed_enemy() {
    let mut w = World::new(PLAYER, 100);
    w.spawn_enemy(7, pos(0, 0, 0));
    w.spawn_enemy(8, pos(2000, 0, 0));
    w.spawn_enemy(9, pos(20_000, 0, 0));
    w.on_bullet_hit(7);
    let r = w.on_pending_hits_ground(7);
    let imps = match r {
        ContactResult::Exploded(imps) => imps,
        ContactResult::Ignored => panic!("a primed enemy explodes on the ground"),
    };
    // Enemy 7 (distance 0) and enemy 8 (2 m) lie in the 10 m affected
    // zone; enemy 9 (20 m) is out of reach.
    assert_eq!(imps.len(), 2);
    assert_eq!(imps[0].id, 7);
    assert_eq!(imps[0].strength_milli, 20_000);
    assert_eq!(imps[1].id, 8);
    assert_eq!(imps[1].strength_milli, 16_000);
    // Both lay in the 3 m dead zone: the blast despawns 7 itself and
    // dooms 8, and the player earns two health apiece.
    assert_eq!(w.player_health, 104);
    assert_eq!(w.enemies.len(), 2);
    assert_eq!(w.enemies[0].id, 8);
    assert!(w.enemies[0].doomed.is_some());
    assert_eq!(w.enemies[1].id, 9);
    assert!(w.enemies[1].doomed.is_none());
}

#[test]
fn unprimed_contact_is_ignored() {
    let mut w = World::new(PLAYER, 100);
    w.spawn_enemy(7, pos(0, 0, 0));
    assert_eq!(w.on_pending_hits_ground(7), ContactResult::Ignored);
    assert_eq!(w.on_pending_hits_ground(999), ContactResult::Ignored);
    assert_eq!(w.player_health, 100);
}

#[test]
fn doomed_enemy_falls_after_two_seconds() {
    let mut w = World::new(PLAYER, 100);
    w.spawn_enemy(7, pos(0, 0, 0));
    w.spawn_enemy(8, pos(2000, 0, 0));
    w.on_bullet_hit(7);
    w.on_pending_hits_ground(7);
    let gone = w.tick(1999);
    assert!(gone.is_empty());
    assert_eq!(w.enemies.len(), 1);
    let gone = w.tick(1);
    assert_eq!(gone, vec![8]);
    assert!(w.enemies.is_empty());
}

#[test]
fn slow_player_does_not_uproot() {
    let mut w = World::new(PLAYER, 100);
    w.spawn_tree(30, pos(5000, 0, 0), 600);
    assert!(!w.player_tree_contact(30, 1500, 12_000));
    assert_eq!(w.trees[0].state, TreeState::Standing);
}

#[test]
fn ramming_player_uproots_the_tree() {
    let mut w = World::new(PLAYER, 100);
    w.spawn_tree(30, pos(5000, 0, 0), 600);
    assert!(w.player_tree_contact(30, 11_500, 12_000));
    match w.trees[0].state {
        TreeState::Uprooted(p) => {
            assert_eq!(p.dead_zone_radius_mm, 6000);
            assert_eq!(p.affected_zone_radius_mm, 15_000);
        }
        TreeState::Standing => panic!("the tree must be uprooted"),
    }
    // A second ram does nothing more.
    assert!(!w.player_tree_contact(30, 11_500, 12_000));
}

#[test]
fn falling_tree_uproots_the_next_tree() {
    let mut w = World::new(PLAYER, 100);
    w.spawn_tree(30, pos(0, 0, 0), 600);
    w.spawn_tree(31, pos(4000, 0, 0), 600);
    w.player_tree_contact(30, 12_000, 12_000);
    // The uprooted tree 30 brushes tree 31 as it flies: the chain
    // reaction uproots 31 too; no enemy explodes.
    let (uprooted, res) = w.on_pending_touches_tree(30, 31);
    assert!(uprooted);
    assert_eq!(res, ContactResult::Ignored);
    assert!(matches!(w.trees[1].state, TreeState::Uprooted(_)));
}

#[test]
fn primed_enemy_explodes_on_tree_contact() {
    let mut w = World::new(PLAYER, 100);
    w.spawn_enemy(7, pos(0, 0, 0));
    w.spawn_tree(30, pos(1000, 0, 0), 600);
    w.on_bullet_hit(7);
    let (uprooted, res) = w.on_pending_touches_tree(7, 30);
    assert!(uprooted);
    match res {
        ContactResult::Exploded(imps) => {
            assert_eq!(imps.len(), 1);
            assert_eq!(imps[0].id, 7);
        }
        ContactResult::Ignored => panic!("a primed enemy explodes on a tree"),
    }
    assert!(w.enemies.is_empty());
    assert_eq!(w.player_health, 102);
}

#[test]
fn grounded_tree_explodes_with_its_wider_blast() {
    let mut w = World::new(PLAYER, 100);
    w.spawn_tree(30, pos(0, 0, 0), 600);
    // 12 m from the blast: outside an enemy's 10 m zone, inside a
    // tree's 15 m zone.
    w.spawn_enemy(7, pos(12_000, 0, 0));
    w.player_tree_contact(30, 12_000, 12_000);
    let r = w.on_pending_hits_ground(30);
    let imps = match r {
        ContactResult::Exploded(imps) => imps,
        ContactResult::Ignored => panic!("an uprooted tree explodes on the ground"),
    };
    assert_eq!(imps.len(), 1);
    assert_eq!(imps[0].id, 7);
    assert_eq!(imps[0].strength_milli, 4000);
    assert!(w.trees.is_empty());
    // 12 m is outside the 6 m dead zone: the enemy survives unharmed.
    assert_eq!(w.enemies.len(), 1);
    assert!(w.enemies[0].doomed.is_none());
    assert_eq!(w.player_health, 100);
}

#[test]
fn pending_explosion_profiles() {
    let d = PendingExplosion::default();
    assert_eq!(d.timer.duration_ms, 2000);
    assert_eq!(d.dead_zone_radius_mm, 3000);
    assert_eq!(d.affected_zone_radius_mm, 10_000);
    let t = PendingExplosion::for_tree();
    assert_eq!(t.dead_zone_radius_mm, 6000);
    assert_eq!(t.affected_zone_radius_mm, 15_000);
    let n = PendingExplosion::new(1000, 1000, 8000, 1000, 3000, 4000, 20_000);
    assert_eq!(n.end_scale_milli, 3000);
    assert_eq!(n.affected_zone_radius_mm, 20_000);
}
