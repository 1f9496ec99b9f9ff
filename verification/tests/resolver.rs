//! Scenario tests for the collision resolver and the per-tick systems,
//! driven through `World::run_tick` with hand-made contact events.

use scorch_core::block::BlockInfo;
use scorch_core::ember::EmberComponent;
use scorch_core::ember::EmberStrength;
use scorch_core::enemies::EnemyAction;
use scorch_core::enemies::EnemyInfo;
use scorch_core::enemies::EnemyType;
use scorch_core::enemies::ProjectileType;
use scorch_core::scorch::Scorch;
use scorch_core::scorch::FLAME_REGEN_STEP;
use scorch_core::tags::classify;
use scorch_core::tags::CategoryTag;
use scorch_core::tags::PairKind;
use scorch_core::world::ContactEvent;
use scorch_core::world::ResolveError;
use scorch_core::world::World;
use scorch_core::world::KNOCKBACK_IMPULSE;
use scorch_core::world::STUN_DURATION_MS;

const PLAYER: u64 = 1;
const SENSOR: u64 = 2;

fn start(a: u64, b: u64) -> ContactEvent {
    ContactEvent { started: true, a, b, ax: 0, ay: 0, bx: 0, by: 0 }
}

fn start_at(a: u64, b: u64, ax: i64, ay: i64, bx: i64, by: i64) -> ContactEvent {
    ContactEvent { started: true, a, b, ax, ay, bx, by }
}

fn stop(a: u64, b: u64) -> ContactEvent {
    ContactEvent { started: false, a, b, ax: 0, ay: 0, bx: 0, by: 0 }
}

/// A world with the player (full flame, 1 s invincibility window) and
/// its detection sensor.
fn world_with_player(curr_flame: u64) -> World {
    let mut w = World::new();
    let s = Scorch { curr_flame, ..Scorch::new(100, 1000) };
    w.spawn_scorch(PLAYER, s);
    w.spawn_sensor(SENSOR);
    w
}

fn active_enemy() -> EnemyInfo {
    EnemyInfo { within_range: true, ..EnemyInfo::default() }
}

fn player_flame(w: &World) -> u64 {
    w.get_scorch().unwrap().1.curr_flame
}

#[test]
fn player_absorbs_ember_and_regains_flame() {
    // With the ember contact: absorption plus the tick's regeneration.
    let mut w = world_with_player(50);
    w.spawn_ember(10, EmberComponent::full());
    let fx = w.run_tick(&vec![start(PLAYER, 10)], 0, false);
    assert!(w.get_ember(10).is_none());
    assert_eq!(fx.despawned, vec![10]);
    assert!(fx.errors.is_empty());
    assert!(fx.impulses.is_empty());
    // A control tick without the contact: only the tick regeneration.
    let mut c = world_with_player(50);
    c.spawn_ember(10, EmberComponent::full());
    c.run_tick(&vec![], 0, false);
    // The difference is exactly the fixed regeneration step.
    assert_eq!(player_flame(&w), player_flame(&c) + FLAME_REGEN_STEP);
}

#[test]
fn duplicate_start_events_resolve_once() {
    let mut w = world_with_player(50);
    w.spawn_ember(10, EmberComponent::full());
    let fx = w.run_tick(&vec![start(PLAYER, 10), start(PLAYER, 10), start(10, PLAYER)], 0, false);
    assert_eq!(fx.despawned, vec![10]);
    // Absorption regen once, tick regen once.
    assert_eq!(player_flame(&w), 52);
}

#[test]
fn player_ignites_block_and_it_expires_on_time() {
    let mut w = world_with_player(100);
    w.spawn_block(20, BlockInfo::new(true, false, 10000));
    w.run_tick(&vec![start(20, PLAYER)], 0, false);
    assert_eq!(w.get_block(20).unwrap().ignited_at, Some(0));
    // Still there just before the burn duration elapses.
    let fx = w.run_tick(&vec![], 9900, false);
    assert!(fx.despawned.is_empty());
    assert!(w.get_block(20).is_some());
    // Destroyed on the first expiry pass at or after the duration.
    let fx = w.run_tick(&vec![], 10000, false);
    assert_eq!(fx.despawned, vec![20]);
    assert!(w.get_block(20).is_none());
    assert!(w.tag_of(20).is_none());
}

#[test]
fn non_burnable_block_survives_contact() {
    let mut w = world_with_player(100);
    w.spawn_block(20, BlockInfo::new(false, true, 10000));
    w.run_tick(&vec![start(PLAYER, 20)], 0, false);
    assert_eq!(w.get_block(20).unwrap().ignited_at, None);
}

#[test]
fn extinguish_clears_burning_block() {
    let mut w = world_with_player(100);
    w.spawn_block(20, BlockInfo::new(true, true, 10000));
    w.run_tick(&vec![start(PLAYER, 20)], 0, false);
    w.extinguish_block(20);
    assert_eq!(w.get_block(20).unwrap().ignited_at, None);
    // An extinguished block no longer expires.
    let fx = w.run_tick(&vec![], 20000, false);
    assert!(fx.despawned.is_empty());
}

#[test]
fn ember_ignites_block_and_flies_on() {
    let mut w = World::new();
    w.spawn_ember(10, EmberComponent::full());
    w.spawn_block(20, BlockInfo::new(true, true, 10000));
    let fx = w.run_tick(&vec![start(20, 10)], 400, false);
    assert_eq!(w.get_block(20).unwrap().ignited_at, Some(400));
    assert!(w.get_ember(10).is_some());
    assert!(fx.despawned.is_empty());
}

#[test]
fn enemy_survives_first_ember_and_dies_to_second() {
    let mut w = World::new();
    w.spawn_enemy(30, EnemyInfo { health: 15, ..active_enemy() });
    w.spawn_ember(10, EmberComponent::full());
    w.spawn_ember(11, EmberComponent::full());
    // First hit: not lethal; the ember is consumed, the enemy stays.
    let fx = w.run_tick(&vec![start(10, 30)], 0, false);
    assert_eq!(fx.despawned, vec![10]);
    assert_eq!(w.get_enemy(30).unwrap().health, 5);
    // Second hit: lethal; enemy and ember both go.
    let fx = w.run_tick(&vec![start(11, 30)], 16, false);
    assert_eq!(fx.despawned, vec![30, 11]);
    assert!(w.get_enemy(30).is_none());
    assert!(w.tag_of(30).is_none());
}

#[test]
fn marked_enemy_ignores_further_contacts_in_same_tick() {
    let mut w = World::new();
    w.spawn_enemy(30, EnemyInfo { health: 10, ..active_enemy() });
    w.spawn_ember(10, EmberComponent::full());
    w.spawn_ember(11, EmberComponent::full());
    // The first ember kills the enemy; the second pair touches an entity
    // already marked for despawn, so the second ember is not consumed.
    let fx = w.run_tick(&vec![start(10, 30), start(11, 30)], 0, false);
    assert_eq!(fx.despawned, vec![30, 10]);
    assert!(w.get_ember(11).is_some());
}

#[test]
fn player_enemy_contact_damages_knocks_back_and_stuns() {
    let mut w = world_with_player(100);
    w.spawn_enemy(30, EnemyInfo { moveable: true, ..active_enemy() });
    // Player at (0, 0), enemy at (100, 0); the window since the zero
    // timestamp has elapsed, so the hit lands.
    let fx = w.run_tick(&vec![start_at(PLAYER, 30, 0, 0, 100, 0)], 2000, false);
    // Player lost the enemy's contact damage (10), then regenerated 1.
    assert_eq!(player_flame(&w), 91);
    // Both sides accrued the damage-per-frame rate.
    assert_eq!(w.get_scorch().unwrap().1.get_dpf(), 5);
    let e = w.get_enemy(30).unwrap();
    assert_eq!(e.get_dpf(), 5);
    // The enemy took the fixed contact damage and was stunned.
    assert_eq!(e.health, 90);
    assert_eq!(e.stunned_until, 2000 + STUN_DURATION_MS);
    // Opposite knockback impulses, player pushed away from the enemy.
    assert_eq!(fx.impulses.len(), 2);
    assert_eq!(fx.impulses[0].target, PLAYER);
    assert_eq!(fx.impulses[0].dx, -KNOCKBACK_IMPULSE);
    assert_eq!(fx.impulses[0].dy, 0);
    assert_eq!(fx.impulses[1].target, 30);
    assert_eq!(fx.impulses[1].dx, KNOCKBACK_IMPULSE);
    assert_eq!(fx.impulses[1].dy, 0);
    assert!(fx.despawned.is_empty());

    // A second contact within the invincibility window: no flame damage,
    // but the damage-per-frame accrual happens again.
    let fx = w.run_tick(&vec![start_at(PLAYER, 30, 0, 0, 100, 0)], 2010, false);
    assert_eq!(player_flame(&w), 92);
    assert_eq!(w.get_scorch().unwrap().1.get_dpf(), 10);
    assert_eq!(w.get_enemy(30).unwrap().get_dpf(), 10);
    assert_eq!(w.get_enemy(30).unwrap().health, 80);
    assert_eq!(fx.impulses.len(), 2);
}

#[test]
fn stun_saturates_near_the_end_of_time() {
    let mut w = world_with_player(100);
    w.spawn_enemy(30, active_enemy());
    let now = u64::MAX - 100;
    w.run_tick(&vec![start_at(PLAYER, 30, 0, 0, 100, 0)], now, false);
    assert_eq!(w.get_enemy(30).unwrap().stunned_until, u64::MAX);
}

#[test]
fn rooted_enemy_gets_no_knockback() {
    let mut w = world_with_player(100);
    w.spawn_enemy(30, EnemyInfo { moveable: false, ..active_enemy() });
    let fx = w.run_tick(&vec![start_at(PLAYER, 30, 0, 0, 100, 0)], 2000, false);
    assert_eq!(fx.impulses.len(), 1);
    assert_eq!(fx.impulses[0].target, PLAYER);
}

#[test]
fn contact_stop_sheds_damage_per_frame_with_floor() {
    let mut w = world_with_player(100);
    w.spawn_enemy(30, active_enemy());
    w.run_tick(&vec![start_at(PLAYER, 30, 0, 0, 100, 0)], 2000, false);
    assert_eq!(w.get_enemy(30).unwrap().get_dpf(), 5);
    w.run_tick(&vec![stop(PLAYER, 30)], 2100, false);
    assert_eq!(w.get_enemy(30).unwrap().get_dpf(), 0);
    assert_eq!(w.get_scorch().unwrap().1.get_dpf(), 0);
    // A spurious second stop cannot push the accumulator negative.
    w.run_tick(&vec![stop(30, PLAYER)], 2200, false);
    assert_eq!(w.get_enemy(30).unwrap().get_dpf(), 0);
}

#[test]
fn projectile_hits_player_and_despawns() {
    let mut w = world_with_player(100);
    w.spawn_projectile(40, ProjectileType::default());
    let fx = w.run_tick(&vec![start(40, PLAYER)], 2000, false);
    assert_eq!(player_flame(&w), 91);
    assert_eq!(fx.despawned, vec![40]);
    assert!(w.get_projectile(40).is_none());
}

#[test]
fn block_stops_projectile() {
    let mut w = World::new();
    w.spawn_block(20, BlockInfo::default());
    w.spawn_projectile(40, ProjectileType::default());
    let fx = w.run_tick(&vec![start(40, 20)], 0, false);
    assert_eq!(fx.despawned, vec![40]);
    assert!(w.get_block(20).is_some());
}

#[test]
fn sensor_activates_enemy() {
    let mut w = world_with_player(100);
    w.spawn_enemy(30, EnemyInfo::default());
    assert!(!w.get_enemy(30).unwrap().is_active());
    let fx = w.run_tick(&vec![start(30, SENSOR)], 0, false);
    assert!(w.get_enemy(30).unwrap().is_active());
    assert!(fx.errors.is_empty());
}

#[test]
fn placeholder_pairs_are_noops() {
    let mut w = World::new();
    w.spawn_ember(10, EmberComponent::full());
    w.spawn_block(20, BlockInfo::new(false, false, 1));
    w.spawn_enemy(30, active_enemy());
    w.spawn_projectile(40, ProjectileType::default());
    // Ember–projectile and block–enemy are explicit no-op placeholders.
    let fx = w.run_tick(&vec![start(10, 40), start(20, 30)], 0, false);
    assert!(fx.despawned.is_empty());
    assert!(fx.errors.is_empty());
    assert!(fx.impulses.is_empty());
    assert_eq!(w.get_enemy(30).unwrap().health, 100);
}

#[test]
fn missing_tag_is_reported_and_skipped() {
    let mut w = world_with_player(100);
    let fx = w.run_tick(&vec![start(PLAYER, 99)], 0, false);
    assert_eq!(fx.errors, vec![ResolveError::MissingCategoryTag(99)]);
    assert!(fx.despawned.is_empty());
}

#[test]
fn unrecognized_pairing_is_reported_and_skipped() {
    let mut w = World::new();
    w.spawn_enemy(30, active_enemy());
    w.spawn_enemy(31, active_enemy());
    let fx = w.run_tick(&vec![start(30, 31)], 0, false);
    assert_eq!(fx.errors, vec![ResolveError::UnrecognizedPairing(30, 31)]);
    assert_eq!(w.get_enemy(30).unwrap().health, 100);
    assert_eq!(w.get_enemy(31).unwrap().health, 100);
}

#[test]
fn missing_singleton_is_reported_and_harmless() {
    let mut w = world_with_player(100);
    w.spawn_ember(10, EmberComponent::full());
    w.clear_scorch();
    let fx = w.run_tick(&vec![start(PLAYER, 10)], 0, false);
    assert_eq!(fx.errors, vec![ResolveError::MissingSingleton]);
    assert!(w.get_ember(10).is_some());
    assert!(fx.despawned.is_empty());
}

#[test]
fn decay_timer_advances_all_embers_in_lockstep() {
    let mut w = World::new();
    w.spawn_ember(10, EmberComponent::full());
    w.spawn_ember(11, EmberComponent { state: EmberStrength::Weak });
    let fx = w.run_tick(&vec![], 0, true);
    assert_eq!(w.get_ember(10).unwrap().state, EmberStrength::Strong);
    assert!(w.get_ember(11).is_none());
    assert_eq!(fx.despawned, vec![11]);
    // Three more firings destroy the fresh ember too.
    w.run_tick(&vec![], 1000, true);
    w.run_tick(&vec![], 2000, true);
    assert_eq!(w.get_ember(10).unwrap().state, EmberStrength::Weak);
    let fx = w.run_tick(&vec![], 3000, true);
    assert_eq!(fx.despawned, vec![10]);
    assert!(w.get_ember(10).is_none());
}

#[test]
fn absorbed_ember_despawns_once_even_when_weak() {
    let mut w = world_with_player(50);
    w.spawn_ember(10, EmberComponent { state: EmberStrength::Weak });
    // Absorbed by contact in the same tick in which the decay timer
    // fires on it: one despawn request, not two.
    let fx = w.run_tick(&vec![start(PLAYER, 10)], 0, true);
    assert_eq!(fx.despawned, vec![10]);
}

#[test]
fn dispatch_is_order_independent() {
    for (a, b) in [(PLAYER, 30), (30, PLAYER)] {
        let mut w = world_with_player(100);
        w.spawn_enemy(30, active_enemy());
        w.run_tick(&vec![start_at(a, b, 0, 0, 0, 0)], 2000, false);
        assert_eq!(player_flame(&w), 91);
        assert_eq!(w.get_enemy(30).unwrap().health, 90);
    }
    assert_eq!(
        classify(CategoryTag::Ember, CategoryTag::Enemy),
        classify(CategoryTag::Enemy, CategoryTag::Ember)
    );
    assert_eq!(classify(CategoryTag::Player, CategoryTag::Ember), PairKind::PlayerEmber);
    assert_eq!(
        classify(CategoryTag::Player, CategoryTag::DetectionSensor),
        PairKind::Unrecognized
    );
}

#[test]
fn enemy_movement_through_world() {
    let mut w = world_with_player(100);
    w.spawn_enemy(30, EnemyInfo { e_type: EnemyType::Ranged, ..active_enemy() });
    assert_eq!(w.enemy_movement(30, 2000, 300, false), Some(EnemyAction::Charge));
    assert_eq!(w.enemy_movement(30, 2000, 100, false), Some(EnemyAction::Shoot));
    assert_eq!(w.enemy_movement(30, 2100, 100, false), Some(EnemyAction::Hold));
    assert_eq!(w.enemy_movement(99, 2000, 100, false), None);
    let snapshot = w.enemies_snapshot();
    assert_eq!(snapshot.len(), 1);
    assert_eq!(snapshot[0].0, 30);
    assert_eq!(snapshot[0].1.active_cooldown, 2000);
}
