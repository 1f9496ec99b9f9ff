//! Unit tests for the per-entity state machines: block ignition, ember
//! decay, enemy combat state, and the player's resources and abilities.

use scorch_core::block::BlockInfo;
use scorch_core::block::DEFAULT_BURN_DURATION_MS;
use scorch_core::ember::EmberComponent;
use scorch_core::ember::EmberStrength;
use scorch_core::enemies::ContactProj;
use scorch_core::enemies::EnemyAction;
use scorch_core::enemies::EnemyInfo;
use scorch_core::enemies::EnemyType;
use scorch_core::enemies::ProjectileType;
use scorch_core::scorch::Scorch;

fn test_enemy() -> EnemyInfo {
    EnemyInfo::default()
}

fn test_scorch() -> Scorch {
    Scorch::new(100, 1000)
}

#[test]
fn ignite_then_extinguish_on_extinguishable_block() {
    let mut b = BlockInfo::new(true, true, 10000);
    b.set_burn(5);
    assert_eq!(b.ignited_at, Some(5));
    b.extinguish();
    assert_eq!(b.ignited_at, None);
}

#[test]
fn extinguish_is_noop_on_non_extinguishable_block() {
    let mut b = BlockInfo::new(true, false, 10000);
    b.set_burn(5);
    b.extinguish();
    assert_eq!(b.ignited_at, Some(5));
}

#[test]
fn non_burnable_block_never_ignites() {
    let mut b = BlockInfo::new(false, true, 10000);
    b.set_burn(7);
    assert_eq!(b.ignited_at, None);
    assert!(!b.is_burning());
}

#[test]
fn first_ignite_wins() {
    let mut b = BlockInfo::new(true, true, 10000);
    b.set_burn(100);
    b.set_burn(200);
    assert_eq!(b.ignited_at, Some(100));
}

#[test]
fn block_burns_out_exactly_at_duration() {
    let mut b = BlockInfo::new(true, false, 10000);
    b.set_burn(0);
    assert!(!b.burned_out(9900));
    assert!(b.burned_out(10000));
    assert!(b.burned_out(10001));
}

#[test]
fn unlit_block_never_burns_out() {
    let b = BlockInfo::new(true, true, 0);
    assert!(!b.burned_out(u64::MAX));
}

#[test]
fn default_block_is_burnable_and_unlit() {
    let b = BlockInfo::default();
    assert!(b.burnable);
    assert!(b.extinguishable);
    assert_eq!(b.burn_duration, DEFAULT_BURN_DURATION_MS);
    assert_eq!(b.ignited_at, None);
}

#[test]
fn ember_decays_one_step_per_firing_and_dies_when_weak() {
    let mut e = EmberComponent::full();
    assert_eq!(e.state, EmberStrength::Full);
    assert!(!e.decay());
    assert_eq!(e.state, EmberStrength::Strong);
    assert!(!e.decay());
    assert_eq!(e.state, EmberStrength::Normal);
    assert!(!e.decay());
    assert_eq!(e.state, EmberStrength::Weak);
    assert!(e.decay());
}

#[test]
fn enemy_damage_is_lethal_exactly_at_zero() {
    let mut e = EnemyInfo { health: 15, ..test_enemy() };
    assert!(!e.take_dmg(10));
    assert_eq!(e.health, 5);
    assert!(e.take_dmg(10));
    assert_eq!(e.health, 0);
}

#[test]
fn enemy_dpf_accumulator_floors_at_zero() {
    let mut e = test_enemy();
    e.add_dpf(5);
    assert_eq!(e.get_dpf(), 5);
    e.add_dpf(-5);
    assert_eq!(e.get_dpf(), 0);
    e.add_dpf(-5);
    assert_eq!(e.get_dpf(), 0);
    e.add_dpf(3);
    e.clear_dpf();
    assert_eq!(e.get_dpf(), 0);
}

#[test]
fn scorch_dpf_accumulator_floors_at_zero() {
    let mut s = test_scorch();
    s.add_dpf(5);
    s.add_dpf(-5);
    s.add_dpf(-5);
    assert_eq!(s.get_dpf(), 0);
}

#[test]
fn dpf_accumulator_saturates_at_the_top() {
    let mut e = test_enemy();
    e.add_dpf(i64::MAX);
    e.add_dpf(i64::MAX);
    e.add_dpf(i64::MAX);
    assert_eq!(e.get_dpf(), u64::MAX);
}

#[test]
fn enemy_attack_cooldown_gate() {
    let mut e = EnemyInfo { cooldown: 1000, active_cooldown: 0, ..test_enemy() };
    assert!(!e.handle_shooting(500));
    assert!(!e.handle_shooting(1000));
    assert!(e.handle_shooting(1001));
    assert_eq!(e.active_cooldown, 1001);
    assert!(!e.handle_shooting(1500));
    assert!(e.handle_shooting(2002));
}

#[test]
fn enemy_stun_window_is_strict() {
    let mut e = test_enemy();
    e.stun_until(5000);
    assert!(e.is_stunned(4999));
    assert!(!e.is_stunned(5000));
}

#[test]
fn enemy_range_check_is_strict() {
    let e = EnemyInfo { range: 250, ..test_enemy() };
    assert!(e.is_within_range(249));
    assert!(!e.is_within_range(250));
}

#[test]
fn enemy_activation_flag() {
    let mut e = test_enemy();
    assert!(!e.is_active());
    e.set_active();
    assert!(e.is_active());
}

#[test]
fn enemy_getters_report_tuning_values() {
    let e = EnemyInfo { dmg: 12, move_speed: 7, moveable: false, ..test_enemy() };
    assert_eq!(e.contact_dmg(), 12);
    assert_eq!(e.speed(), 7);
    assert!(!e.is_moveable());
}

#[test]
fn inactive_or_stunned_enemy_decides_idle() {
    let mut e = test_enemy();
    assert_eq!(e.movement_decision(0, 10, true), EnemyAction::Idle);
    e.set_active();
    e.stun_until(500);
    assert_eq!(e.movement_decision(400, 10, true), EnemyAction::Idle);
    assert_eq!(e.movement_decision(500, 10, true), EnemyAction::Charge);
}

#[test]
fn ranged_enemy_charges_then_holds_then_shoots() {
    let mut e = EnemyInfo {
        e_type: EnemyType::Ranged,
        range: 250,
        cooldown: 1000,
        within_range: true,
        ..test_enemy()
    };
    assert_eq!(e.movement_decision(2000, 300, false), EnemyAction::Charge);
    assert_eq!(e.movement_decision(2000, 100, false), EnemyAction::Shoot);
    assert_eq!(e.active_cooldown, 2000);
    assert_eq!(e.movement_decision(2500, 100, false), EnemyAction::Hold);
}

#[test]
fn stationary_enemy_stays_idle() {
    let mut e = EnemyInfo { e_type: EnemyType::Stationary, within_range: true, ..test_enemy() };
    assert_eq!(e.movement_decision(2000, 10, true), EnemyAction::Idle);
}

#[test]
fn stationary_ranged_enemy_needs_line_of_sight() {
    let mut e = EnemyInfo {
        e_type: EnemyType::StationaryRanged,
        cooldown: 1000,
        within_range: true,
        ..test_enemy()
    };
    assert_eq!(e.movement_decision(2000, 10, false), EnemyAction::Idle);
    assert_eq!(e.movement_decision(2000, 10, true), EnemyAction::Shoot);
    assert_eq!(e.movement_decision(2100, 10, true), EnemyAction::Idle);
}

#[test]
fn summoner_summons_in_range() {
    let mut e = EnemyInfo {
        e_type: EnemyType::Summoner,
        range: 250,
        cooldown: 1000,
        within_range: true,
        ..test_enemy()
    };
    assert_eq!(e.movement_decision(2000, 300, false), EnemyAction::Charge);
    assert_eq!(e.movement_decision(2000, 100, false), EnemyAction::Summon);
    assert_eq!(e.movement_decision(2100, 100, false), EnemyAction::Hold);
}

#[test]
fn projectile_default_and_getters() {
    let p = ProjectileType::default();
    assert_eq!(p.get_dmg(), 10);
    assert_eq!(p.get_spd(), 10);
    assert_eq!(p.get_size(), 10);
    let q = ProjectileType::Contact(ContactProj { dmg: 3, spd: 4, size: 5 });
    assert_eq!(q.get_dmg(), 3);
    assert_eq!(q.get_spd(), 4);
    assert_eq!(q.get_size(), 5);
}

#[test]
fn regen_never_exceeds_max_flame() {
    let mut s = Scorch { curr_flame: 99, ..test_scorch() };
    s.regen_flame();
    assert_eq!(s.curr_flame, 100);
    s.regen_flame();
    s.regen_flame();
    assert_eq!(s.curr_flame, 100);
}

#[test]
fn damage_within_invincibility_window_applies_once() {
    let mut s = test_scorch();
    assert!(s.damage_flame(10, 2000));
    assert_eq!(s.curr_flame, 90);
    assert!(!s.damage_flame(10, 2999));
    assert_eq!(s.curr_flame, 90);
    assert!(s.damage_flame(10, 3000));
    assert_eq!(s.curr_flame, 80);
}

#[test]
fn first_hit_before_window_elapses_is_blocked() {
    let mut s = test_scorch();
    assert!(!s.damage_flame(10, 0));
    assert_eq!(s.curr_flame, 100);
    assert!(s.damage_flame(10, 1000));
}

#[test]
fn damage_floors_flame_at_zero() {
    let mut s = test_scorch();
    assert!(s.damage_flame(250, 2000));
    assert_eq!(s.curr_flame, 0);
}

#[test]
fn propel_spends_flame_only_while_some_is_left() {
    let mut s = Scorch { curr_flame: 1, ..test_scorch() };
    assert!(s.try_propel());
    assert_eq!(s.curr_flame, 0);
    assert!(!s.try_propel());
    assert_eq!(s.curr_flame, 0);
}

#[test]
fn reset_restores_full_flame() {
    let mut s = test_scorch();
    s.damage_flame(40, 2000);
    s.reset();
    assert_eq!(s.curr_flame, 100);
}

#[test]
fn grounding_refreshes_dash_and_double_jump() {
    let mut s = test_scorch();
    assert!(!s.double_jump_avail());
    s.grounded();
    assert!(s.dash_ready);
    assert!(s.double_jump_avail());
    assert!(!s.double_jump_avail());
}

#[test]
fn dash_requires_double_tap_and_cooldown() {
    let mut s = test_scorch();
    s.grounded();
    // First tap only records the time.
    assert!(!s.a_dash_avail(1500));
    assert_eq!(s.a_dash, 1500);
    // Second tap inside the double-tap window, with the cooldown long
    // elapsed: the dash triggers and consumes the availability.
    assert!(s.a_dash_avail(1600));
    assert!(!s.dash_ready);
    assert_eq!(s.dash_at, 1600);
    // No dash while the availability is spent.
    assert!(!s.a_dash_avail(1650));
}

#[test]
fn dash_blocked_by_cooldown_since_last_dash() {
    let mut s = test_scorch();
    s.grounded();
    assert!(!s.d_dash_avail(1500));
    assert!(s.d_dash_avail(1600));
    s.grounded();
    // Within the cooldown of the dash at 1600: double tap but no dash.
    assert!(!s.d_dash_avail(2000));
    assert!(!s.d_dash_avail(2100));
    // After the cooldown a fresh double tap works.
    assert!(!s.d_dash_avail(2700));
    assert!(s.d_dash_avail(2800));
}

#[test]
fn slow_taps_never_dash() {
    let mut s = test_scorch();
    s.grounded();
    assert!(!s.a_dash_avail(2000));
    assert!(!s.a_dash_avail(2300));
    assert!(!s.a_dash_avail(2600));
    assert!(s.dash_ready);
}
